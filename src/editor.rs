//! The cursor model and the decisions of the editor loop.
use vstd::prelude::*;

use crate::error::EditorError;
use crate::keys::{ctrl, decode_key, read_key, Input};

verus! {

/// The Ctrl+Q byte, which ends the session.
pub const QUIT_BYTE: u8 = 0x11;

/// What the loop does after a key.
#[derive(Debug, Clone, Copy, PartialEq, Eq, Structural)]
pub enum ControlSignal {
    Continue,
    Quit,
}

/// The window's size and the cursor's place in it, zero-based.
#[derive(Debug, Clone, Copy, PartialEq, Eq, Structural)]
pub struct EditorConfig {
    pub rows: u16,
    pub cols: u16,
    pub cx: u16,
    pub cy: u16,
}

impl EditorConfig {
    /// The window is not empty and the cursor lies inside it.
    pub open spec fn wf(&self) -> bool {
        self.rows > 0 && self.cols > 0 && self.cx < self.cols && self.cy < self.rows
    }
}

/// A session on a window of `rows` by `cols`, with the cursor at the origin.
/// A window with no rows or no columns is refused.
pub fn term_config(rows: u16, cols: u16) -> (r: Result<EditorConfig, EditorError>)
    ensures
        rows > 0 && cols > 0 ==> r == Ok::<EditorConfig, EditorError>(
            EditorConfig { rows, cols, cx: 0, cy: 0 },
        ),
        !(rows > 0 && cols > 0) ==> r == Err::<EditorConfig, EditorError>(
            EditorError::GeometryUnavailable,
        ),
        r is Ok ==> r->Ok_0.wf(),
{
    if rows > 0 && cols > 0 {
        Ok(EditorConfig { rows, cols, cx: 0, cy: 0 })
    } else {
        Err(EditorError::GeometryUnavailable)
    }
}

/// The configuration after the key `i`: an arrow moves the cursor one step
/// unless it is at that edge of the window; other keys leave it in place.
pub open spec fn moved(i: Input, c: EditorConfig) -> EditorConfig {
    match i {
        Input::ArrowUp => if c.cy > 0 { EditorConfig { cy: (c.cy - 1) as u16, ..c } } else { c },
        Input::ArrowDown => if c.cy + 1 < c.rows { EditorConfig { cy: (c.cy + 1) as u16, ..c } } else { c },
        Input::ArrowLeft => if c.cx > 0 { EditorConfig { cx: (c.cx - 1) as u16, ..c } } else { c },
        Input::ArrowRight => if c.cx + 1 < c.cols { EditorConfig { cx: (c.cx + 1) as u16, ..c } } else { c },
        _ => c,
    }
}

/// Ctrl+Q ends the session; every other key lets it go on.
pub open spec fn signal_of(i: Input) -> ControlSignal {
    if i == Input::Control(QUIT_BYTE) {
        ControlSignal::Quit
    } else {
        ControlSignal::Continue
    }
}

/// Applies one key to the cursor and says whether the session goes on.
pub fn process_key(i: Input, conf: &mut EditorConfig) -> (r: ControlSignal)
    requires
        old(conf).wf(),
    ensures
        *final(conf) == moved(i, *old(conf)),
        r == signal_of(i),
        final(conf).wf(),
{
    match i {
        Input::Control(b) => {
            let quit = ctrl('q');
            assert(('q' as u32) % 256 == 0x71);
            assert(0x71u8 & 0x1fu8 == 0x11u8) by (bit_vector);
            if b == quit {
                return ControlSignal::Quit;
            }
        },
        Input::Char(_) => {},
        Input::ArrowUp => {
            if conf.cy > 0 {
                conf.cy = conf.cy - 1;
            }
        },
        Input::ArrowDown => {
            if conf.cy < conf.rows - 1 {
                conf.cy = conf.cy + 1;
            }
        },
        Input::ArrowLeft => {
            if conf.cx > 0 {
                conf.cx = conf.cx - 1;
            }
        },
        Input::ArrowRight => {
            if conf.cx < conf.cols - 1 {
                conf.cx = conf.cx + 1;
            }
        },
    }
    ControlSignal::Continue
}

/// The configuration after the keys `keys`, applied in order, all of them.
pub open spec fn moved_all(keys: Seq<Input>, c: EditorConfig) -> EditorConfig
    decreases keys.len(),
{
    if keys.len() == 0 {
        c
    } else {
        moved_all(keys.drop_first(), moved(keys[0], c))
    }
}

/// Whatever keys are pressed, in whatever order, on any window that is not
/// empty, the cursor stays inside the window.
pub proof fn lemma_cursor_stays_in_window(keys: Seq<Input>, c: EditorConfig)
    requires
        c.wf(),
    ensures
        moved_all(keys, c).wf(),
        moved_all(keys, c).rows == c.rows && moved_all(keys, c).cols == c.cols,
    decreases keys.len(),
{
    if keys.len() > 0 {
        lemma_cursor_stays_in_window(keys.drop_first(), moved(keys[0], c));
    }
}

/// Whether the arrow `i` points past the edge of the window that the
/// cursor of `c` stands on.
pub open spec fn at_edge(i: Input, c: EditorConfig) -> bool {
    match i {
        Input::ArrowUp => c.cy == 0,
        Input::ArrowDown => c.cy + 1 == c.rows,
        Input::ArrowLeft => c.cx == 0,
        Input::ArrowRight => c.cx + 1 == c.cols,
        _ => false,
    }
}

/// An arrow pressed at the edge it points to, any number of times, leaves
/// the cursor where it is: it is clamped, never wrapped.
pub proof fn lemma_arrow_at_edge_is_fixed(i: Input, c: EditorConfig, n: nat)
    requires
        c.wf(),
        at_edge(i, c),
    ensures
        moved_all(Seq::new(n, |_k: int| i), c) == c,
    decreases n,
{
    if n > 0 {
        lemma_arrow_at_edge_is_fixed(i, c, (n - 1) as nat);
        assert(Seq::new(n, |_k: int| i).drop_first() =~= Seq::new((n - 1) as nat, |_k: int| i));
    }
}

/// A session run on the bytes `s`: keys are decoded and applied until one
/// asks to quit or the bytes run out. Gives the final configuration, the
/// signal of the last key (`Continue` if the bytes ran out) and the number
/// of bytes used.
pub open spec fn run_spec(c: EditorConfig, s: Seq<u8>) -> (EditorConfig, ControlSignal, nat)
    decreases s.len(),
{
    match decode_key(s) {
        None => (c, ControlSignal::Continue, 0),
        Some((i, n)) => {
            let c2 = moved(i, c);
            if signal_of(i) == ControlSignal::Quit || n == 0 || n > s.len() {
                (c2, signal_of(i), n)
            } else {
                let rest = run_spec(c2, s.subrange(n as int, s.len() as int));
                (rest.0, rest.1, n + rest.2)
            }
        },
    }
}

proof fn lemma_decode_takes_some(s: Seq<u8>)
    ensures
        decode_key(s) matches Some((_, n)) ==> 0 < n <= s.len(),
{
}

/// Runs a session on the bytes `bytes`, as `run_spec` says, and returns the
/// signal that ended it with the number of bytes used.
pub fn run_session(conf: &mut EditorConfig, bytes: &[u8]) -> (r: (ControlSignal, usize))
    requires
        old(conf).wf(),
    ensures
        final(conf).wf(),
        run_spec(*old(conf), bytes@) == (*final(conf), r.0, r.1 as nat),
{
    let ghost start = *conf;
    let len = bytes.len();
    let mut pos: usize = 0;
    assert(bytes@.subrange(0, len as int) =~= bytes@);
    while pos < len
        invariant
            conf.wf(),
            start == *old(conf),
            pos <= len == bytes@.len(),
            run_spec(start, bytes@) == ({
                let rest = run_spec(*conf, bytes@.subrange(pos as int, len as int));
                (rest.0, rest.1, (pos + rest.2) as nat)
            }),
        decreases len - pos,
    {
        let ghost rest = bytes@.subrange(pos as int, len as int);
        let tail = bytes.split_at(pos).1;
        assert(tail@ == rest);
        proof {
            lemma_decode_takes_some(rest);
        }
        match read_key(tail) {
            None => {
                return (ControlSignal::Continue, pos);
            },
            Some((i, n)) => {
                let ghost before = *conf;
                let sig = process_key(i, conf);
                assert(run_spec(before, rest) == ({
                    let c2 = moved(i, before);
                    if signal_of(i) == ControlSignal::Quit {
                        (c2, signal_of(i), n as nat)
                    } else {
                        let more = run_spec(c2, rest.subrange(n as int, rest.len() as int));
                        (more.0, more.1, (n + more.2) as nat)
                    }
                }));
                if sig == ControlSignal::Quit {
                    assert(signal_of(i) == ControlSignal::Quit);
                    return (ControlSignal::Quit, pos + n);
                }
                assert(rest.subrange(n as int, rest.len() as int) =~= bytes@.subrange(
                    pos + n,
                    len as int,
                ));
                pos = pos + n;
            },
        }
    }
    assert(bytes@.subrange(pos as int, len as int).len() == 0);
    (ControlSignal::Continue, pos)
}

} // verus!
