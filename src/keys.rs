//! Turning a stream of input bytes into logical key events.
use vstd::prelude::*;

verus! {

/// The escape byte that starts a multi-byte key sequence.
pub const ESCAPE: u8 = 0x1b;

/// A logical keypress.
#[derive(Debug, Clone, Copy, PartialEq, Eq, Structural)]
pub enum Input {
    /// A non-printable byte (including a lone escape).
    Control(u8),
    /// A printable character, taken as the code point of its byte.
    Char(char),
    ArrowUp,
    ArrowDown,
    ArrowRight,
    ArrowLeft,
}

/// The code that `Ctrl` plus the key `c` sends: its five low bits.
pub open spec fn ctrl_spec(c: char) -> u8 {
    ((c as u32) % 256) as u8 & 0x1f
}

/// The byte sent when `Ctrl` is held together with the key `c`.
pub fn ctrl(c: char) -> (r: u8)
    ensures
        r == ctrl_spec(c),
        r < 32,
{
    let v: u32 = c as u32;
    assert(v & 0xff == v % 256) by (bit_vector);
    let b: u8 = (v & 0xff) as u8;
    assert(b & 0x1f < 32) by (bit_vector);
    b & 0x1f
}

/// Whether a byte, read as a code point, is a control character:
/// the C0 range, DEL, or the C1 range.
pub open spec fn is_control_byte(b: u8) -> bool {
    b < 0x20 || (0x7f <= b && b <= 0x9f)
}

/// The event for the two bytes that follow an escape byte. An arrow is
/// `[` followed by `A`, `B`, `C` or `D`. Any other pair is not a known
/// sequence: it yields the first of the two bytes as a plain character and
/// drops the second.
pub open spec fn escape_tail(b1: u8, b2: u8) -> Input {
    if b1 == 0x5b && b2 == 0x41 {
        Input::ArrowUp
    } else if b1 == 0x5b && b2 == 0x42 {
        Input::ArrowDown
    } else if b1 == 0x5b && b2 == 0x43 {
        Input::ArrowRight
    } else if b1 == 0x5b && b2 == 0x44 {
        Input::ArrowLeft
    } else {
        Input::Char(b1 as char)
    }
}

/// The first key event of the stream `s`, with the number of bytes it takes.
/// After an escape byte two more bytes are read; where the stream ends first,
/// the escape is a key of its own and what was read after it is used up.
pub open spec fn decode_key(s: Seq<u8>) -> Option<(Input, nat)> {
    if s.len() == 0 {
        None
    } else if s[0] == ESCAPE {
        if s.len() >= 3 {
            Some((escape_tail(s[1], s[2]), 3))
        } else {
            Some((Input::Control(ESCAPE), s.len()))
        }
    } else if is_control_byte(s[0]) {
        Some((Input::Control(s[0]), 1))
    } else {
        Some((Input::Char(s[0] as char), 1))
    }
}

fn is_control(b: u8) -> (r: bool)
    ensures
        r == is_control_byte(b),
{
    b < 0x20 || (0x7f <= b && b <= 0x9f)
}

fn decode_escape_tail(b1: u8, b2: u8) -> (r: Input)
    ensures
        r == escape_tail(b1, b2),
{
    if b1 == 0x5b && b2 == 0x41 {
        Input::ArrowUp
    } else if b1 == 0x5b && b2 == 0x42 {
        Input::ArrowDown
    } else if b1 == 0x5b && b2 == 0x43 {
        Input::ArrowRight
    } else if b1 == 0x5b && b2 == 0x44 {
        Input::ArrowLeft
    } else {
        Input::Char(b1 as char)
    }
}

/// Decodes the first key event at the front of `bytes`, returning it with
/// the number of bytes it consumed, or `None` when `bytes` is empty.
pub fn read_key(bytes: &[u8]) -> (r: Option<(Input, usize)>)
    ensures
        match r {
            None => decode_key(bytes@) is None,
            Some((i, n)) => decode_key(bytes@) == Some((i, n as nat)),
        },
{
    let len = bytes.len();
    if len == 0 {
        return None;
    }
    let b = bytes[0];
    if b == ESCAPE {
        if len >= 3 {
            Some((decode_escape_tail(bytes[1], bytes[2]), 3))
        } else {
            Some((Input::Control(ESCAPE), len))
        }
    } else if is_control(b) {
        Some((Input::Control(b), 1))
    } else {
        Some((Input::Char(b as char), 1))
    }
}

/// Whether the bytes `s` hold one whole key: a byte other than escape, or an
/// escape with the two bytes that follow it.
pub open spec fn key_complete(s: Seq<u8>) -> bool {
    s.len() > 0 && (s[0] != ESCAPE || s.len() >= 3)
}

/// Every key of the stream `s`, decoded from the front until it runs out.
pub open spec fn decode_all(s: Seq<u8>) -> Seq<Input>
    decreases s.len(),
{
    match decode_key(s) {
        None => Seq::empty(),
        Some((i, n)) => if 0 < n <= s.len() {
            seq![i] + decode_all(s.subrange(n as int, s.len() as int))
        } else {
            seq![i]
        },
    }
}

/// What the decoder holding `pending` gives for the next byte `b`, and what
/// it then holds.
pub open spec fn feed_spec(pending: Seq<u8>, b: u8) -> (Option<Input>, Seq<u8>) {
    let p = pending.push(b);
    if key_complete(p) {
        (Some(decode_key(p)->Some_0.0), Seq::empty())
    } else {
        (None, p)
    }
}

/// The keys that a decoder holding `pending` gives when fed the bytes `s` one
/// by one and then told that the stream has ended.
pub open spec fn stream_keys(pending: Seq<u8>, s: Seq<u8>) -> Seq<Input>
    decreases s.len(),
{
    if s.len() == 0 {
        if pending.len() > 0 {
            seq![Input::Control(ESCAPE)]
        } else {
            Seq::empty()
        }
    } else {
        let (out, next) = feed_spec(pending, s[0]);
        let head = match out {
            Some(i) => seq![i],
            None => Seq::empty(),
        };
        head + stream_keys(next, s.drop_first())
    }
}

/// Feeding a stream to the decoder one byte at a time, then ending it, gives
/// the same keys, in the same order, as decoding the whole stream at once
/// with `read_key`.
pub proof fn lemma_stream_matches_whole(pending: Seq<u8>, s: Seq<u8>)
    requires
        pending.len() < 3,
        pending.len() > 0 ==> pending[0] == ESCAPE,
    ensures
        stream_keys(pending, s) == decode_all(pending + s),
    decreases s.len(),
{
    let all = pending + s;
    if s.len() == 0 {
        assert(all =~= pending);
        if pending.len() > 0 {
            assert(all.subrange(all.len() as int, all.len() as int) =~= Seq::<u8>::empty());
            assert(decode_all(Seq::<u8>::empty()) =~= Seq::<Input>::empty());
            assert(decode_all(all) =~= seq![Input::Control(ESCAPE)]);
        }
    } else {
        let p = pending.push(s[0]);
        let rest = s.drop_first();
        if key_complete(p) {
            lemma_stream_matches_whole(Seq::empty(), rest);
            assert(Seq::<u8>::empty() + rest =~= rest);
            assert(all.subrange(p.len() as int, all.len() as int) =~= rest);
            assert(all[0] == p[0]);
            if p[0] == ESCAPE {
                assert(all[1] == p[1] && all[2] == p[2]);
            }
            assert(decode_key(all) == Some((decode_key(p)->Some_0.0, p.len())));
        } else {
            lemma_stream_matches_whole(p, rest);
            assert(p + rest =~= all);
        }
    }
}

/// A decoder fed one byte at a time, for a stream whose bytes arrive as the
/// keys are pressed. It holds the bytes of a key that is not yet whole.
pub struct KeyDecoder {
    pending: Vec<u8>,
}

impl View for KeyDecoder {
    type V = Seq<u8>;

    closed spec fn view(&self) -> Seq<u8> {
        self.pending@
    }
}

impl KeyDecoder {
    /// What is held is the start of an escape sequence, never a whole key.
    pub open spec fn wf(&self) -> bool {
        self@.len() < 3 && (self@.len() > 0 ==> self@[0] == ESCAPE)
    }

    /// A decoder that holds nothing.
    pub fn new() -> (r: KeyDecoder)
        ensures
            r.wf(),
            r@ == Seq::<u8>::empty(),
    {
        KeyDecoder { pending: Vec::new() }
    }

    /// Takes the next byte of the stream. Once the bytes held make a whole
    /// key, returns its event and holds nothing again.
    pub fn feed(&mut self, b: u8) -> (r: Option<Input>)
        requires
            old(self).wf(),
        ensures
            final(self).wf(),
            (r, final(self)@) == feed_spec(old(self)@, b),
            key_complete(old(self)@.push(b)) ==> {
                &&& r == Some(decode_key(old(self)@.push(b))->Some_0.0)
                &&& final(self)@ == Seq::<u8>::empty()
            },
            !key_complete(old(self)@.push(b)) ==> {
                &&& r is None
                &&& final(self)@ == old(self)@.push(b)
            },
    {
        self.pending.push(b);
        let len = self.pending.len();
        if self.pending[0] != ESCAPE || len >= 3 {
            let key = read_key(self.pending.as_slice());
            self.pending = Vec::new();
            match key {
                Some((i, _)) => Some(i),
                None => None,
            }
        } else {
            None
        }
    }

    /// Called when the stream has ended: an escape still held is a key of
    /// its own. Holds nothing afterwards.
    pub fn finish(&mut self) -> (r: Option<Input>)
        requires
            old(self).wf(),
        ensures
            final(self).wf(),
            final(self)@ == Seq::<u8>::empty(),
            old(self)@.len() == 0 ==> r is None,
            old(self)@.len() > 0 ==> r == Some(Input::Control(ESCAPE)),
            old(self)@.len() > 0 ==> r == Some(decode_key(old(self)@)->Some_0.0),
    {
        let len = self.pending.len();
        self.pending = Vec::new();
        if len == 0 {
            None
        } else {
            Some(Input::Control(ESCAPE))
        }
    }
}

} // verus!
