//! Building the bytes of one screen frame.
use vstd::prelude::*;

use crate::editor::{EditorConfig, QUIT_BYTE};
use crate::keys::Input;

verus! {

/// `ESC [ ? 2 5 l`: hide the cursor.
pub open spec fn hide_cursor() -> Seq<u8> {
    seq![0x1bu8, 0x5bu8, 0x3fu8, 0x32u8, 0x35u8, 0x6cu8]
}

/// `ESC [ ? 2 5 h`: show the cursor.
pub open spec fn show_cursor() -> Seq<u8> {
    seq![0x1bu8, 0x5bu8, 0x3fu8, 0x32u8, 0x35u8, 0x68u8]
}

/// `ESC [ H`: move the cursor to the top left corner.
pub open spec fn cursor_home() -> Seq<u8> {
    seq![0x1bu8, 0x5bu8, 0x48u8]
}

/// `ESC [ K`: erase to the end of the line.
pub open spec fn erase_line() -> Seq<u8> {
    seq![0x1bu8, 0x5bu8, 0x4bu8]
}

/// `ESC [ 2 J`: erase the whole screen.
pub open spec fn erase_screen() -> Seq<u8> {
    seq![0x1bu8, 0x5bu8, 0x32u8, 0x4au8]
}

/// Carriage return and line feed.
pub open spec fn line_break() -> Seq<u8> {
    seq![0x0du8, 0x0au8]
}

/// The banner shown in the window, "Welcome to Fanto editor version 0.1.0".
pub open spec fn welcome() -> Seq<u8> {
    seq![0x57u8, 0x65u8, 0x6cu8, 0x63u8, 0x6fu8, 0x6du8, 0x65u8, 0x20u8, 0x74u8, 0x6fu8, 0x20u8, 0x46u8, 0x61u8, 0x6eu8, 0x74u8, 0x6fu8, 0x20u8, 0x65u8, 0x64u8, 0x69u8, 0x74u8, 0x6fu8, 0x72u8, 0x20u8, 0x76u8, 0x65u8, 0x72u8, 0x73u8, 0x69u8, 0x6fu8, 0x6eu8, 0x20u8, 0x30u8, 0x2eu8, 0x31u8, 0x2eu8, 0x30u8]
}

/// `n` spaces.
pub open spec fn spaces(n: nat) -> Seq<u8> {
    Seq::new(n, |_k: int| 0x20u8)
}

/// The smaller of two numbers.
pub open spec fn min_nat(a: nat, b: nat) -> nat {
    if a < b { a } else { b }
}

/// How much of the banner fits in `cols` columns.
pub open spec fn banner_len(cols: nat) -> nat {
    min_nat(cols, welcome().len())
}

/// The columns left of the banner when it is centred in `cols` columns.
pub open spec fn banner_padding(cols: nat) -> nat {
    ((cols - banner_len(cols)) as nat) / 2
}

/// The banner row: centred in `cols` columns, with a `~` in the first
/// column and spaces up to the banner when there is room to its left, cut to
/// `cols` when it is wider. The rest of the row is left to the erase that
/// follows it.
pub open spec fn banner_line(cols: nat) -> Seq<u8> {
    let len = banner_len(cols);
    let padding = banner_padding(cols);
    let left = if padding > 0 { seq![0x7eu8] + spaces((padding - 1) as nat) } else { Seq::empty() };
    left + welcome().subrange(0, len as int)
}

/// The banner row never runs past the window: the `~`, the padding and the
/// banner (cut where needed) take `padding + len <= cols` columns, and the
/// `~` comes first whenever there is room left of the banner.
pub proof fn lemma_banner_fits_row(cols: nat)
    ensures
        banner_line(cols).len() == banner_padding(cols) + banner_len(cols),
        banner_padding(cols) + banner_len(cols) <= cols,
        banner_padding(cols) > 0 ==> banner_line(cols)[0] == 0x7eu8,
{
    let len = banner_len(cols);
    let padding = banner_padding(cols);
    assert(padding * 2 <= cols - len);
}

/// The row on which the banner stands in a window of `rows` rows.
pub open spec fn banner_row(rows: nat) -> nat {
    rows / 3
}

/// Row `y` of the window: its text, an erase to the end of the line, and a
/// line break unless it is the last row.
pub open spec fn row_line(c: EditorConfig, y: nat) -> Seq<u8> {
    let text = if y == banner_row(c.rows as nat) { banner_line(c.cols as nat) } else { seq![0x7eu8] };
    let brk = if y + 1 < c.rows { line_break() } else { Seq::empty() };
    text + erase_line() + brk
}

/// The first `n` rows of the window, in order.
pub open spec fn rows_upto(c: EditorConfig, n: nat) -> Seq<u8>
    decreases n,
{
    if n == 0 {
        Seq::empty()
    } else {
        rows_upto(c, (n - 1) as nat) + row_line(c, (n - 1) as nat)
    }
}

/// The decimal digits of `n`, most significant first.
pub open spec fn decimal(n: nat) -> Seq<u8>
    decreases n,
{
    if n < 10 {
        seq![(0x30 + n) as u8]
    } else {
        decimal(n / 10).push((0x30 + n % 10) as u8)
    }
}

/// `ESC [ row ; col H`: move the cursor to the one-based `row` and `col`.
pub open spec fn cursor_to(row: nat, col: nat) -> Seq<u8> {
    seq![0x1bu8, 0x5bu8] + decimal(row) + seq![0x3bu8] + decimal(col) + seq![0x48u8]
}

/// One whole frame: hide the cursor, go home, draw every row, put the
/// cursor where `c` has it, show the cursor.
pub open spec fn frame(c: EditorConfig) -> Seq<u8> {
    hide_cursor() + cursor_home() + rows_upto(c, c.rows as nat) + cursor_to(
        (c.cy + 1) as nat,
        (c.cx + 1) as nat,
    ) + show_cursor()
}

fn append_bytes(buf: &mut Vec<u8>, bytes: Vec<u8>)
    ensures
        final(buf)@ == old(buf)@ + bytes@,
{
    let mut more = bytes;
    buf.append(&mut more);
}

fn append_spaces(buf: &mut Vec<u8>, n: usize)
    ensures
        final(buf)@ == old(buf)@ + spaces(n as nat),
{
    let ghost start = buf@;
    let mut i: usize = 0;
    while i < n
        invariant
            i <= n,
            buf@ == start + spaces(i as nat),
        decreases n - i,
    {
        buf.push(0x20u8);
        i = i + 1;
        assert(buf@ =~= start + spaces(i as nat));
    }
}

fn append_decimal(buf: &mut Vec<u8>, n: u32)
    ensures
        final(buf)@ == old(buf)@ + decimal(n as nat),
    decreases n,
{
    if n >= 10 {
        append_decimal(buf, n / 10);
    }
    let d: u8 = (n % 10) as u8;
    buf.push(0x30u8 + d);
    assert(buf@ =~= old(buf)@ + decimal(n as nat));
}

fn welcome_message() -> (r: Vec<u8>)
    ensures
        r@ == welcome(),
{
    vec![0x57u8, 0x65u8, 0x6cu8, 0x63u8, 0x6fu8, 0x6du8, 0x65u8, 0x20u8, 0x74u8, 0x6fu8, 0x20u8, 0x46u8, 0x61u8, 0x6eu8, 0x74u8, 0x6fu8, 0x20u8, 0x65u8, 0x64u8, 0x69u8, 0x74u8, 0x6fu8, 0x72u8, 0x20u8, 0x76u8, 0x65u8, 0x72u8, 0x73u8, 0x69u8, 0x6fu8, 0x6eu8, 0x20u8, 0x30u8, 0x2eu8, 0x31u8, 0x2eu8, 0x30u8]
}

fn append_banner(buf: &mut Vec<u8>, cols: u16)
    ensures
        final(buf)@ == old(buf)@ + banner_line(cols as nat),
{
    let message = welcome_message();
    let wlen = message.len();
    let len: usize = if (cols as usize) < wlen { cols as usize } else { wlen };
    let padding: usize = (cols as usize - len) / 2;
    let ghost start = buf@;
    if padding > 0 {
        buf.push(0x7eu8);
        append_spaces(buf, padding - 1);
    }
    let ghost left = buf@.subrange(start.len() as int, buf@.len() as int);
    let mut i: usize = 0;
    while i < len
        invariant
            i <= len <= message@.len(),
            message@ == welcome(),
            buf@ == start + left + welcome().subrange(0, i as int),
        decreases len - i,
    {
        buf.push(message[i]);
        i = i + 1;
        assert(buf@ =~= start + left + welcome().subrange(0, i as int));
    }
    assert(buf@ =~= start + banner_line(cols as nat));
}

/// Builds the bytes of one frame for the window and cursor of `conf`, to be
/// written out in one piece.
pub fn draw_rows(conf: &EditorConfig) -> (r: Vec<u8>)
    ensures
        r@ == frame(*conf),
{
    let mut buf: Vec<u8> = Vec::new();
    append_bytes(&mut buf, vec![0x1bu8, 0x5bu8, 0x3fu8, 0x32u8, 0x35u8, 0x6cu8]);
    append_bytes(&mut buf, vec![0x1bu8, 0x5bu8, 0x48u8]);
    let ghost head = buf@;
    let mut y: u16 = 0;
    while y < conf.rows
        invariant
            y <= conf.rows,
            buf@ == head + rows_upto(*conf, y as nat),
        decreases conf.rows - y,
    {
        if y == conf.rows / 3 {
            append_banner(&mut buf, conf.cols);
        } else {
            buf.push(0x7eu8);
        }
        append_bytes(&mut buf, vec![0x1bu8, 0x5bu8, 0x4bu8]);
        if y < conf.rows - 1 {
            append_bytes(&mut buf, vec![0x0du8, 0x0au8]);
        }
        y = y + 1;
        assert(buf@ =~= head + rows_upto(*conf, y as nat));
    }
    append_bytes(&mut buf, vec![0x1bu8, 0x5bu8]);
    append_decimal(&mut buf, conf.cy as u32 + 1);
    buf.push(0x3bu8);
    append_decimal(&mut buf, conf.cx as u32 + 1);
    buf.push(0x48u8);
    append_bytes(&mut buf, vec![0x1bu8, 0x5bu8, 0x3fu8, 0x32u8, 0x35u8, 0x68u8]);
    assert(buf@ =~= frame(*conf));
    buf
}

/// The UTF-8 encoding of `c`.
pub open spec fn utf8(c: char) -> Seq<u8> {
    let v = c as u32 as nat;
    if v < 0x80 {
        seq![v as u8]
    } else if v < 0x800 {
        seq![(0xc0 + v / 64) as u8, (0x80 + v % 64) as u8]
    } else if v < 0x10000 {
        seq![(0xe0 + v / 4096) as u8, (0x80 + (v / 64) % 64) as u8, (0x80 + v % 64) as u8]
    } else {
        seq![
            (0xf0 + v / 262144) as u8,
            (0x80 + (v / 4096) % 64) as u8,
            (0x80 + (v / 64) % 64) as u8,
            (0x80 + v % 64) as u8,
        ]
    }
}

/// The line that reports a key that moves nothing: a control byte as its
/// number, a character as the number of its low byte and then itself in
/// parentheses. Arrows and the quit key are not reported.
pub open spec fn echo_line(i: Input) -> Option<Seq<u8>> {
    match i {
        Input::Control(b) => if b == QUIT_BYTE {
            None
        } else {
            Some(decimal(b as nat) + line_break())
        },
        Input::Char(c) => Some(
            decimal(((c as u32) % 256) as nat) + seq![0x20u8, 0x28u8] + utf8(c) + seq![0x29u8]
                + line_break(),
        ),
        _ => None,
    }
}

fn append_utf8(buf: &mut Vec<u8>, c: char)
    ensures
        final(buf)@ == old(buf)@ + utf8(c),
{
    let v: u32 = c as u32;
    if v < 0x80 {
        buf.push(v as u8);
    } else if v < 0x800 {
        buf.push((0xc0 + v / 64) as u8);
        buf.push((0x80 + v % 64) as u8);
    } else if v < 0x10000 {
        buf.push((0xe0 + v / 4096) as u8);
        buf.push((0x80 + (v / 64) % 64) as u8);
        buf.push((0x80 + v % 64) as u8);
    } else {
        buf.push((0xf0 + v / 262144) as u8);
        buf.push((0x80 + (v / 4096) % 64) as u8);
        buf.push((0x80 + (v / 64) % 64) as u8);
        buf.push((0x80 + v % 64) as u8);
    }
    assert(buf@ =~= old(buf)@ + utf8(c));
}

/// The report line for the key `i`, if it gets one.
pub fn key_echo(i: Input) -> (r: Option<Vec<u8>>)
    ensures
        match r {
            None => echo_line(i) is None,
            Some(v) => echo_line(i) == Some(v@),
        },
{
    let mut buf: Vec<u8> = Vec::new();
    match i {
        Input::Control(b) => {
            if b == QUIT_BYTE {
                return None;
            }
            append_decimal(&mut buf, b as u32);
        },
        Input::Char(c) => {
            append_decimal(&mut buf, (c as u32) % 256);
            buf.push(0x20u8);
            buf.push(0x28u8);
            append_utf8(&mut buf, c);
            buf.push(0x29u8);
        },
        _ => {
            return None;
        },
    }
    buf.push(0x0du8);
    buf.push(0x0au8);
    assert(echo_line(i) == Some(buf@));
    Some(buf)
}

/// The bytes that clear the whole screen and move the cursor home.
pub fn refresh_screen() -> (r: Vec<u8>)
    ensures
        r@ == erase_screen() + cursor_home(),
{
    let r = vec![0x1bu8, 0x5bu8, 0x32u8, 0x4au8, 0x1bu8, 0x5bu8, 0x48u8];
    assert(r@ =~= erase_screen() + cursor_home());
    r
}

} // verus!
