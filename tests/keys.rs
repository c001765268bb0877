use fanto::keys::{ctrl, read_key, Input, KeyDecoder};

#[test]
fn ctrl_q_is_0x11() {
    assert_eq!(ctrl('q'), 0x11);
    assert_eq!(ctrl('Q'), 0x11);
    assert_eq!(ctrl('a'), 0x01);
}

#[test]
fn arrow_up_sequence_is_one_event_of_three_bytes() {
    assert_eq!(read_key(&[0x1b, b'[', b'A']), Some((Input::ArrowUp, 3)));
    assert_eq!(read_key(&[0x1b, b'[', b'A', b'x']), Some((Input::ArrowUp, 3)));
}

#[test]
fn each_arrow_sequence() {
    assert_eq!(read_key(&[0x1b, b'[', b'B']), Some((Input::ArrowDown, 3)));
    assert_eq!(read_key(&[0x1b, b'[', b'C']), Some((Input::ArrowRight, 3)));
    assert_eq!(read_key(&[0x1b, b'[', b'D']), Some((Input::ArrowLeft, 3)));
}

#[test]
fn lone_escape_is_a_control_byte() {
    assert_eq!(read_key(&[0x1b]), Some((Input::Control(0x1b), 1)));
    assert_eq!(read_key(&[0x1b, b'[']), Some((Input::Control(0x1b), 2)));
}

#[test]
fn unknown_escape_sequence_gives_first_byte_as_char() {
    assert_eq!(read_key(&[0x1b, b'[', b'Z']), Some((Input::Char('['), 3)));
    assert_eq!(read_key(&[0x1b, b'x', b'y']), Some((Input::Char('x'), 3)));
}

#[test]
fn empty_stream_gives_nothing() {
    assert_eq!(read_key(&[]), None);
}

#[test]
fn plain_and_control_bytes() {
    assert_eq!(read_key(&[b'a', b'b']), Some((Input::Char('a'), 1)));
    assert_eq!(read_key(&[0x11]), Some((Input::Control(0x11), 1)));
    assert_eq!(read_key(&[0x7f]), Some((Input::Control(0x7f), 1)));
    assert_eq!(read_key(&[0x85]), Some((Input::Control(0x85), 1)));
    assert_eq!(read_key(&[0xe9]), Some((Input::Char('\u{e9}'), 1)));
    assert_eq!(read_key(&[b' ']), Some((Input::Char(' '), 1)));
}

#[test]
fn decoder_waits_for_whole_escape_sequence() {
    let mut d = KeyDecoder::new();
    assert_eq!(d.feed(0x1b), None);
    assert_eq!(d.feed(b'['), None);
    assert_eq!(d.feed(b'B'), Some(Input::ArrowDown));
    assert_eq!(d.feed(b'z'), Some(Input::Char('z')));
    assert_eq!(d.feed(0x03), Some(Input::Control(0x03)));
    assert_eq!(d.finish(), None);
}

#[test]
fn decoder_gives_lone_escape_at_end() {
    let mut d = KeyDecoder::new();
    assert_eq!(d.feed(0x1b), None);
    assert_eq!(d.finish(), Some(Input::Control(0x1b)));
    assert_eq!(d.finish(), None);
}

#[test]
fn byte_at_a_time_matches_whole_stream() {
    let stream = [b'h', 0x1b, b'[', b'D', 0x1b, b'x', b'y', 0x0d, 0xe9, 0x1b, b'['];
    let mut whole = Vec::new();
    let mut rest: &[u8] = &stream;
    while let Some((key, n)) = read_key(rest) {
        whole.push(key);
        rest = &rest[n..];
    }
    let mut d = KeyDecoder::new();
    let mut fed = Vec::new();
    for b in stream {
        if let Some(key) = d.feed(b) {
            fed.push(key);
        }
    }
    if let Some(key) = d.finish() {
        fed.push(key);
    }
    assert_eq!(fed, whole);
    assert_eq!(
        whole,
        vec![
            Input::Char('h'),
            Input::ArrowLeft,
            Input::Char('x'),
            Input::Control(0x0d),
            Input::Char('\u{e9}'),
            Input::Control(0x1b),
        ]
    );
}
