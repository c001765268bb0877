use fanto::editor::{term_config, EditorConfig};
use fanto::keys::Input;
use fanto::render::{draw_rows, key_echo, refresh_screen};

const WELCOME: &str = "Welcome to Fanto editor version 0.1.0";

fn frame_rows(frame: &[u8]) -> Vec<Vec<u8>> {
    let body = &frame[b"\x1b[?25l\x1b[H".len()..];
    let mut rows = Vec::new();
    let mut cur = Vec::new();
    let mut i = 0;
    while i < body.len() {
        if body[i] == b'\r' && body.get(i + 1) == Some(&b'\n') {
            rows.push(cur.clone());
            cur.clear();
            i += 2;
        } else {
            cur.push(body[i]);
            i += 1;
        }
    }
    rows.push(cur);
    rows
}

#[test]
fn banner_on_row_eight_of_twenty_four_filling_eighty_columns() {
    let c = term_config(24, 80).unwrap();
    let frame = draw_rows(&c);
    assert!(frame.starts_with(b"\x1b[?25l\x1b[H"));
    assert!(frame.ends_with(b"\x1b[1;1H\x1b[?25h"));
    let rows = frame_rows(&frame);
    assert_eq!(rows.len(), 24);
    let mut banner = String::from("~");
    banner.push_str(&" ".repeat(20));
    banner.push_str(WELCOME);
    assert_eq!(banner.len(), 58);
    banner.push_str("\x1b[K");
    assert_eq!(rows[8], banner.as_bytes().to_vec());
    for (y, row) in rows.iter().enumerate() {
        if y != 8 && y != 23 {
            assert_eq!(row, &b"~\x1b[K".to_vec());
        }
    }
    assert!(rows[23].starts_with(b"~\x1b[K\x1b[1;1H"));
}

#[test]
fn narrow_window_cuts_banner() {
    let c = term_config(1, 10).unwrap();
    assert_eq!(
        draw_rows(&c),
        b"\x1b[?25l\x1b[HWelcome to\x1b[K\x1b[1;1H\x1b[?25h".to_vec()
    );
}

#[test]
fn cursor_placed_one_based() {
    let c = EditorConfig { rows: 3, cols: 40, cx: 11, cy: 2 };
    let frame = draw_rows(&c);
    let mut expected = b"\x1b[?25l\x1b[H~\x1b[K\r\n".to_vec();
    expected.extend_from_slice(b"~Welcome to Fanto editor version 0.1.0\x1b[K\r\n");
    expected.extend_from_slice(b"~\x1b[K\x1b[3;12H\x1b[?25h");
    assert_eq!(frame, expected);
}

#[test]
fn refresh_clears_and_goes_home() {
    assert_eq!(refresh_screen(), b"\x1b[2J\x1b[H".to_vec());
}

#[test]
fn echo_of_keys() {
    assert_eq!(key_echo(Input::Control(3)), Some(b"3\r\n".to_vec()));
    assert_eq!(key_echo(Input::Control(27)), Some(b"27\r\n".to_vec()));
    assert_eq!(key_echo(Input::Control(0x11)), None);
    assert_eq!(key_echo(Input::Char('a')), Some(b"97 (a)\r\n".to_vec()));
    assert_eq!(
        key_echo(Input::Char('\u{e9}')),
        Some("233 (\u{e9})\r\n".as_bytes().to_vec())
    );
    assert_eq!(key_echo(Input::ArrowUp), None);
}

#[test]
fn echo_of_wide_characters() {
    assert_eq!(key_echo(Input::Char('\u{20ac}')), Some("172 (\u{20ac})\r\n".as_bytes().to_vec()));
    assert_eq!(key_echo(Input::Char('\u{1f600}')), Some("0 (\u{1f600})\r\n".as_bytes().to_vec()));
}
