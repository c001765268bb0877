use fanto::editor::{process_key, run_session, term_config, ControlSignal, EditorConfig};
use fanto::error::EditorError;
use fanto::keys::{read_key, Input};

fn config(rows: u16, cols: u16) -> EditorConfig {
    term_config(rows, cols).unwrap()
}

#[test]
fn zero_sized_window_is_refused() {
    assert_eq!(term_config(0, 80), Err(EditorError::GeometryUnavailable));
    assert_eq!(term_config(24, 0), Err(EditorError::GeometryUnavailable));
    assert_eq!(
        term_config(24, 80),
        Ok(EditorConfig { rows: 24, cols: 80, cx: 0, cy: 0 })
    );
}

#[test]
fn quit_byte_gives_quit() {
    let mut c = config(24, 80);
    let (key, _) = read_key(&[0x11]).unwrap();
    assert_eq!(process_key(key, &mut c), ControlSignal::Quit);
    assert_eq!(c, config(24, 80));
}

#[test]
fn other_keys_continue_without_moving() {
    let mut c = config(24, 80);
    assert_eq!(process_key(Input::Control(0x03), &mut c), ControlSignal::Continue);
    assert_eq!(process_key(Input::Char('x'), &mut c), ControlSignal::Continue);
    assert_eq!((c.cx, c.cy), (0, 0));
}

#[test]
fn arrows_move_one_step() {
    let mut c = config(24, 80);
    process_key(Input::ArrowDown, &mut c);
    process_key(Input::ArrowRight, &mut c);
    process_key(Input::ArrowRight, &mut c);
    assert_eq!((c.cx, c.cy), (2, 1));
    process_key(Input::ArrowLeft, &mut c);
    process_key(Input::ArrowUp, &mut c);
    assert_eq!((c.cx, c.cy), (1, 0));
}

#[test]
fn arrow_up_at_top_stays_at_top() {
    let mut c = config(5, 5);
    for _ in 0..10 {
        assert_eq!(process_key(Input::ArrowUp, &mut c), ControlSignal::Continue);
        assert_eq!(c.cy, 0);
    }
    for _ in 0..10 {
        process_key(Input::ArrowLeft, &mut c);
        assert_eq!(c.cx, 0);
    }
}

#[test]
fn cursor_clamped_at_far_edges() {
    let mut c = config(3, 4);
    for _ in 0..10 {
        process_key(Input::ArrowDown, &mut c);
        process_key(Input::ArrowRight, &mut c);
        assert!(c.cy < 3 && c.cx < 4);
    }
    assert_eq!((c.cx, c.cy), (3, 2));
}

#[test]
fn one_by_one_window_never_moves() {
    let mut c = config(1, 1);
    for k in [Input::ArrowUp, Input::ArrowDown, Input::ArrowLeft, Input::ArrowRight] {
        process_key(k, &mut c);
        assert_eq!((c.cx, c.cy), (0, 0));
    }
}

#[test]
fn down_down_quit_session() {
    let mut c = config(10, 80);
    let bytes = [0x1b, b'[', b'B', 0x1b, b'[', b'B', 0x11];
    assert_eq!(run_session(&mut c, &bytes), (ControlSignal::Quit, 7));
    assert_eq!((c.cx, c.cy), (0, 2));
}

#[test]
fn session_stops_at_quit_and_at_end() {
    let mut c = config(10, 80);
    let bytes = [0x1b, b'[', b'C', 0x11, 0x1b, b'[', b'C'];
    assert_eq!(run_session(&mut c, &bytes), (ControlSignal::Quit, 4));
    assert_eq!((c.cx, c.cy), (1, 0));
    let mut d = config(10, 80);
    assert_eq!(run_session(&mut d, &[b'a', 0x1b, b'[', b'C', 0x1b]), (ControlSignal::Continue, 5));
    assert_eq!((d.cx, d.cy), (1, 0));
}
