use kilo::editor::Editor;
use kilo::key::EditorKey;

fn editor_with(lines: &[&str], rows: usize, cols: usize) -> Editor {
    let mut e = Editor::new();
    let reply = format!("\x1b[{};{}R", rows, cols);
    e.get_window_size(reply.as_bytes());
    e.open("test.txt", lines.iter().map(|l| l.to_string()).collect());
    e
}

#[test]
fn new_editor_is_empty_at_origin() {
    let e = Editor::new();
    assert_eq!(e.num_rows(), 0);
    assert_eq!((e.cx(), e.cy(), e.row_off(), e.col_off()), (0, 0, 0, 0));
    assert_eq!((e.screen_rows(), e.screen_cols()), (23, 80));
}

#[test]
fn window_size_reserves_status_line() {
    let mut e = Editor::new();
    e.get_window_size(b"\x1b[24;80R");
    assert_eq!((e.screen_rows(), e.screen_cols()), (23, 80));
    e.get_window_size(b"\x1b[50;132R");
    assert_eq!((e.screen_rows(), e.screen_cols()), (49, 132));
}

#[test]
fn malformed_window_size_is_ignored() {
    let mut e = Editor::new();
    e.get_window_size(b"\x1b[40;100R");
    e.get_window_size(b"garbage");
    e.get_window_size(b"\x1b[;80R");
    e.get_window_size(b"\x1b[24x80R");
    e.get_window_size(b"\x1b[1;80R");
    e.get_window_size(b"");
    assert_eq!((e.screen_rows(), e.screen_cols()), (39, 100));
}

#[test]
fn open_renders_tab_lines() {
    let mut e = editor_with(&["first", "a\tb", "third"], 24, 80);
    assert_eq!(e.num_rows(), 3);
    assert_eq!(e.row(1), "a\tb");
    assert_eq!(e.render(1), "a       b");
    e.move_cursor(EditorKey::ArrowDown);
    e.move_cursor(EditorKey::ArrowRight);
    e.move_cursor(EditorKey::ArrowRight);
    assert_eq!((e.cx(), e.cy()), (2, 1));
    assert_eq!(e.row_cx_to_rx(e.row(1)), 8);
    e.refresh_screen();
    assert_eq!(e.rx(), 8);
}

#[test]
fn arrow_right_wraps_to_next_line() {
    let mut e = editor_with(&["ab", "cde"], 24, 80);
    e.move_cursor(EditorKey::EndKey);
    assert_eq!((e.cx(), e.cy()), (2, 0));
    e.move_cursor(EditorKey::ArrowRight);
    assert_eq!((e.cx(), e.cy()), (0, 1));
    e.move_cursor(EditorKey::ArrowLeft);
    assert_eq!((e.cx(), e.cy()), (2, 0));
}

#[test]
fn arrow_left_wraps_to_previous_line() {
    let mut e = editor_with(&["ab", "cde"], 24, 80);
    e.move_cursor(EditorKey::ArrowDown);
    assert_eq!((e.cx(), e.cy()), (0, 1));
    e.move_cursor(EditorKey::ArrowLeft);
    assert_eq!((e.cx(), e.cy()), (2, 0));
    e.move_cursor(EditorKey::ArrowRight);
    assert_eq!((e.cx(), e.cy()), (0, 1));
}

#[test]
fn arrows_stop_at_buffer_start() {
    let mut e = editor_with(&["ab"], 24, 80);
    e.move_cursor(EditorKey::ArrowLeft);
    e.move_cursor(EditorKey::ArrowUp);
    assert_eq!((e.cx(), e.cy()), (0, 0));
}

#[test]
fn arrow_down_reaches_past_last_line_only() {
    let mut e = editor_with(&["ab", "c"], 24, 80);
    for _ in 0..5 {
        e.move_cursor(EditorKey::ArrowDown);
    }
    assert_eq!(e.cy(), 2);
    e.move_cursor(EditorKey::ArrowRight);
    assert_eq!((e.cx(), e.cy()), (0, 2));
    e.move_cursor(EditorKey::EndKey);
    assert_eq!((e.cx(), e.cy()), (0, 2));
}

#[test]
fn vertical_move_clamps_column() {
    let mut e = editor_with(&["abcdef", "xy", "123456"], 24, 80);
    e.move_cursor(EditorKey::EndKey);
    assert_eq!(e.cx(), 6);
    e.move_cursor(EditorKey::ArrowDown);
    assert_eq!((e.cx(), e.cy()), (2, 1));
    e.move_cursor(EditorKey::ArrowDown);
    assert_eq!((e.cx(), e.cy()), (2, 2));
    e.move_cursor(EditorKey::HomeKey);
    assert_eq!(e.cx(), 0);
}

#[test]
fn delete_and_characters_do_not_move() {
    let mut e = editor_with(&["abc"], 24, 80);
    e.move_cursor(EditorKey::ArrowRight);
    e.move_cursor(EditorKey::DelKey);
    e.move_cursor(EditorKey::Char('z'));
    assert_eq!((e.cx(), e.cy()), (1, 0));
}

#[test]
fn page_down_and_up() {
    let lines: Vec<String> = (0..100).map(|i| format!("line {}", i)).collect();
    let refs: Vec<&str> = lines.iter().map(|s| s.as_str()).collect();
    let mut e = editor_with(&refs, 11, 80);
    e.move_cursor(EditorKey::PageDown);
    assert_eq!(e.cy(), 19);
    e.refresh_screen();
    assert_eq!(e.row_off(), 10);
    e.move_cursor(EditorKey::PageUp);
    assert_eq!(e.cy(), 0);
}

#[test]
fn page_down_stops_past_last_line() {
    let mut e = editor_with(&["a", "b", "c"], 11, 80);
    e.move_cursor(EditorKey::PageDown);
    assert_eq!(e.cy(), 3);
}

#[test]
fn scrolling_follows_arrow_down() {
    let lines: Vec<String> = (0..100).map(|i| format!("{}", i)).collect();
    let refs: Vec<&str> = lines.iter().map(|s| s.as_str()).collect();
    let mut e = editor_with(&refs, 24, 80);
    assert_eq!(e.screen_rows(), 23);
    for _ in 0..50 {
        e.refresh_screen();
        assert!(!e.process_key_press(EditorKey::ArrowDown));
    }
    assert_eq!(e.cy(), 50);
    assert_eq!(e.row_off(), 27);
    e.refresh_screen();
    assert_eq!(e.row_off(), 28);
    assert!(e.row_off() <= e.cy() && e.cy() < e.row_off() + e.screen_rows());
}

#[test]
fn horizontal_scroll_keeps_cursor_visible() {
    let long = "x".repeat(30);
    let mut e = editor_with(&[long.as_str()], 5, 10);
    e.move_cursor(EditorKey::EndKey);
    e.refresh_screen();
    assert_eq!(e.rx(), 30);
    assert_eq!(e.col_off(), 21);
    e.move_cursor(EditorKey::HomeKey);
    e.refresh_screen();
    assert_eq!(e.col_off(), 0);
}

#[test]
fn ctrl_q_quits() {
    let mut e = editor_with(&["abc"], 24, 80);
    assert!(e.process_key_press(EditorKey::Char('\x11')));
    assert!(!e.process_key_press(EditorKey::Char('q')));
    assert!(!e.process_key_press(EditorKey::ArrowRight));
    assert_eq!(e.cx(), 1);
}
