use kilo::editor::Editor;
use kilo::key::EditorKey;
use kilo::winsize::parse_window_size;

#[test]
fn parse_window_size_reply() {
    assert_eq!(parse_window_size(b"\x1b[24;80R"), Some((24, 80)));
    assert_eq!(parse_window_size(b"\x1b[24;80"), None);
    assert_eq!(parse_window_size(b"\x1b[24;R"), None);
    assert_eq!(parse_window_size(b"\x1b[2a;80R"), None);
    assert_eq!(parse_window_size(b"\x1b[99999999999999999999999;80R"), None);
}

#[test]
fn empty_buffer_frame() {
    let mut e = Editor::new();
    e.get_window_size(b"\x1b[4;40R");
    let frame = e.refresh_screen();
    let mut want = String::from("\x1b[?25l\x1b[H");
    want.push_str("~\x1b[K\r\n");
    want.push_str("~     Kilo editor -- version 0.1.0\x1b[K\r\n");
    want.push_str("~\x1b[K\r\n");
    want.push_str("\x1b[7m[No Name] - 0");
    want.push_str(&" ".repeat(24));
    want.push_str("1/0\x1b[m");
    want.push_str("\x1b[1;1H\x1b[?25h");
    assert_eq!(frame, want);
}

#[test]
fn narrow_banner_is_cut() {
    let mut e = Editor::new();
    e.get_window_size(b"\x1b[2;10R");
    let frame = e.refresh_screen();
    assert!(frame.starts_with("\x1b[?25l\x1b[HKilo edito\x1b[K\r\n\x1b[7m[No Name] \x1b[m"));
}

#[test]
fn file_frame_clips_and_places_cursor() {
    let mut e = Editor::new();
    e.get_window_size(b"\x1b[3;6R");
    e.open(
        "a_rather_long_file_name.txt",
        vec![String::from("héllo wörld"), String::from("\tz")],
    );
    for _ in 0..7 {
        e.move_cursor(EditorKey::ArrowRight);
    }
    let frame = e.refresh_screen();
    assert_eq!((e.rx(), e.col_off()), (7, 2));
    let mut want = String::from("\x1b[?25l\x1b[H");
    want.push_str("llo wö\x1b[K\r\n");
    want.push_str("      \x1b[K\r\n");
    want.push_str("\x1b[7ma_rath\x1b[m");
    want.push_str("\x1b[1;6H\x1b[?25h");
    assert_eq!(frame, want);
}

#[test]
fn status_bar_right_part() {
    let mut e = Editor::new();
    e.get_window_size(b"\x1b[2;30R");
    e.open("f.txt", vec![String::from("x")]);
    let frame = e.refresh_screen();
    let bar = format!("\x1b[7mf.txt - 1{}1/1\x1b[m", " ".repeat(30 - 9 - 3));
    assert!(frame.contains(&bar));
}
