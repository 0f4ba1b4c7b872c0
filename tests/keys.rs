use kilo::key::{ctrl_key, decode_key, EditorKey};

#[test]
fn ctrl_q_is_byte_17() {
    assert_eq!(ctrl_key('q'), '\x11');
    assert_eq!(ctrl_key('a'), '\x01');
}

#[test]
fn decode_delete() {
    assert_eq!(decode_key(&[0x1b, b'[', b'3', b'~']), EditorKey::DelKey);
}

#[test]
fn decode_arrow_up() {
    assert_eq!(decode_key(&[0x1b, b'[', b'A']), EditorKey::ArrowUp);
    assert_eq!(decode_key(&[0x1b, b'[', b'A', 0]), EditorKey::ArrowUp);
}

#[test]
fn decode_o_home() {
    assert_eq!(decode_key(&[0x1b, b'O', b'H']), EditorKey::HomeKey);
    assert_eq!(decode_key(&[0x1b, b'O', b'F']), EditorKey::EndKey);
}

#[test]
fn decode_unmapped_digit_is_escape() {
    assert_eq!(decode_key(&[0x1b, b'[', b'9', b'~']), EditorKey::Char('\x1b'));
}

#[test]
fn decode_letters_after_bracket() {
    assert_eq!(decode_key(&[0x1b, b'[', b'B']), EditorKey::ArrowDown);
    assert_eq!(decode_key(&[0x1b, b'[', b'C']), EditorKey::ArrowRight);
    assert_eq!(decode_key(&[0x1b, b'[', b'D']), EditorKey::ArrowLeft);
    assert_eq!(decode_key(&[0x1b, b'[', b'H']), EditorKey::HomeKey);
    assert_eq!(decode_key(&[0x1b, b'[', b'F']), EditorKey::EndKey);
    assert_eq!(decode_key(&[0x1b, b'[', b'Z']), EditorKey::Char('\x1b'));
}

#[test]
fn decode_tilde_digits() {
    assert_eq!(decode_key(&[0x1b, b'[', b'1', b'~']), EditorKey::HomeKey);
    assert_eq!(decode_key(&[0x1b, b'[', b'7', b'~']), EditorKey::HomeKey);
    assert_eq!(decode_key(&[0x1b, b'[', b'4', b'~']), EditorKey::EndKey);
    assert_eq!(decode_key(&[0x1b, b'[', b'8', b'~']), EditorKey::EndKey);
    assert_eq!(decode_key(&[0x1b, b'[', b'5', b'~']), EditorKey::PageUp);
    assert_eq!(decode_key(&[0x1b, b'[', b'6', b'~']), EditorKey::PageDown);
}

#[test]
fn decode_digit_without_tilde_is_escape() {
    assert_eq!(decode_key(&[0x1b, b'[', b'3']), EditorKey::Char('\x1b'));
    assert_eq!(decode_key(&[0x1b, b'[', b'3', b'x']), EditorKey::Char('\x1b'));
}

#[test]
fn decode_lone_escape_and_other_prefix() {
    assert_eq!(decode_key(&[0x1b]), EditorKey::Char('\x1b'));
    assert_eq!(decode_key(&[0x1b, b'x', b'A']), EditorKey::Char('\x1b'));
    assert_eq!(decode_key(&[0x1b, b'O', b'A']), EditorKey::Char('\x1b'));
}

#[test]
fn decode_literal_characters() {
    assert_eq!(decode_key(&[b'a']), EditorKey::Char('a'));
    assert_eq!(decode_key(&[0x11]), EditorKey::Char('\x11'));
}
