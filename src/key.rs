use vstd::prelude::*;

verus! {

/// The escape byte that starts every terminal control sequence.
pub const ESC: u8 = 0x1b;

/// A logical key event decoded from the terminal's input bytes.
#[derive(PartialEq, Eq, Structural, Debug, Clone, Copy)]
pub enum EditorKey {
    ArrowLeft,
    ArrowRight,
    ArrowUp,
    ArrowDown,
    DelKey,
    HomeKey,
    EndKey,
    PageUp,
    PageDown,
    Char(char),
}

/// The character that the terminal sends for Ctrl plus the given ASCII key.
pub fn ctrl_key(k: char) -> (r: char)
    ensures
        r as u32 == (k as u32) % 32,
{
    let w: u32 = k as u32;
    let b: u8 = (w % 256) as u8;
    assert(b & 0x1f == b % 32) by (bit_vector);
    assert((w % 256) % 32 == w % 32) by (nonlinear_arith);
    let c: u8 = b & 0x1f;
    c as char
}

/// The byte at position `i` of what was read, or 0 where fewer bytes came.
pub open spec fn byte_at(s: Seq<u8>, i: int) -> u8 {
    if 0 <= i < s.len() {
        s[i]
    } else {
        0
    }
}

/// The key that a sequence `ESC '[' d '~'` stands for, where `d` is a digit.
pub open spec fn tilde_key(d: u8) -> EditorKey {
    if d == 0x31 || d == 0x37 {
        EditorKey::HomeKey
    } else if d == 0x33 {
        EditorKey::DelKey
    } else if d == 0x34 || d == 0x38 {
        EditorKey::EndKey
    } else if d == 0x35 {
        EditorKey::PageUp
    } else if d == 0x36 {
        EditorKey::PageDown
    } else {
        EditorKey::Char('\x1b')
    }
}

/// The key that a sequence `ESC '[' c` stands for, where `c` is a letter.
pub open spec fn bracket_letter_key(c: u8) -> EditorKey {
    if c == 0x41 {
        EditorKey::ArrowUp
    } else if c == 0x42 {
        EditorKey::ArrowDown
    } else if c == 0x43 {
        EditorKey::ArrowRight
    } else if c == 0x44 {
        EditorKey::ArrowLeft
    } else if c == 0x48 {
        EditorKey::HomeKey
    } else if c == 0x46 {
        EditorKey::EndKey
    } else {
        EditorKey::Char('\x1b')
    }
}

/// The key that a sequence `ESC 'O' c` stands for.
pub open spec fn o_letter_key(c: u8) -> EditorKey {
    if c == 0x48 {
        EditorKey::HomeKey
    } else if c == 0x46 {
        EditorKey::EndKey
    } else {
        EditorKey::Char('\x1b')
    }
}

/// The key event that the bytes of one read stand for: a literal character
/// unless they start with the escape byte, and for an escape sequence the
/// navigation key it encodes, or a literal escape where it encodes none.
pub open spec fn decoded(s: Seq<u8>) -> EditorKey {
    let b0 = byte_at(s, 0);
    let b1 = byte_at(s, 1);
    let b2 = byte_at(s, 2);
    let b3 = byte_at(s, 3);
    if b0 != ESC {
        EditorKey::Char(b0 as char)
    } else if b1 == 0x5b {
        if 0x30 <= b2 <= 0x39 {
            if b3 == 0x7e {
                tilde_key(b2)
            } else {
                EditorKey::Char('\x1b')
            }
        } else {
            bracket_letter_key(b2)
        }
    } else if b1 == 0x4f {
        o_letter_key(b2)
    } else {
        EditorKey::Char('\x1b')
    }
}

/// Decodes the bytes of one read from the terminal: one byte, or an escape
/// byte followed by the (up to three) bytes that came with it.
pub fn decode_key(bytes: &[u8]) -> (k: EditorKey)
    requires
        1 <= bytes@.len() <= 4,
    ensures
        k == decoded(bytes@),
{
    let n = bytes.len();
    let b0 = bytes[0];
    let b1 = if n > 1 { bytes[1] } else { 0 };
    let b2 = if n > 2 { bytes[2] } else { 0 };
    let b3 = if n > 3 { bytes[3] } else { 0 };
    if b0 != ESC {
        return EditorKey::Char(b0 as char);
    }
    if b1 == 0x5b {
        if 0x30 <= b2 && b2 <= 0x39 {
            if b3 == 0x7e {
                match b2 {
                    0x31 | 0x37 => EditorKey::HomeKey,
                    0x33 => EditorKey::DelKey,
                    0x34 | 0x38 => EditorKey::EndKey,
                    0x35 => EditorKey::PageUp,
                    0x36 => EditorKey::PageDown,
                    _ => EditorKey::Char('\x1b'),
                }
            } else {
                EditorKey::Char('\x1b')
            }
        } else {
            match b2 {
                0x41 => EditorKey::ArrowUp,
                0x42 => EditorKey::ArrowDown,
                0x43 => EditorKey::ArrowRight,
                0x44 => EditorKey::ArrowLeft,
                0x48 => EditorKey::HomeKey,
                0x46 => EditorKey::EndKey,
                _ => EditorKey::Char('\x1b'),
            }
        }
    } else if b1 == 0x4f {
        match b2 {
            0x48 => EditorKey::HomeKey,
            0x46 => EditorKey::EndKey,
            _ => EditorKey::Char('\x1b'),
        }
    } else {
        EditorKey::Char('\x1b')
    }
}

} // verus!
