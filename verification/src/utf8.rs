//! UTF-8 validity of byte buffers.
//!
//! The window title crosses the boundary as raw bytes and must be a valid
//! UTF-8 encoding before it may reach the OS window layer. `is_utf8` states
//! validity as a recursive predicate over the byte sequence, one encoded
//! scalar value at a time, and `is_valid_utf8` decides it.

use vstd::prelude::*;

verus! {

/// A UTF-8 continuation byte, of the form `0b10xx_xxxx`.
pub open spec fn is_continuation(b: u8) -> bool {
    0x80 <= b <= 0xBF
}

/// A well-formed two-byte encoding (scalar values U+0080 to U+07FF;
/// first bytes 0xC0 and 0xC1 would be overlong and are excluded).
pub open spec fn valid_two_byte(b0: u8, b1: u8) -> bool {
    &&& 0xC2 <= b0 <= 0xDF
    &&& is_continuation(b1)
}

/// A well-formed three-byte encoding (scalar values U+0800 to U+FFFF,
/// excluding overlong forms under 0xE0 and the surrogate range under 0xED).
pub open spec fn valid_three_byte(b0: u8, b1: u8, b2: u8) -> bool {
    &&& {
        ||| (b0 == 0xE0 && 0xA0 <= b1 <= 0xBF)
        ||| (0xE1 <= b0 <= 0xEC && is_continuation(b1))
        ||| (b0 == 0xED && 0x80 <= b1 <= 0x9F)
        ||| (0xEE <= b0 <= 0xEF && is_continuation(b1))
    }
    &&& is_continuation(b2)
}

/// A well-formed four-byte encoding (scalar values U+10000 to U+10FFFF,
/// excluding overlong forms under 0xF0 and anything past U+10FFFF under 0xF4).
pub open spec fn valid_four_byte(b0: u8, b1: u8, b2: u8, b3: u8) -> bool {
    &&& {
        ||| (b0 == 0xF0 && 0x90 <= b1 <= 0xBF)
        ||| (0xF1 <= b0 <= 0xF3 && is_continuation(b1))
        ||| (b0 == 0xF4 && 0x80 <= b1 <= 0x8F)
    }
    &&& is_continuation(b2)
    &&& is_continuation(b3)
}

/// The bytes of `s` from position `i` on are a sequence of complete,
/// well-formed UTF-8 encodings.
pub open spec fn is_utf8_from(s: Seq<u8>, i: int) -> bool
    decreases s.len() - i
        when 0 <= i <= s.len()
{
    if i == s.len() {
        true
    } else if s[i] <= 0x7F {
        is_utf8_from(s, i + 1)
    } else if i + 2 <= s.len() && valid_two_byte(s[i], s[i + 1]) {
        is_utf8_from(s, i + 2)
    } else if i + 3 <= s.len() && valid_three_byte(s[i], s[i + 1], s[i + 2]) {
        is_utf8_from(s, i + 3)
    } else if i + 4 <= s.len() && valid_four_byte(s[i], s[i + 1], s[i + 2], s[i + 3]) {
        is_utf8_from(s, i + 4)
    } else {
        false
    }
}

/// `s` is a valid UTF-8 encoding of some string.
pub open spec fn is_utf8(s: Seq<u8>) -> bool {
    is_utf8_from(s, 0)
}

/// Decides whether `b` is a continuation byte.
fn is_continuation_byte(b: u8) -> (r: bool)
    ensures
        r == is_continuation(b),
{
    0x80 <= b && b <= 0xBF
}

/// Decides UTF-8 validity of a byte buffer, exactly as `is_utf8` states it.
pub fn is_valid_utf8(bytes: &Vec<u8>) -> (r: bool)
    ensures
        r == is_utf8(bytes@),
{
    let n = bytes.len();
    let mut i: usize = 0;
    while i < n
        invariant
            i <= n,
            n == bytes@.len(),
            is_utf8(bytes@) == is_utf8_from(bytes@, i as int),
        decreases n - i,
    {
        let b0 = bytes[i];
        if b0 <= 0x7F {
            i = i + 1;
        } else if 0xC2 <= b0 && b0 <= 0xDF {
            if n - i >= 2 && is_continuation_byte(bytes[i + 1]) {
                i = i + 2;
            } else {
                return false;
            }
        } else if 0xE0 <= b0 && b0 <= 0xEF {
            if n - i >= 3 {
                let b1 = bytes[i + 1];
                let second_ok = if b0 == 0xE0 {
                    0xA0 <= b1 && b1 <= 0xBF
                } else if b0 == 0xED {
                    0x80 <= b1 && b1 <= 0x9F
                } else {
                    is_continuation_byte(b1)
                };
                if second_ok && is_continuation_byte(bytes[i + 2]) {
                    i = i + 3;
                } else {
                    return false;
                }
            } else {
                return false;
            }
        } else if 0xF0 <= b0 && b0 <= 0xF4 {
            if n - i >= 4 {
                let b1 = bytes[i + 1];
                let second_ok = if b0 == 0xF0 {
                    0x90 <= b1 && b1 <= 0xBF
                } else if b0 == 0xF4 {
                    0x80 <= b1 && b1 <= 0x8F
                } else {
                    is_continuation_byte(b1)
                };
                if second_ok && is_continuation_byte(bytes[i + 2]) && is_continuation_byte(bytes[i + 3]) {
                    i = i + 4;
                } else {
                    return false;
                }
            } else {
                return false;
            }
        } else {
            return false;
        }
    }
    true
}

} // verus!
