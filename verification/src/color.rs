//! Hex colors.
//!
//! A dynamic utility token such as `bg-[#12ab34]` carries an embedded hex
//! color literal.  After an optional leading `#` the first six hex digits
//! are red, green and blue; when exactly eight digits are present the last
//! two are alpha, else the alpha channel defaults to fully opaque and any
//! characters past the sixth are ignored.  A literal with fewer than six
//! digits, or a non-digit among the parsed positions, yields `None`, and
//! the caller treats the token as unrecognized instead of aborting the
//! render.

use crate::chars::str_to_chars;
use vstd::prelude::*;

verus! {

/// One RGBA color, one byte per channel.
#[derive(Clone, Copy, Debug, PartialEq, Eq, Structural)]
pub struct Rgba {
    pub r: u8,
    pub g: u8,
    pub b: u8,
    pub a: u8,
}

/// `c` is an ASCII hex digit.
pub open spec fn is_hex_digit(c: char) -> bool {
    (48 <= c as u32 && c as u32 <= 57)  // '0' ..= '9'
    || (97 <= c as u32 && c as u32 <= 102)  // 'a' ..= 'f'
    || (65 <= c as u32 && c as u32 <= 70)  // 'A' ..= 'F'
}

/// Numeric value of an ASCII hex digit.
pub open spec fn hex_digit_value(c: char) -> int {
    if 48 <= c as u32 && c as u32 <= 57 {
        c as u32 - 48
    } else if 97 <= c as u32 && c as u32 <= 102 {
        c as u32 - 97 + 10
    } else {
        c as u32 - 65 + 10
    }
}

/// The byte encoded by the two hex digits at positions `i`, `i + 1`.
pub open spec fn hex_byte(s: Seq<char>, i: int) -> int {
    16 * hex_digit_value(s[i]) + hex_digit_value(s[i + 1])
}

/// `s` with one leading `#` removed, if present.
pub open spec fn strip_hash(s: Seq<char>) -> Seq<char> {
    if s.len() >= 1 && s[0] == '#' {
        s.skip(1)
    } else {
        s
    }
}

/// Every character of `s` is a hex digit.
pub open spec fn all_hex_digits(s: Seq<char>) -> bool {
    forall|i: int| 0 <= i < s.len() ==> is_hex_digit(s[i])
}

/// The color denoted by a hex literal, or `None` when it is malformed.
/// Red, green and blue come from the first six digits; alpha from digits
/// seven and eight exactly when eight digits are present, else fully
/// opaque, with anything past the sixth position ignored.
pub open spec fn spec_hex_to_rgba(s0: Seq<char>) -> Option<Rgba> {
    let s = strip_hash(s0);
    if s.len() >= 6 && all_hex_digits(s.take(6)) && (s.len() == 8 ==> all_hex_digits(
        s.skip(6),
    )) {
        Some(
            Rgba {
                r: hex_byte(s, 0) as u8,
                g: hex_byte(s, 2) as u8,
                b: hex_byte(s, 4) as u8,
                a: if s.len() == 8 {
                    hex_byte(s, 6) as u8
                } else {
                    255
                },
            },
        )
    } else {
        None
    }
}

fn hex_digit(c: char) -> (r: Option<u8>)
    ensures
        r is Some <==> is_hex_digit(c),
        r matches Some(v) ==> v as int == hex_digit_value(c),
{
    let u = c as u32;
    if 48 <= u && u <= 57 {
        Some((u - 48) as u8)
    } else if 97 <= u && u <= 102 {
        Some((u - 97 + 10) as u8)
    } else if 65 <= u && u <= 70 {
        Some((u - 65 + 10) as u8)
    } else {
        None
    }
}

fn hex_pair_at(v: &Vec<char>, i: usize) -> (r: Option<u8>)
    requires
        i + 2 <= v@.len(),
    ensures
        r is Some <==> (is_hex_digit(v@[i as int]) && is_hex_digit(v@[i as int + 1])),
        r matches Some(x) ==> x as int == hex_byte(v@, i as int),
{
    let n = v.len();
    let hi = hex_digit(v[i]);
    let lo = hex_digit(v[i + 1]);
    match (hi, lo) {
        (Some(h), Some(l)) => Some(16 * h + l),
        _ => None,
    }
}

/// Parses a hex color literal such as `#12ab34` or `12ab34ff`.
pub fn hex_to_rgba(hex: &str) -> (res: Option<Rgba>)
    ensures
        res == spec_hex_to_rgba(hex@),
{
    let chars = str_to_chars(hex);
    hex_chars_to_rgba(&chars)
}

/// Parses a hex color literal given as a character vector.
pub fn hex_chars_to_rgba(chars: &Vec<char>) -> (res: Option<Rgba>)
    ensures
        res == spec_hex_to_rgba(chars@),
{
    let n = chars.len();
    let start: usize = if n >= 1 && chars[0] == '#' {
        1
    } else {
        0
    };
    proof {
        assert(chars@.skip(start as int) =~= strip_hash(chars@));
    }
    let ghost s = strip_hash(chars@);
    let m = n - start;
    if m < 6 {
        return None;
    }
    proof {
        assert(forall|j: int| 0 <= j < s.len() ==> s[j] == chars@[start + j]);
        assert(forall|j: int| 0 <= j < 6 ==> s.take(6)[j] == s[j]);
    }
    let p0 = hex_pair_at(&chars, start);
    let p1 = hex_pair_at(&chars, start + 2);
    let p2 = hex_pair_at(&chars, start + 4);
    match (p0, p1, p2) {
        (Some(r), Some(g), Some(b)) => {
            proof {
                assert(all_hex_digits(s.take(6)));
            }
            if m == 8 {
                proof {
                    assert(forall|j: int| 0 <= j < 2 ==> s.skip(6)[j] == s[6 + j]);
                }
                match hex_pair_at(&chars, start + 6) {
                    Some(a) => {
                        proof {
                            assert(all_hex_digits(s.skip(6)));
                        }
                        Some(Rgba { r, g, b, a })
                    },
                    None => {
                        proof {
                            assert(s.skip(6).len() == 2);
                            if all_hex_digits(s.skip(6)) {
                                assert(is_hex_digit(s.skip(6)[0]));
                                assert(is_hex_digit(s.skip(6)[1]));
                            }
                            assert(!all_hex_digits(s.skip(6)));
                        }
                        None
                    },
                }
            } else {
                Some(Rgba { r, g, b, a: 255 })
            }
        },
        _ => {
            proof {
                assert(!all_hex_digits(s.take(6)));
            }
            None
        },
    }
}

} // verus!
