//! Length literals.
//!
//! A dynamic utility token such as `rounded-4px` or `border-2.5rem` embeds a
//! length: a maximal leading numeric substring (decimal digits with at most
//! one decimal point) followed by a unit, `px` or `rem`.  Magnitudes are
//! carried in integer thousandths of a unit; fraction digits beyond the
//! third are ignored, and integer parts above 10^15 are clamped to 10^15.
//! A missing numeric part or an unrecognized unit yields zero pixels.

use crate::chars::{chars_from, str_to_chars};
use vstd::prelude::*;

verus! {

/// An absolute length: device pixels or root-relative ems, in thousandths.
#[derive(Clone, Copy, Debug, PartialEq, Eq, Structural)]
pub enum AbsoluteLength {
    /// Thousandths of a device pixel.
    Pixels(u64),
    /// Thousandths of a rem.
    Rems(u64),
}

/// `c` is an ASCII decimal digit.
pub open spec fn is_digit(c: char) -> bool {
    48 <= c as u32 && c as u32 <= 57
}

/// Numeric value of an ASCII decimal digit.
pub open spec fn digit_val(c: char) -> int {
    c as u32 - 48
}

/// Length of the maximal leading numeric substring of `s`: decimal digits
/// and, unless one was already seen, a decimal point.
pub open spec fn numeric_len(s: Seq<char>, seen_dot: bool) -> int
    decreases s.len(),
{
    if s.len() == 0 {
        0
    } else if is_digit(s[0]) {
        1 + numeric_len(s.skip(1), seen_dot)
    } else if s[0] == '.' && !seen_dot {
        1 + numeric_len(s.skip(1), true)
    } else {
        0
    }
}

/// Index of the first decimal point of `s`, or `s.len()` if there is none.
pub open spec fn first_dot(s: Seq<char>) -> int
    decreases s.len(),
{
    if s.len() == 0 {
        0
    } else if s[0] == '.' {
        0
    } else {
        1 + first_dot(s.skip(1))
    }
}

/// `s` holds at least one decimal digit.
pub open spec fn has_digit(s: Seq<char>) -> bool {
    exists|i: int| 0 <= i < s.len() && is_digit(s[i])
}

/// Value of a string of decimal digits, most significant first.
pub open spec fn int_val(s: Seq<char>) -> int
    decreases s.len(),
{
    if s.len() == 0 {
        0
    } else {
        10 * int_val(s.drop_last()) + digit_val(s.last())
    }
}

/// Thousandths contributed by the fraction digits (the first three count).
pub open spec fn frac_milli(s: Seq<char>) -> int {
    (if s.len() >= 1 {
        100 * digit_val(s[0])
    } else {
        0
    }) + (if s.len() >= 2 {
        10 * digit_val(s[1])
    } else {
        0
    }) + (if s.len() >= 3 {
        digit_val(s[2])
    } else {
        0
    })
}

/// The magnitude of a numeric substring `t`, in thousandths; the integer
/// part is clamped to 10^15.
pub open spec fn spec_magnitude_milli(t: Seq<char>) -> int {
    let d = first_dot(t);
    let ip = t.take(d);
    let fp = if d < t.len() {
        t.skip(d + 1)
    } else {
        Seq::<char>::empty()
    };
    (if int_val(ip) > 1000000000000000 {
        1000000000000000int
    } else {
        int_val(ip)
    }) * 1000 + frac_milli(fp)
}

/// The length denoted by a class-name suffix: leading numeric substring as
/// the magnitude, the rest as the unit.  No digits, or a unit other than
/// `px` or `rem`, yields zero pixels.
pub open spec fn spec_extract_length(s: Seq<char>) -> AbsoluteLength {
    let k = numeric_len(s, false);
    let t = s.take(k);
    let u = s.skip(k);
    if !has_digit(t) {
        AbsoluteLength::Pixels(0)
    } else if u == "px"@ {
        AbsoluteLength::Pixels(spec_magnitude_milli(t) as u64)
    } else if u == "rem"@ {
        AbsoluteLength::Rems(spec_magnitude_milli(t) as u64)
    } else {
        AbsoluteLength::Pixels(0)
    }
}

proof fn lemma_int_val_nonneg(s: Seq<char>)
    requires
        forall|i: int| 0 <= i < s.len() ==> is_digit(s[i]),
    ensures
        int_val(s) >= 0,
    decreases s.len(),
{
    if s.len() != 0 {
        lemma_int_val_nonneg(s.drop_last());
    }
}

fn is_digit_exec(c: char) -> (b: bool)
    ensures
        b == is_digit(c),
{
    let u = c as u32;
    48 <= u && u <= 57
}

fn digit_val_exec(c: char) -> (v: u64)
    requires
        is_digit(c),
    ensures
        v as int == digit_val(c),
{
    (c as u32 - 48) as u64
}

/// Parses the numeric-plus-unit suffix of a dynamic utility token into an
/// absolute length.
pub fn extract_length_from_class_name(class_name: &str) -> (r: AbsoluteLength)
    ensures
        r == spec_extract_length(class_name@),
{
    let chars = str_to_chars(class_name);
    extract_length_chars(&chars)
}

/// Parses a length suffix given as a character vector.
#[verifier::rlimit(60)]
pub fn extract_length_chars(chars: &Vec<char>) -> (r: AbsoluteLength)
    ensures
        r == spec_extract_length(chars@),
{
    let ghost s = chars@;
    let n = chars.len();

    // Scan the maximal leading numeric substring.
    let mut k: usize = 0;
    let mut seen_dot: bool = false;
    let mut saw_digit: bool = false;
    proof {
        assert(s.skip(0) =~= s);
    }
    while k < n && (is_digit_exec(chars[k]) || (chars[k] == '.' && !seen_dot))
        invariant
            0 <= k <= n,
            n == s.len(),
            chars@ == s,
            numeric_len(s, false) == k + numeric_len(s.skip(k as int), seen_dot),
            forall|j: int| 0 <= j < k ==> (is_digit(s[j]) || s[j] == '.'),
            seen_dot == exists|j: int| 0 <= j < k && s[j] == '.',
            forall|j1: int, j2: int|
                0 <= j1 < j2 < k ==> !(s[j1] == '.' && s[j2] == '.'),
            saw_digit == exists|j: int| 0 <= j < k && is_digit(s[j]),
        decreases n - k,
    {
        let c = chars[k];
        proof {
            assert(s.skip(k as int)[0] == s[k as int]);
            assert(s.skip(k as int).skip(1) =~= s.skip(k as int + 1));
        }
        if is_digit_exec(c) {
            saw_digit = true;
        } else {
            seen_dot = true;
        }
        k = k + 1;
    }
    proof {
        if k < n {
            assert(s.skip(k as int)[0] == s[k as int]);
        }
        assert(numeric_len(s.skip(k as int), seen_dot) == 0);
        assert(k as int == numeric_len(s, false));
    }
    let ghost t = s.take(k as int);
    proof {
        assert(forall|j: int| 0 <= j < k ==> t[j] == s[j]);
    }

    if !saw_digit {
        proof {
            assert(!has_digit(t));
        }
        return AbsoluteLength::Pixels(0);
    }
    proof {
        let j = choose|j: int| 0 <= j < k && is_digit(s[j]);
        assert(is_digit(t[j]));
        assert(has_digit(t));
    }

    // Find the decimal point, if any.
    let mut d: usize = 0;
    proof {
        assert(t.skip(0) =~= t);
    }
    while d < k && chars[d] != '.'
        invariant
            0 <= d <= k <= n,
            n == s.len(),
            chars@ == s,
            t == s.take(k as int),
            first_dot(t) == d + first_dot(t.skip(d as int)),
            forall|i: int| 0 <= i < d ==> s[i] != '.',
        decreases k - d,
    {
        proof {
            assert(t.skip(d as int)[0] == t[d as int]);
            assert(t.skip(d as int).skip(1) =~= t.skip(d as int + 1));
        }
        d = d + 1;
    }
    proof {
        if d < k {
            assert(t.skip(d as int)[0] == t[d as int]);
            assert(first_dot(t.skip(d as int)) == 0);
        }
        assert(d as int == first_dot(t));
    }
    let ghost ip = t.take(d as int);
    proof {
        assert(forall|i: int| 0 <= i < d ==> ip[i] == s[i]);
        assert(forall|i: int| 0 <= i < d ==> is_digit(ip[i]));
    }

    // Integer part, clamped to 10^15.
    let mut acc: u64 = 0;
    let mut j: usize = 0;
    while j < d
        invariant
            0 <= j <= d <= k <= n,
            n == s.len(),
            chars@ == s,
            t == s.take(k as int),
            ip == t.take(d as int),
            forall|i: int| 0 <= i < d ==> (ip[i] == s[i] && is_digit(ip[i])),
            acc <= 1000000000000000,
            acc as int == (if int_val(ip.take(j as int)) > 1000000000000000 {
                1000000000000000int
            } else {
                int_val(ip.take(j as int))
            }),
        decreases d - j,
    {
        let dv = digit_val_exec(chars[j]);
        proof {
            assert(ip.take(j as int + 1).drop_last() =~= ip.take(j as int));
            assert(ip.take(j as int + 1).last() == ip[j as int]);
            assert(ip[j as int] == s[j as int]);
            lemma_int_val_nonneg(ip.take(j as int));
            let a = int_val(ip.take(j as int));
            if a > 1000000000000000 {
                assert(10 * a + digit_val(ip[j as int]) > 1000000000000000);
            }
        }
        let step = acc * 10 + dv;
        if step > 1000000000000000 {
            acc = 1000000000000000;
        } else {
            acc = step;
        }
        j = j + 1;
    }
    proof {
        assert(ip.take(d as int) =~= ip);
    }

    // Fraction part: the first three digits after the point.
    let mut frac: u64 = 0;
    let ghost fp = if (d as int) < t.len() {
        t.skip(d as int + 1)
    } else {
        Seq::<char>::empty()
    };
    proof {
        if (d as int) < t.len() {
            assert(forall|i: int|
                0 <= i < fp.len() ==> (fp[i] == s[d + 1 + i] && s[d + 1 + i] != '.'));
            assert(forall|i: int| 0 <= i < fp.len() ==> is_digit(fp[i]));
        }
    }
    if d < k {
        if k - d > 1 {
            frac = frac + 100 * digit_val_exec(chars[d + 1]);
        }
        if k - d > 2 {
            frac = frac + 10 * digit_val_exec(chars[d + 2]);
        }
        if k - d > 3 {
            frac = frac + digit_val_exec(chars[d + 3]);
        }
    }
    proof {
        assert(frac as int == frac_milli(fp));
        assert(acc as int * 1000 + frac as int == spec_magnitude_milli(t));
    }
    let magnitude = acc * 1000 + frac;

    // Unit.
    let unit = chars_from(&chars, k);
    proof {
        assert(unit@ == s.skip(k as int));
    }
    if crate::chars::token_eq(&unit, "px") {
        AbsoluteLength::Pixels(magnitude)
    } else if crate::chars::token_eq(&unit, "rem") {
        AbsoluteLength::Rems(magnitude)
    } else {
        AbsoluteLength::Pixels(0)
    }
}

} // verus!
