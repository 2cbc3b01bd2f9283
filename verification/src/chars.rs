//! Character-level helpers shared by the parsing and styling code.
//!
//! Class tokens, attribute names and element names are manipulated as
//! `Vec<char>`, whose view is the same `Seq<char>` as the view of the
//! `String` they came from; that keeps every contract in one vocabulary.

use vstd::prelude::*;

verus! {

/// Collects the characters of a string slice into a vector.
pub fn str_to_chars(s: &str) -> (v: Vec<char>)
    ensures
        v@ == s@,
{
    let n = s.unicode_len();
    let mut v: Vec<char> = Vec::new();
    let mut i: usize = 0;
    while i < n
        invariant
            i <= n,
            n == s@.len(),
            v@ == s@.take(i as int),
        decreases n - i,
    {
        v.push(s.get_char(i));
        i = i + 1;
        proof {
            assert(v@ =~= s@.take(i as int));
        }
    }
    proof {
        assert(s@.take(n as int) =~= s@);
    }
    v
}

/// Relies on std's `FromIterator<char> for String`: collecting characters
/// yields the string of exactly those characters, in order.
#[verifier::external_body]
pub fn chars_to_string(v: &Vec<char>) -> (s: String)
    ensures
        s@ == v@,
{
    v.iter().collect()
}

/// Compares a character vector against a string slice, character by character.
pub fn token_eq(t: &Vec<char>, lit: &str) -> (b: bool)
    ensures
        b == (t@ == lit@),
{
    let n = lit.unicode_len();
    if t.len() != n {
        proof {
            if t@ == lit@ {
                assert(t@.len() == lit@.len());
            }
        }
        return false;
    }
    let mut i: usize = 0;
    while i < n
        invariant
            i <= n,
            t@.len() == n,
            n == lit@.len(),
            forall|j: int| 0 <= j < i ==> t@[j] == lit@[j],
        decreases n - i,
    {
        if t[i] != lit.get_char(i) {
            return false;
        }
        i = i + 1;
    }
    proof {
        assert(t@ =~= lit@);
    }
    true
}

/// Whether `lit` is a strict prefix-or-whole of `t`.
pub fn has_prefix(t: &Vec<char>, lit: &str) -> (b: bool)
    ensures
        b == spec_has_prefix(t@, lit@),
{
    let n = lit.unicode_len();
    if t.len() < n {
        return false;
    }
    let mut i: usize = 0;
    while i < n
        invariant
            i <= n,
            n <= t@.len(),
            n == lit@.len(),
            forall|j: int| 0 <= j < i ==> t@[j] == lit@[j],
        decreases n - i,
    {
        if t[i] != lit.get_char(i) {
            return false;
        }
        i = i + 1;
    }
    proof {
        assert(t@.take(n as int) =~= lit@);
    }
    true
}

/// `pre` is an initial segment of `s`.
pub open spec fn spec_has_prefix(s: Seq<char>, pre: Seq<char>) -> bool {
    pre.len() <= s.len() && s.take(pre.len() as int) == pre
}

/// The sub-vector of `t` from index `from` to the end.
pub fn chars_from(t: &Vec<char>, from: usize) -> (r: Vec<char>)
    requires
        from <= t@.len(),
    ensures
        r@ == t@.skip(from as int),
{
    let mut r: Vec<char> = Vec::new();
    let mut i: usize = from;
    while i < t.len()
        invariant
            from <= i <= t@.len(),
            r@ == t@.subrange(from as int, i as int),
        decreases t@.len() - i,
    {
        r.push(t[i]);
        i = i + 1;
        proof {
            assert(r@ =~= t@.subrange(from as int, i as int));
        }
    }
    proof {
        assert(t@.subrange(from as int, t@.len() as int) =~= t@.skip(from as int));
    }
    r
}

/// Compares two string slices character by character.
pub fn str_eq(a: &str, b: &str) -> (r: bool)
    ensures
        r == (a@ == b@),
{
    let n = a.unicode_len();
    if b.unicode_len() != n {
        proof {
            if a@ == b@ {
                assert(a@.len() == b@.len());
            }
        }
        return false;
    }
    let mut i: usize = 0;
    while i < n
        invariant
            i <= n,
            n == a@.len(),
            n == b@.len(),
            forall|j: int| 0 <= j < i ==> a@[j] == b@[j],
        decreases n - i,
    {
        if a.get_char(i) != b.get_char(i) {
            return false;
        }
        i = i + 1;
    }
    proof {
        assert(a@ =~= b@);
    }
    true
}

/// The sub-vector of `t` from `from` (inclusive) to `to` (exclusive).
pub fn chars_range(t: &Vec<char>, from: usize, to: usize) -> (r: Vec<char>)
    requires
        from <= to <= t@.len(),
    ensures
        r@ == t@.subrange(from as int, to as int),
{
    let mut r: Vec<char> = Vec::new();
    let mut i: usize = from;
    while i < to
        invariant
            from <= i <= to <= t@.len(),
            r@ == t@.subrange(from as int, i as int),
        decreases to - i,
    {
        r.push(t[i]);
        i = i + 1;
        proof {
            assert(r@ =~= t@.subrange(from as int, i as int));
        }
    }
    r
}

/// Whitespace for splitting a `class` attribute value: the Unicode
/// `White_Space` characters.
pub open spec fn is_ws(c: char) -> bool {
    (9 <= c as u32 && c as u32 <= 13) || c as u32 == 32 || c as u32 == 0x85 || c as u32 == 0xA0
        || c as u32 == 0x1680 || (0x2000 <= c as u32 && c as u32 <= 0x200A) || c as u32 == 0x2028
        || c as u32 == 0x2029 || c as u32 == 0x202F || c as u32 == 0x205F || c as u32 == 0x3000
}

fn is_ws_exec(c: char) -> (b: bool)
    ensures
        b == is_ws(c),
{
    let u = c as u32;
    (9 <= u && u <= 13) || u == 32 || u == 0x85 || u == 0xA0 || u == 0x1680 || (0x2000 <= u && u
        <= 0x200A) || u == 0x2028 || u == 0x2029 || u == 0x202F || u == 0x205F || u == 0x3000
}

/// The whitespace-separated tokens of `s`, in order, without empties.
pub open spec fn spec_split_ws(s: Seq<char>) -> Seq<Seq<char>>
    decreases s.len(),
{
    if s.len() == 0 {
        Seq::empty()
    } else {
        let rest = spec_split_ws(s.skip(1));
        if is_ws(s[0]) {
            rest
        } else if s.len() >= 2 && !is_ws(s[1]) {
            seq![seq![s[0]] + rest[0]] + rest.skip(1)
        } else {
            seq![seq![s[0]]] + rest
        }
    }
}

/// A maximal run of `m` non-whitespace characters at the front of `u` is the
/// first token of the split.
proof fn lemma_split_ws_token(u: Seq<char>, m: int)
    requires
        1 <= m <= u.len(),
        forall|i: int| 0 <= i < m ==> !is_ws(u[i]),
        m < u.len() ==> is_ws(u[m]),
    ensures
        spec_split_ws(u) == seq![u.take(m)] + spec_split_ws(u.skip(m)),
    decreases m,
{
    if m == 1 {
        assert(spec_split_ws(u) == seq![seq![u[0]]] + spec_split_ws(u.skip(1)));
        assert(u.take(1) =~= seq![u[0]]);
    } else {
        assert(u.skip(1)[0] == u[1]);
        lemma_split_ws_token(u.skip(1), m - 1);
        assert(u.skip(1).take(m - 1) =~= u.take(m).skip(1));
        assert(u.skip(1).skip(m - 1) =~= u.skip(m));
        let rest = spec_split_ws(u.skip(1));
        assert(rest[0] == u.skip(1).take(m - 1));
        assert(seq![u[0]] + rest[0] =~= u.take(m));
        assert(rest.skip(1) == spec_split_ws(u.skip(m)));
        assert(seq![seq![u[0]] + rest[0]] + rest.skip(1) =~= seq![u.take(m)] + spec_split_ws(
            u.skip(m),
        ));
    }
}

/// The views of a sequence of character vectors.
pub open spec fn seq_views(ts: Seq<Vec<char>>) -> Seq<Seq<char>> {
    ts.map_values(|t: Vec<char>| t@)
}

/// Splits `v` at whitespace into its non-empty tokens, in order.
pub fn split_ws(v: &Vec<char>) -> (r: Vec<Vec<char>>)
    ensures
        seq_views(r@) == spec_split_ws(v@),
{
    let ghost s = v@;
    let n = v.len();
    let mut r: Vec<Vec<char>> = Vec::new();
    let mut i: usize = 0;
    proof {
        assert(s.skip(0) =~= s);
    }
    while i < n
        invariant
            0 <= i <= n,
            n == s.len(),
            v@ == s,
            spec_split_ws(s) == seq_views(r@) + spec_split_ws(s.skip(i as int)),
        decreases n - i,
    {
        if is_ws_exec(v[i]) {
            proof {
                assert(s.skip(i as int)[0] == s[i as int]);
                assert(s.skip(i as int).skip(1) =~= s.skip(i as int + 1));
            }
            i = i + 1;
        } else {
            let start = i;
            let mut j = i;
            while j < n && !is_ws_exec(v[j])
                invariant
                    start <= j <= n,
                    n == s.len(),
                    v@ == s,
                    forall|q: int| start <= q < j ==> !is_ws(s[q]),
                decreases n - j,
            {
                j = j + 1;
            }
            let tok = chars_range(v, start, j);
            proof {
                let u = s.skip(start as int);
                assert(forall|q: int| 0 <= q < j - start ==> u[q] == s[start + q]);
                if j < n {
                    assert(u[j - start] == s[j as int]);
                }
                lemma_split_ws_token(u, j - start);
                assert(u.take(j - start) =~= s.subrange(start as int, j as int));
                assert(u.skip(j - start) =~= s.skip(j as int));
            }
            r.push(tok);
            proof {
                assert(seq_views(r@) =~= seq_views(r@.drop_last()) + seq![tok@]);
            }
            i = j;
        }
    }
    proof {
        assert(spec_split_ws(s.skip(n as int)) =~= Seq::<Seq<char>>::empty());
        assert(seq_views(r@) + spec_split_ws(s.skip(n as int)) =~= seq_views(r@));
    }
    r
}

/// ASCII lower-casing of one character; everything else is untouched.
pub open spec fn spec_lower_char(c: char) -> char {
    match c {
        'A' => 'a',
        'B' => 'b',
        'C' => 'c',
        'D' => 'd',
        'E' => 'e',
        'F' => 'f',
        'G' => 'g',
        'H' => 'h',
        'I' => 'i',
        'J' => 'j',
        'K' => 'k',
        'L' => 'l',
        'M' => 'm',
        'N' => 'n',
        'O' => 'o',
        'P' => 'p',
        'Q' => 'q',
        'R' => 'r',
        'S' => 's',
        'T' => 't',
        'U' => 'u',
        'V' => 'v',
        'W' => 'w',
        'X' => 'x',
        'Y' => 'y',
        'Z' => 'z',
        _ => c,
    }
}

/// ASCII lower-casing of a character sequence.
pub open spec fn spec_lower(s: Seq<char>) -> Seq<char> {
    s.map_values(|c: char| spec_lower_char(c))
}

fn lower_char(c: char) -> (r: char)
    ensures
        r == spec_lower_char(c),
{
    match c {
        'A' => 'a',
        'B' => 'b',
        'C' => 'c',
        'D' => 'd',
        'E' => 'e',
        'F' => 'f',
        'G' => 'g',
        'H' => 'h',
        'I' => 'i',
        'J' => 'j',
        'K' => 'k',
        'L' => 'l',
        'M' => 'm',
        'N' => 'n',
        'O' => 'o',
        'P' => 'p',
        'Q' => 'q',
        'R' => 'r',
        'S' => 's',
        'T' => 't',
        'U' => 'u',
        'V' => 'v',
        'W' => 'w',
        'X' => 'x',
        'Y' => 'y',
        'Z' => 'z',
        _ => c,
    }
}

/// ASCII lower-casing of a whole string.
pub fn lower_string(s: &str) -> (r: String)
    ensures
        r@ == spec_lower(s@),
{
    let chars = str_to_chars(s);
    let mut out: Vec<char> = Vec::new();
    let mut i: usize = 0;
    while i < chars.len()
        invariant
            i <= chars@.len(),
            chars@ == s@,
            out@ == spec_lower(s@.take(i as int)),
        decreases chars@.len() - i,
    {
        out.push(lower_char(chars[i]));
        i = i + 1;
        proof {
            assert(out@ =~= spec_lower(s@.take(i as int)));
        }
    }
    proof {
        assert(spec_lower(s@.take(s@.len() as int)) =~= spec_lower(s@));
    }
    chars_to_string(&out)
}

} // verus!
