//! Small verified text utilities: decimal parsing and formatting,
//! prefix/substring tests, splitting and token replacement.
//!
//! Everything here works on `&str` / `String` values viewed as `Seq<char>`.

use vstd::prelude::*;
use vstd::string::StrSliceExecFns;
use vstd::string::StringExecFns;

verus! {

/// Relies on `String::push`: appends exactly the given character.
#[verifier::external_body]
pub fn push_char(s: &mut String, c: char)
    ensures
        final(s)@ == old(s)@.push(c),
{
    s.push(c);
}

pub open spec fn is_digit_char(c: char) -> bool {
    '0' <= c && c <= '9'
}

/// Numeric value of a decimal digit character.
pub open spec fn digit_val(c: char) -> nat {
    ((c as u32) - ('0' as u32)) as nat
}

/// The decimal digit character for a value below ten.
pub open spec fn digit_char(d: nat) -> char {
    if d == 0 {
        '0'
    } else if d == 1 {
        '1'
    } else if d == 2 {
        '2'
    } else if d == 3 {
        '3'
    } else if d == 4 {
        '4'
    } else if d == 5 {
        '5'
    } else if d == 6 {
        '6'
    } else if d == 7 {
        '7'
    } else if d == 8 {
        '8'
    } else {
        '9'
    }
}

fn digit_char_of(d: u32) -> (c: char)
    requires
        d < 10,
    ensures
        c == digit_char(d as nat),
{
    match d {
        0 => '0',
        1 => '1',
        2 => '2',
        3 => '3',
        4 => '4',
        5 => '5',
        6 => '6',
        7 => '7',
        8 => '8',
        _ => '9',
    }
}

pub open spec fn all_digits(s: Seq<char>) -> bool {
    forall|i: int| 0 <= i < s.len() ==> is_digit_char(s[i])
}

/// Value of a digit string, most significant digit first.
pub open spec fn digits_value(s: Seq<char>) -> nat
    decreases s.len(),
{
    if s.len() == 0 {
        0
    } else {
        digits_value(s.drop_last()) * 10 + digit_val(s.last())
    }
}

/// What a decimal parse of the whole string yields: defined exactly on
/// non-empty all-digit strings whose value fits in a `u32`.
pub open spec fn spec_parse_u32(s: Seq<char>) -> Option<u32> {
    if s.len() > 0 && all_digits(s) && digits_value(s) <= u32::MAX {
        Some(digits_value(s) as u32)
    } else {
        None
    }
}

proof fn lemma_digits_value_prefix_le(s: Seq<char>, i: int)
    requires
        0 <= i <= s.len(),
    ensures
        digits_value(s.take(i)) <= digits_value(s),
    decreases s.len() - i,
{
    if i < s.len() {
        lemma_digits_value_prefix_le(s, i + 1);
        assert(s.take(i + 1).drop_last() =~= s.take(i));
        assert(digits_value(s.take(i + 1)) == digits_value(s.take(i)) * 10 + digit_val(
            s.take(i + 1).last(),
        ));
    } else {
        assert(s.take(i) =~= s);
    }
}

/// Parse the whole string as a decimal `u32`; `None` on an empty string, a
/// non-digit character, or overflow.
pub fn parse_u32(s: &str) -> (r: Option<u32>)
    ensures
        r == spec_parse_u32(s@),
{
    let n = s.unicode_len();
    if n == 0 {
        return None;
    }
    let mut acc: u32 = 0;
    let mut i: usize = 0;
    while i < n
        invariant
            0 <= i <= n,
            n == s@.len(),
            all_digits(s@.take(i as int)),
            acc == digits_value(s@.take(i as int)),
        decreases n - i,
    {
        let c = s.get_char(i);
        if c < '0' || c > '9' {
            assert(!is_digit_char(s@[i as int]));
            return None;
        }
        let d: u32 = (c as u32) - ('0' as u32);
        let wide: u64 = (acc as u64) * 10 + (d as u64);
        proof {
            assert(s@.take(i + 1).drop_last() =~= s@.take(i as int));
            assert(s@.take(i + 1).last() == s@[i as int]);
            assert(digits_value(s@.take(i + 1)) == digits_value(s@.take(i as int)) * 10
                + digit_val(s@[i as int]));
        }
        if wide > u32::MAX as u64 {
            proof {
                lemma_digits_value_prefix_le(s@, i + 1);
            }
            return None;
        }
        acc = wide as u32;
        i = i + 1;
    }
    proof {
        assert(s@.take(n as int) =~= s@);
    }
    Some(acc)
}

/// The decimal digit string of a number, without sign or padding.
pub open spec fn spec_u32_digits(n: nat) -> Seq<char>
    decreases n,
{
    if n < 10 {
        seq![digit_char(n)]
    } else {
        spec_u32_digits(n / 10).push(digit_char(n % 10))
    }
}

/// Append the decimal rendering of `n` to `s`.
pub fn push_u32(s: &mut String, n: u32)
    ensures
        final(s)@ == old(s)@ + spec_u32_digits(n as nat),
    decreases n,
{
    if n < 10 {
        push_char(s, digit_char_of(n));
        assert(final(s)@ =~= old(s)@ + spec_u32_digits(n as nat));
    } else {
        push_u32(s, n / 10);
        push_char(s, digit_char_of(n % 10));
        assert(final(s)@ =~= old(s)@ + spec_u32_digits(n as nat));
    }
}

/// `p` is a prefix of `s`.
pub open spec fn spec_starts_with(s: Seq<char>, p: Seq<char>) -> bool {
    p.len() <= s.len() && s.take(p.len() as int) == p
}

pub fn starts_with_str(s: &str, p: &str) -> (r: bool)
    ensures
        r == spec_starts_with(s@, p@),
{
    let n = s.unicode_len();
    let m = p.unicode_len();
    if m > n {
        return false;
    }
    let mut i: usize = 0;
    while i < m
        invariant
            0 <= i <= m <= n,
            n == s@.len(),
            m == p@.len(),
            forall|j: int| 0 <= j < i ==> s@[j] == p@[j],
        decreases m - i,
    {
        if s.get_char(i) != p.get_char(i) {
            assert(s@.take(m as int)[i as int] != p@[i as int]);
            return false;
        }
        i = i + 1;
    }
    assert(s@.take(m as int) =~= p@);
    true
}

/// `needle` occurs somewhere in `s` as a contiguous run.
pub open spec fn spec_contains_seq(s: Seq<char>, needle: Seq<char>) -> bool {
    exists|i: int|
        0 <= i && i + needle.len() <= s.len() && #[trigger] s.subrange(i, i + needle.len() as int)
            == needle
}

pub fn contains_str(s: &str, needle: &str) -> (r: bool)
    ensures
        r == spec_contains_seq(s@, needle@),
{
    let n = s.unicode_len();
    let m = needle.unicode_len();
    if m > n {
        return false;
    }
    if m == 0 {
        assert(s@.subrange(0, 0 + needle@.len() as int) =~= needle@);
        return true;
    }
    let last = n - m;
    let mut i: usize = 0;
    while i <= last
        invariant
            0 <= i <= last + 1,
            last == n - m,
            n == s@.len(),
            m == needle@.len(),
            0 < m <= n,
            forall|k: int|
                0 <= k < i ==> #[trigger] s@.subrange(k, k + needle@.len() as int) != needle@,
        decreases last + 1 - i,
    {
        let mut j: usize = 0;
        let mut hit = true;
        while j < m
            invariant
                0 <= j <= m,
                0 <= i <= last,
                last == n - m,
                n == s@.len(),
                m == needle@.len(),
                hit ==> forall|k: int| 0 <= k < j ==> s@[i + k] == needle@[k],
                !hit ==> s@.subrange(i as int, i + m as int) != needle@,
            decreases m - j,
        {
            if s.get_char(i + j) != needle.get_char(j) {
                hit = false;
                proof {
                    assert(s@.subrange(i as int, i + m as int)[j as int] != needle@[j as int]);
                    assert(s@.subrange(i as int, i + m as int) != needle@);
                }
                j = m;
            } else {
                j = j + 1;
            }
        }
        if hit {
            assert(s@.subrange(i as int, i + m as int) =~= needle@);
            return true;
        }
        i = i + 1;
    }
    assert(forall|k: int|
        0 <= k && k + needle@.len() <= s@.len() ==> #[trigger] s@.subrange(
            k, k + needle@.len() as int) != needle@);
    false
}

pub fn str_eq(a: &str, b: &str) -> (r: bool)
    ensures
        r == (a@ == b@),
{
    let n = a.unicode_len();
    if n != b.unicode_len() {
        return false;
    }
    let mut i: usize = 0;
    while i < n
        invariant
            0 <= i <= n,
            n == a@.len(),
            n == b@.len(),
            forall|j: int| 0 <= j < i ==> a@[j] == b@[j],
        decreases n - i,
    {
        if a.get_char(i) != b.get_char(i) {
            return false;
        }
        i = i + 1;
    }
    assert(a@ =~= b@);
    true
}

/// Index of the first occurrence of `sep` in `s`, or `s.len()` if absent.
pub open spec fn first_index_of(s: Seq<char>, sep: char) -> int
    decreases s.len(),
{
    if s.len() == 0 {
        0
    } else if s[0] == sep {
        0
    } else {
        1 + first_index_of(s.skip(1), sep)
    }
}

pub proof fn lemma_first_index_of(s: Seq<char>, sep: char)
    ensures
        0 <= first_index_of(s, sep) <= s.len(),
        first_index_of(s, sep) < s.len() ==> s[first_index_of(s, sep)] == sep,
        forall|j: int| 0 <= j < first_index_of(s, sep) ==> s[j] != sep,
    decreases s.len(),
{
    if s.len() > 0 && s[0] != sep {
        lemma_first_index_of(s.skip(1), sep);
        assert(forall|j: int|
            0 <= j < first_index_of(s, sep) ==> s[j] != sep) by {
            assert(forall|j: int|
                1 <= j < first_index_of(s, sep) ==> s[j] == s.skip(1)[j - 1] && s.skip(1)[j - 1]
                    != sep);
        }
    }
}

/// The parts of `s` between occurrences of `sep`: always at least one part,
/// no part contains `sep`, and joining the parts with `sep` restores `s`.
pub open spec fn spec_split(s: Seq<char>, sep: char) -> Seq<Seq<char>>
    decreases s.len(),
{
    let i = first_index_of(s, sep);
    if 0 <= i && i < s.len() {
        seq![s.take(i)] + spec_split(s.skip(i + 1), sep)
    } else {
        seq![s]
    }
}

/// Split `s` on every occurrence of `sep`.
pub fn split_char(s: &str, sep: char) -> (parts: Vec<String>)
    ensures
        parts@.map_values(|p: String| p@) == spec_split(s@, sep),
    decreases s@.len(),
{
    proof {
        lemma_first_index_of(s@, sep);
    }
    let n = s.unicode_len();
    let mut i: usize = 0;
    while i < n && s.get_char(i) != sep
        invariant
            0 <= i <= n,
            n == s@.len(),
            forall|j: int| 0 <= j < i ==> s@[j] != sep,
        decreases n - i,
    {
        i = i + 1;
    }
    proof {
        // `i` is the least separator position (or the length), so it agrees
        // with `first_index_of`.
        if i < n {
            assert(s@[i as int] == sep);
        }
        if first_index_of(s@, sep) < i {
            assert(s@[first_index_of(s@, sep)] != sep);
        }
        if i < first_index_of(s@, sep) {
            assert(s@[i as int] != sep);
        }
        assert(i as int == first_index_of(s@, sep));
    }
    if i == n {
        let part = s.to_owned();
        let parts = vec![part];
        assert(parts@.map_values(|p: String| p@) =~= spec_split(s@, sep));
        parts
    } else {
        let head = s.substring_char(0, i);
        let tail = s.substring_char(i + 1, n);
        assert(tail@ =~= s@.skip(i + 1));
        let rest = split_char(tail, sep);
        let mut parts: Vec<String> = Vec::new();
        parts.push(head.to_owned());
        let mut k: usize = 0;
        let rn = rest.len();
        while k < rn
            invariant
                0 <= k <= rn,
                rn == rest@.len(),
                parts@.len() == k + 1,
                parts@[0]@ == s@.take(i as int),
                forall|j: int| 0 <= j < k ==> parts@[j + 1]@ == rest@[j]@,
            decreases rn - k,
        {
            let p = rest[k].clone();
            parts.push(p);
            k = k + 1;
        }
        assert(head@ =~= s@.take(i as int));
        assert(parts@.map_values(|p: String| p@) =~= spec_split(s@, sep)) by {
            assert(rest@.map_values(|p: String| p@) == spec_split(s@.skip(i + 1), sep));
            assert(forall|j: int|
                0 <= j < rest@.len() ==> rest@.map_values(|p: String| p@)[j] == rest@[j]@);
        }
        parts
    }
}

/// `s` with every non-overlapping occurrence of `pat` (scanned left to
/// right) replaced by `rep`; the identity when `pat` is empty.
pub open spec fn spec_replace(s: Seq<char>, pat: Seq<char>, rep: Seq<char>) -> Seq<char>
    decreases s.len(),
{
    if pat.len() == 0 || s.len() < pat.len() {
        s
    } else if s.take(pat.len() as int) == pat {
        rep + spec_replace(s.skip(pat.len() as int), pat, rep)
    } else {
        seq![s[0]] + spec_replace(s.skip(1), pat, rep)
    }
}

/// Replace every occurrence of `pat` in `s` by `rep`.
pub fn replace_all(s: &str, pat: &str, rep: &str) -> (r: String)
    ensures
        r@ == spec_replace(s@, pat@, rep@),
    decreases s@.len(),
{
    let n = s.unicode_len();
    let m = pat.unicode_len();
    if m == 0 || n < m {
        return s.to_owned();
    }
    if starts_with_str(s, pat) {
        let mut r = rep.to_owned();
        let tail = s.substring_char(m, n);
        assert(tail@ =~= s@.skip(m as int));
        let rest = replace_all(tail, pat, rep);
        r.append(rest.as_str());
        r
    } else {
        let mut r = String::new();
        push_char(&mut r, s.get_char(0));
        let tail = s.substring_char(1, n);
        assert(tail@ =~= s@.skip(1));
        let rest = replace_all(tail, pat, rep);
        r.append(rest.as_str());
        assert(r@ =~= seq![s@[0]] + spec_replace(s@.skip(1), pat@, rep@));
        r
    }
}

} // verus!
