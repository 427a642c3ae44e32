//! The interpreter-binary name matcher.
//!
//! A file name plausibly names a PHP interpreter when it is the base name
//! `php` followed by version numbers (`php74`, `php7.4`) and dash- or
//! underscore-introduced words (`php-fpm`, `php7.4-cgi`, `php-fpm74`).  The
//! match is anchored at both ends: `phpunit`, `myphp` and `php.conf` do not
//! qualify.  On the Windows family the name must additionally carry one of
//! the extensions `.exe`, `.bat` or `.cmd`.

use vstd::prelude::*;
use vstd::string::StrSliceExecFns;

use crate::text::is_digit_char;

verus! {

pub open spec fn is_alpha_char(c: char) -> bool {
    ('a' <= c && c <= 'z') || ('A' <= c && c <= 'Z')
}

pub open spec fn is_word_sep(c: char) -> bool {
    c == '-' || c == '_'
}

/// Constraints on the character at position `i` of the part after the `php`
/// base name: digits stand alone, a dot sits between digits, a word of
/// letters opens with `-` or `_`, and a separator introduces something.
pub open spec fn suffix_char_ok(t: Seq<char>, i: int) -> bool {
    let c = t[i];
    &&& (is_digit_char(c) || is_alpha_char(c) || is_word_sep(c) || c == '.')
    &&& (is_alpha_char(c) ==> 0 < i && (is_word_sep(t[i - 1]) || is_alpha_char(t[i - 1])))
    &&& (c == '.' ==> 0 < i && i + 1 < t.len() && is_digit_char(t[i - 1]) && is_digit_char(
        t[i + 1],
    ))
    &&& (is_word_sep(c) ==> i + 1 < t.len() && (is_digit_char(t[i + 1]) || is_alpha_char(
        t[i + 1],
    )))
}

pub open spec fn suffix_ok(t: Seq<char>) -> bool {
    forall|i: int| 0 <= i < t.len() ==> suffix_char_ok(t, i)
}

/// The extension-free shape: `php` plus an admissible suffix.
pub open spec fn spec_base_match(s: Seq<char>) -> bool {
    s.len() >= 3 && s[0] == 'p' && s[1] == 'h' && s[2] == 'p' && suffix_ok(s.skip(3))
}

/// One of the three executable extensions of the Windows family, with the
/// leading dot.
pub open spec fn spec_win_ext(e: Seq<char>) -> bool {
    e == seq!['.', 'e', 'x', 'e'] || e == seq!['.', 'b', 'a', 't'] || e == seq![
        '.',
        'c',
        'm',
        'd',
    ]
}

/// Whether `s` names an interpreter binary on the given platform family.
pub open spec fn spec_matches_name(s: Seq<char>, windows: bool) -> bool {
    if windows {
        s.len() >= 7 && spec_win_ext(s.skip(s.len() - 4)) && spec_base_match(
            s.take(s.len() - 4),
        )
    } else {
        spec_base_match(s)
    }
}

/// Check the suffix constraints on `name` between positions 3 and `core`.
fn suffix_check(name: &str, core: usize) -> (r: bool)
    requires
        3 <= core <= name@.len(),
    ensures
        r == suffix_ok(name@.subrange(3, core as int)),
{
    let ghost t = name@.subrange(3, core as int);
    let mut i: usize = 3;
    while i < core
        invariant
            3 <= i <= core <= name@.len(),
            t == name@.subrange(3, core as int),
            forall|k: int| 0 <= k < i - 3 ==> suffix_char_ok(t, k),
        decreases core - i,
    {
        let c = name.get_char(i);
        let digit = '0' <= c && c <= '9';
        let alpha = ('a' <= c && c <= 'z') || ('A' <= c && c <= 'Z');
        let sep = c == '-' || c == '_';
        let mut ok = digit || alpha || sep || c == '.';
        if ok && alpha {
            if i == 3 {
                ok = false;
            } else {
                let p = name.get_char(i - 1);
                ok = p == '-' || p == '_' || ('a' <= p && p <= 'z') || ('A' <= p && p <= 'Z');
            }
        }
        if ok && c == '.' {
            if i == 3 || i + 1 >= core {
                ok = false;
            } else {
                let p = name.get_char(i - 1);
                let q = name.get_char(i + 1);
                ok = '0' <= p && p <= '9' && '0' <= q && q <= '9';
            }
        }
        if ok && sep {
            if i + 1 >= core {
                ok = false;
            } else {
                let q = name.get_char(i + 1);
                ok = ('0' <= q && q <= '9') || ('a' <= q && q <= 'z') || ('A' <= q && q <= 'Z');
            }
        }
        proof {
            assert(t[i - 3] == name@[i as int]);
            assert(i - 3 > 0 ==> t[i - 4] == name@[i - 1]);
            assert(i - 2 < t.len() ==> t[i - 2] == name@[i + 1]);
        }
        if !ok {
            assert(!suffix_char_ok(t, i - 3));
            return false;
        }
        assert(suffix_char_ok(t, i - 3));
        i = i + 1;
    }
    true
}

/// The base-name match without any extension handling.
fn base_match(name: &str, core: usize) -> (r: bool)
    requires
        core <= name@.len(),
    ensures
        r == spec_base_match(name@.take(core as int)),
{
    let ghost s = name@.take(core as int);
    if core < 3 {
        return false;
    }
    if name.get_char(0) != 'p' || name.get_char(1) != 'h' || name.get_char(2) != 'p' {
        return false;
    }
    let r = suffix_check(name, core);
    assert(name@.subrange(3, core as int) =~= s.skip(3));
    r
}

/// Decide whether a file name looks like an interpreter binary.
pub fn matches_binary_name(name: &str, windows: bool) -> (r: bool)
    ensures
        r == spec_matches_name(name@, windows),
{
    let n = name.unicode_len();
    if !windows {
        let r = base_match(name, n);
        assert(name@.take(n as int) =~= name@);
        return r;
    }
    if n < 7 {
        return false;
    }
    let e0 = name.get_char(n - 4);
    let e1 = name.get_char(n - 3);
    let e2 = name.get_char(n - 2);
    let e3 = name.get_char(n - 1);
    let ext_ok = e0 == '.' && ((e1 == 'e' && e2 == 'x' && e3 == 'e') || (e1 == 'b' && e2 == 'a'
        && e3 == 't') || (e1 == 'c' && e2 == 'm' && e3 == 'd'));
    proof {
        let e = name@.skip(n - 4);
        assert(e.len() == 4);
        assert(e[0] == e0 && e[1] == e1 && e[2] == e2 && e[3] == e3);
        if ext_ok {
            if e1 == 'e' {
                assert(e =~= seq!['.', 'e', 'x', 'e']);
            } else if e1 == 'b' {
                assert(e =~= seq!['.', 'b', 'a', 't']);
            } else {
                assert(e =~= seq!['.', 'c', 'm', 'd']);
            }
        }
        assert(spec_win_ext(e) == ext_ok);
    }
    if !ext_ok {
        return false;
    }
    base_match(name, n - 4)
}

} // verus!
