//! Paths as plain strings: file name, parent directory and joining.
//!
//! Both `/` and `\` count as component separators, so the same logic serves
//! every platform; joining picks the platform's preferred separator.

use vstd::prelude::*;
use vstd::string::StrSliceExecFns;
use vstd::string::StringExecFns;

use crate::text::push_char;

verus! {

pub open spec fn is_path_sep(c: char) -> bool {
    c == '/' || c == '\\'
}

/// Index of the last path separator in `s`, or `-1` if there is none.
pub open spec fn last_sep_index(s: Seq<char>) -> int
    decreases s.len(),
{
    if s.len() == 0 {
        -1
    } else if is_path_sep(s.last()) {
        s.len() - 1
    } else {
        last_sep_index(s.drop_last())
    }
}

pub proof fn lemma_last_sep_index(s: Seq<char>)
    ensures
        -1 <= last_sep_index(s) < s.len(),
        last_sep_index(s) >= 0 ==> is_path_sep(s[last_sep_index(s)]),
        forall|j: int| last_sep_index(s) < j < s.len() ==> !is_path_sep(s[j]),
    decreases s.len(),
{
    if s.len() > 0 && !is_path_sep(s.last()) {
        lemma_last_sep_index(s.drop_last());
        assert(forall|j: int|
            last_sep_index(s) < j < s.len() - 1 ==> s[j] == s.drop_last()[j] && !is_path_sep(
                s.drop_last()[j],
            ));
    }
}

/// The final path component: everything after the last separator.
pub open spec fn spec_file_name(s: Seq<char>) -> Seq<char> {
    s.skip(last_sep_index(s) + 1)
}

/// A path has a parent exactly when it contains a separator.
pub open spec fn spec_has_parent(s: Seq<char>) -> bool {
    last_sep_index(s) >= 0
}

/// The directory part: everything before the last separator.
pub open spec fn spec_parent(s: Seq<char>) -> Seq<char> {
    s.take(last_sep_index(s))
}

/// Position one past the last separator of `path`, or `0` if none occurs.
fn after_last_sep(path: &str) -> (r: usize)
    ensures
        r == last_sep_index(path@) + 1,
{
    proof {
        lemma_last_sep_index(path@);
    }
    let n = path.unicode_len();
    let mut j = n;
    while j > 0
        invariant
            0 <= j <= n,
            n == path@.len(),
            forall|k: int| j <= k < n ==> !is_path_sep(path@[k]),
        decreases j,
    {
        let c = path.get_char(j - 1);
        if c == '/' || c == '\\' {
            proof {
                lemma_last_sep_index(path@);
                let li = last_sep_index(path@);
                assert(is_path_sep(path@[j - 1]));
                if li < j - 1 {
                    assert(!is_path_sep(path@[j - 1]));
                }
                if li > j - 1 {
                    assert(!is_path_sep(path@[li]));
                }
            }
            return j;
        }
        j = j - 1;
    }
    proof {
        if last_sep_index(path@) >= 0 {
            assert(!is_path_sep(path@[last_sep_index(path@)]));
        }
    }
    0
}

/// The final component of `path` (empty when `path` ends in a separator).
pub fn file_name(path: &str) -> (r: String)
    ensures
        r@ == spec_file_name(path@),
{
    proof {
        lemma_last_sep_index(path@);
    }
    let start = after_last_sep(path);
    let n = path.unicode_len();
    let r = path.substring_char(start, n);
    assert(r@ =~= spec_file_name(path@));
    r.to_owned()
}

/// The directory holding `path`, or `None` for a path with no separator.
pub fn parent_dir(path: &str) -> (r: Option<String>)
    ensures
        match r {
            Some(p) => spec_has_parent(path@) && p@ == spec_parent(path@),
            None => !spec_has_parent(path@),
        },
{
    proof {
        lemma_last_sep_index(path@);
    }
    let start = after_last_sep(path);
    if start == 0 {
        None
    } else {
        let p = path.substring_char(0, start - 1);
        assert(p@ =~= spec_parent(path@));
        Some(p.to_owned())
    }
}

/// `dir` and `name` joined with `sep`, without doubling a separator that
/// `dir` already ends in.
pub open spec fn spec_join_path(dir: Seq<char>, name: Seq<char>, sep: char) -> Seq<char> {
    if dir.len() > 0 && is_path_sep(dir.last()) {
        dir + name
    } else {
        dir + seq![sep] + name
    }
}

/// Join a directory and a file name with the platform's separator.
pub fn join_path(dir: &str, name: &str, windows: bool) -> (r: String)
    ensures
        r@ == spec_join_path(dir@, name@, if windows {
            '\\'
        } else {
            '/'
        }),
{
    let n = dir.unicode_len();
    let mut r = dir.to_owned();
    if n == 0 || !{
        let c = dir.get_char(n - 1);
        c == '/' || c == '\\'
    } {
        push_char(&mut r, if windows {
            '\\'
        } else {
            '/'
        });
        r.append(name);
        assert(r@ =~= spec_join_path(dir@, name@, if windows {
            '\\'
        } else {
            '/'
        }));
        return r;
    }
    r.append(name);
    r
}

} // verus!
