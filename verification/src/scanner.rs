//! The directory scanner as a state machine over plain values.
//!
//! The embedding program walks the filesystem and runs binaries; this module
//! makes every decision: which listed entries are candidate binaries, when a
//! directory's subdirectories are scanned instead (the version-manager
//! layout, one nesting level per listing), and how discovered builds are
//! deduplicated.  A symlinked, missing or unreadable directory is reported
//! as [`DirListing::Inaccessible`] and leaves the accumulator untouched.

use vstd::prelude::*;

use crate::builds::Build;
use crate::builds::spec_build_eq;
use crate::matcher::matches_binary_name;
use crate::matcher::spec_matches_name;
use crate::paths::file_name;
use crate::paths::spec_file_name;
use crate::text::str_eq;

verus! {

/// One globbed entry of a scanned directory, as the filesystem reports it.
pub struct Entry {
    pub path: String,
    pub is_dir: bool,
}

/// What the filesystem says about a directory that is up for scanning:
/// nothing worth reading (missing, not a directory, or a symlink — symlinked
/// directories are never followed), or the merged glob matches.
pub enum DirListing {
    Inaccessible,
    Entries(Vec<Entry>),
}

/// A file entry whose name looks like an interpreter binary.
pub open spec fn entry_is_candidate(e: Entry, windows: bool) -> bool {
    !e.is_dir && spec_matches_name(spec_file_name(e.path@), windows)
}

/// The candidate binary paths of a listing, first occurrence kept, later
/// duplicates by path text dropped.
pub open spec fn spec_candidate_paths(es: Seq<Entry>, windows: bool) -> Seq<Seq<char>>
    decreases es.len(),
{
    if es.len() == 0 {
        Seq::empty()
    } else {
        let rest = spec_candidate_paths(es.drop_last(), windows);
        if entry_is_candidate(es.last(), windows) && !rest.contains(es.last().path@) {
            rest.push(es.last().path@)
        } else {
            rest
        }
    }
}

/// The paths of the directory entries of a listing, in listed order.
pub open spec fn spec_subdir_paths(es: Seq<Entry>) -> Seq<Seq<char>>
    decreases es.len(),
{
    if es.len() == 0 {
        Seq::empty()
    } else {
        let rest = spec_subdir_paths(es.drop_last());
        if es.last().is_dir {
            rest.push(es.last().path@)
        } else {
            rest
        }
    }
}

/// The text of a sequence of strings.
pub open spec fn str_views(ss: Seq<String>) -> Seq<Seq<char>> {
    ss.map_values(|s: String| s@)
}

/// No two builds of the sequence are fully equal.
pub open spec fn builds_unique(bs: Seq<Build>) -> bool {
    forall|i: int, j: int| 0 <= i < j < bs.len() ==> !spec_build_eq(bs[i], bs[j])
}

/// Set-semantics insertion: the accumulator unchanged when it already holds
/// an equal build, extended by `b` otherwise.
pub open spec fn spec_insert(bs: Seq<Build>, b: Build) -> Seq<Build> {
    if exists|i: int| 0 <= i < bs.len() && spec_build_eq(bs[i], b) {
        bs
    } else {
        bs.push(b)
    }
}

/// Probing the identical binary twice leaves exactly one record: inserting
/// a build equal to one just inserted changes nothing, and an accumulator
/// with no equal build beforehand holds exactly one afterwards.
pub proof fn lemma_insert_of_equal_build_is_dropped(bs: Seq<Build>, b1: Build, b2: Build)
    requires
        spec_build_eq(b1, b2),
    ensures
        spec_insert(spec_insert(bs, b1), b2) == spec_insert(bs, b1),
        (forall|i: int| 0 <= i < bs.len() ==> !spec_build_eq(bs[i], b1)) ==> spec_insert(
            bs,
            b1,
        ) == bs.push(b1),
{
    let after = spec_insert(bs, b1);
    if exists|i: int| 0 <= i < bs.len() && spec_build_eq(bs[i], b1) {
        let i = choose|i: int| 0 <= i < bs.len() && spec_build_eq(bs[i], b1);
        assert(spec_build_eq(after[i], b2));
    } else {
        assert(after == bs.push(b1));
        assert(spec_build_eq(after[bs.len() as int], b2));
    }
}

/// The scan state: directories still to visit (a stack, so nested layouts
/// are finished before the next root) and the deduplicated accumulator of
/// discovered builds.
pub struct Scanner {
    pub pending: Vec<String>,
    pub builds: Vec<Build>,
}

impl Scanner {
    /// The accumulator never holds two fully equal builds.
    pub open spec fn wf(self) -> bool {
        builds_unique(self.builds@)
    }

    /// An empty scan: nothing pending, nothing found.
    pub fn new() -> (r: Scanner)
        ensures
            r.pending@.len() == 0,
            r.builds@.len() == 0,
            r.wf(),
    {
        Scanner { pending: Vec::new(), builds: Vec::new() }
    }

    /// Queue one directory for a direct scan.
    pub fn push_location(&mut self, dir: String)
        ensures
            final(self).pending@ == old(self).pending@.push(dir),
            final(self).builds == old(self).builds,
    {
        self.pending.push(dir);
    }

    /// Queue a tree scan: the root itself first, then each child in listed
    /// order, every one as a direct scan.
    pub fn queue_tree(&mut self, root: String, children: Vec<String>)
        ensures
            final(self).pending@ == old(self).pending@ + children@.reverse().push(root),
            final(self).builds == old(self).builds,
    {
        let mut children = children;
        let ghost cs = children@;
        proof {
            assert(cs.take(cs.len() as int) =~= cs);
            assert(cs.skip(cs.len() as int).reverse() =~= Seq::<String>::empty());
            assert(self.pending@ =~= old(self).pending@ + cs.skip(cs.len() as int).reverse());
        }
        while children.len() > 0
            invariant
                children@.len() <= cs.len(),
                children@ == cs.take(children@.len() as int),
                self.pending@ == old(self).pending@ + cs.skip(children@.len() as int).reverse(),
                self.builds == old(self).builds,
            decreases children@.len(),
        {
            let ghost m = children@.len() as int;
            let c = match children.pop() {
                Some(c) => c,
                None => {
                    // the loop condition rules this out
                    return ;
                },
            };
            self.pending.push(c);
            proof {
                assert(children@ =~= cs.take(m).subrange(0, m - 1));
                assert(children@ =~= cs.take(m - 1));
                assert(cs.skip(m - 1) =~= seq![cs[m - 1]] + cs.skip(m));
                assert(cs.skip(m - 1).reverse() =~= cs.skip(m).reverse().push(cs[m - 1]));
                assert(self.pending@ =~= old(self).pending@ + cs.skip(m - 1).reverse());
            }
        }
        proof {
            assert(cs.skip(0) =~= cs);
        }
        self.pending.push(root);
        assert(self.pending@ =~= old(self).pending@ + cs.reverse().push(root));
    }

    /// Take the next directory to scan, if any is pending.
    pub fn take_job(&mut self) -> (r: Option<String>)
        ensures
            final(self).builds == old(self).builds,
            match r {
                None => old(self).pending@.len() == 0 && final(self).pending@ == old(
                    self,
                ).pending@,
                Some(d) => old(self).pending@.len() > 0 && d == old(self).pending@.last()
                    && final(self).pending@ == old(self).pending@.drop_last(),
            },
    {
        self.pending.pop()
    }

    /// Record one probed build, dropping it silently when an equal build is
    /// already present: the accumulator keeps set semantics under full
    /// equality.
    pub fn add_build(&mut self, b: Build)
        requires
            old(self).wf(),
        ensures
            final(self).wf(),
            final(self).pending == old(self).pending,
            final(self).builds@ == spec_insert(old(self).builds@, b),
    {
        let n = self.builds.len();
        let mut i: usize = 0;
        while i < n
            invariant
                0 <= i <= n,
                n == self.builds@.len(),
                self == old(self),
                old(self).wf(),
                forall|j: int| 0 <= j < i ==> !spec_build_eq(self.builds@[j], b),
            decreases n - i,
        {
            if self.builds[i].same_as(&b) {
                assert(spec_build_eq(self.builds@[i as int], b));
                return ;
            }
            i = i + 1;
        }
        self.builds.push(b);
    }

    /// React to what the filesystem reported for one pending directory.
    /// Returns the candidate binaries to probe now.  An inaccessible
    /// directory changes nothing.  When the listing yields no candidate
    /// binary, its subdirectories are queued instead (depth-first, in listed
    /// order); when it yields some, nothing is queued.
    pub fn process_listing(&mut self, listing: DirListing, windows: bool) -> (bins: Vec<String>)
        ensures
            final(self).builds == old(self).builds,
            match listing {
                DirListing::Inaccessible => final(self).pending == old(self).pending && bins@.len()
                    == 0,
                DirListing::Entries(es) => {
                    &&& str_views(bins@) == spec_candidate_paths(es@, windows)
                    &&& (bins@.len() > 0 ==> final(self).pending == old(self).pending)
                    &&& (bins@.len() == 0 ==> str_views(final(self).pending@) == str_views(
                        old(self).pending@,
                    ) + spec_subdir_paths(es@).reverse())
                },
            },
    {
        let es = match listing {
            DirListing::Inaccessible => {
                return Vec::new();
            },
            DirListing::Entries(es) => es,
        };
        let mut bins: Vec<String> = Vec::new();
        let mut dirs: Vec<String> = Vec::new();
        let n = es.len();
        let mut i: usize = 0;
        proof {
            assert(es@.take(0) =~= Seq::<Entry>::empty());
        }
        while i < n
            invariant
                0 <= i <= n,
                n == es@.len(),
                str_views(bins@) == spec_candidate_paths(es@.take(i as int), windows),
                str_views(dirs@) == spec_subdir_paths(es@.take(i as int)),
                self == old(self),
            decreases n - i,
        {
            let e = &es[i];
            if e.is_dir {
                dirs.push(e.path.clone());
                assert(str_views(dirs@) =~= spec_subdir_paths(es@.take(i as int)).push(e.path@));
            } else {
                let name = file_name(e.path.as_str());
                if matches_binary_name(name.as_str(), windows) {
                    let mut seen = false;
                    let bn = bins.len();
                    let mut k: usize = 0;
                    while k < bn
                        invariant
                            0 <= k <= bn,
                            bn == bins@.len(),
                            seen == exists|j: int| 0 <= j < k && bins@[j]@ == e.path@,
                            i < n,
                            n == es@.len(),
                            e == &es@[i as int],
                        decreases bn - k,
                    {
                        if str_eq(bins[k].as_str(), e.path.as_str()) {
                            seen = true;
                            k = bn;
                        } else {
                            k = k + 1;
                        }
                    }
                    proof {
                        assert(seen == str_views(bins@).contains(e.path@)) by {
                            if seen {
                                let j = choose|j: int| 0 <= j < bins@.len() && bins@[j]@ == e.path@;
                                assert(str_views(bins@)[j] == e.path@);
                            } else {
                                if str_views(bins@).contains(e.path@) {
                                    let j = choose|j: int|
                                        0 <= j < str_views(bins@).len() && str_views(bins@)[j]
                                            == e.path@;
                                    assert(bins@[j]@ == e.path@);
                                }
                            }
                        }
                    }
                    if !seen {
                        bins.push(e.path.clone());
                        assert(str_views(bins@) =~= spec_candidate_paths(
                            es@.take(i as int),
                            windows,
                        ).push(e.path@));
                    }
                }
            }
            proof {
                assert(es@.take(i + 1).drop_last() =~= es@.take(i as int));
                assert(es@.take(i + 1).last() == es@[i as int]);
            }
            i = i + 1;
        }
        proof {
            assert(es@.take(n as int) =~= es@);
        }
        if bins.len() == 0 {
            let ghost ds = dirs@;
            let ghost p0 = self.pending@;
            let mut dirs = dirs;
            proof {
                assert(ds.take(ds.len() as int) =~= ds);
                assert(ds.skip(ds.len() as int).reverse() =~= Seq::<String>::empty());
                assert(self.pending@ =~= p0 + ds.skip(ds.len() as int).reverse());
            }
            while dirs.len() > 0
                invariant
                    dirs@.len() <= ds.len(),
                    dirs@ == ds.take(dirs@.len() as int),
                    self.pending@ == p0 + ds.skip(dirs@.len() as int).reverse(),
                    self.builds == old(self).builds,
                    p0 == old(self).pending@,
                decreases dirs@.len(),
            {
                let ghost m = dirs@.len() as int;
                let d = match dirs.pop() {
                    Some(d) => d,
                    None => {
                        return bins;
                    },
                };
                self.pending.push(d);
                proof {
                    assert(dirs@ =~= ds.take(m).subrange(0, m - 1));
                    assert(dirs@ =~= ds.take(m - 1));
                    assert(ds.skip(m - 1) =~= seq![ds[m - 1]] + ds.skip(m));
                    assert(ds.skip(m - 1).reverse() =~= ds.skip(m).reverse().push(ds[m - 1]));
                    assert(self.pending@ =~= p0 + ds.skip(m - 1).reverse());
                }
            }
            proof {
                assert(ds.skip(0) =~= ds);
                assert(str_views(ds).reverse() =~= ds.map_values(|s: String| s@).reverse());
                // pending views: map of the pushed strings equals the
                // reversed subdirectory paths
            }
            assert(self.pending@.map_values(|s: String| s@) =~= old(self).pending@.map_values(
                |s: String| s@,
            ) + spec_subdir_paths(es@).reverse()) by {
                assert(self.pending@ == p0 + ds.reverse());
                assert(str_views(ds) == spec_subdir_paths(es@));
                assert(forall|j: int|
                    0 <= j < ds.len() ==> ds.reverse()[j]@ == str_views(ds).reverse()[j]);
            }
        }
        bins
    }

    /// Hand the accumulated builds over, consuming the scanner.
    pub fn into_builds(self) -> (r: Vec<Build>)
        ensures
            r == self.builds,
    {
        self.builds
    }
}

} // verus!
