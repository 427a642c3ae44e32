//! The well-known locations worth scanning, as pure policy.
//!
//! Given the values of the relevant environment variables — the executable
//! search path, the home directory and (Windows family) the system drive —
//! this module computes the ordered list of directories to scan and the
//! strategy for each: a direct scan, or a tree scan that also visits the
//! root's immediate children.  Reading the variables is the embedding
//! program's job.

use vstd::prelude::*;
use vstd::string::StringExecFns;

use crate::Platform;
use crate::error::DiscoveryError;
use crate::paths::join_path;
use crate::paths::spec_join_path;
use crate::text::push_char;
use crate::text::spec_split;
use crate::text::split_char;

verus! {

/// How a location is scanned: the directory alone, or the directory and
/// each of its immediate children.
#[derive(Clone, Copy, PartialEq, Eq, Structural, Debug)]
pub enum Strategy {
    Direct,
    Tree,
}

/// One location to scan and how.
pub struct Job {
    pub dir: String,
    pub strategy: Strategy,
}

/// The text and strategy of each job.
pub open spec fn job_views(jobs: Seq<Job>) -> Seq<(Seq<char>, Strategy)> {
    jobs.map_values(|j: Job| (j.dir@, j.strategy))
}

/// The separator of the executable search path variable.
pub open spec fn spec_path_list_sep(windows: bool) -> char {
    if windows {
        ';'
    } else {
        ':'
    }
}

/// Every entry of the search path variable, in order, scanned directly.
pub open spec fn spec_path_jobs(pv: Seq<char>, windows: bool) -> Seq<(Seq<char>, Strategy)> {
    spec_split(pv, spec_path_list_sep(windows)).map_values(
        |d: Seq<char>| (d, Strategy::Direct),
    )
}

/// The Windows-family roots of known stack installers under the system
/// drive: XAMPP, Cygwin (64- and 32-bit), a generic tools root, WAMP (64-
/// and 32-bit) and MAMP, in that order, each scanned directly.
pub open spec fn spec_windows_root_jobs(sd: Seq<char>) -> Seq<(Seq<char>, Strategy)> {
    let base = sd + seq!['\\'];
    seq![
        (spec_join_path(spec_join_path(base, "xampp"@, '\\'), "php"@, '\\'), Strategy::Direct),
        (spec_join_path(spec_join_path(base, "cygwin64"@, '\\'), "bin"@, '\\'), Strategy::Direct),
        (spec_join_path(spec_join_path(base, "cygwin"@, '\\'), "bin"@, '\\'), Strategy::Direct),
        (spec_join_path(base, "tools"@, '\\'), Strategy::Direct),
        (
            spec_join_path(
                spec_join_path(spec_join_path(base, "wamp64"@, '\\'), "bin"@, '\\'),
                "php"@,
                '\\',
            ),
            Strategy::Direct,
        ),
        (
            spec_join_path(
                spec_join_path(spec_join_path(base, "wamp"@, '\\'), "bin"@, '\\'),
                "php"@,
                '\\',
            ),
            Strategy::Direct,
        ),
        (
            spec_join_path(
                spec_join_path(spec_join_path(base, "mamp"@, '\\'), "bin"@, '\\'),
                "php"@,
                '\\',
            ),
            Strategy::Direct,
        ),
    ]
}

/// The version-manager roots under the home directory (phpbrew and phpenv),
/// each a tree scan.
pub open spec fn spec_home_jobs(home: Seq<char>) -> Seq<(Seq<char>, Strategy)> {
    seq![
        (
            spec_join_path(spec_join_path(home, ".phpbrew"@, '/'), "php"@, '/'),
            Strategy::Tree,
        ),
        (
            spec_join_path(spec_join_path(home, ".phpenv"@, '/'), "versions"@, '/'),
            Strategy::Tree,
        ),
    ]
}

/// The macOS package roots: the MacPorts prefix and the MAMP binary tree.
pub open spec fn spec_macos_jobs() -> Seq<(Seq<char>, Strategy)> {
    seq![("/opt/local"@, Strategy::Tree), ("/Applications/MAMP/bin/php/"@, Strategy::Tree)]
}

/// The Linux roots: the distribution tree and Remi's RPM prefix.
pub open spec fn spec_linux_jobs() -> Seq<(Seq<char>, Strategy)> {
    seq![("/usr"@, Strategy::Tree), ("/opt/remi"@, Strategy::Tree)]
}

/// Every location discovery visits, in order: the search path entries
/// first, then the platform's fixed roots.
pub open spec fn spec_locations(
    platform: Platform,
    pv: Option<Seq<char>>,
    home: Option<Seq<char>>,
    sd: Option<Seq<char>>,
) -> Seq<(Seq<char>, Strategy)>
    recommends
        platform.spec_is_windows() ==> sd is Some,
{
    let path_part = match pv {
        Some(s) => spec_path_jobs(s, platform.spec_is_windows()),
        None => Seq::empty(),
    };
    if platform.spec_is_windows() {
        path_part + spec_windows_root_jobs(sd.unwrap())
    } else {
        let home_part = match home {
            Some(h) => spec_home_jobs(h),
            None => Seq::empty(),
        };
        let os_part = if platform is MacOs {
            spec_macos_jobs()
        } else if platform is Linux {
            spec_linux_jobs()
        } else {
            Seq::empty()
        };
        path_part + home_part + os_part
    }
}

/// The view of an optional string.
pub open spec fn opt_view(o: Option<String>) -> Option<Seq<char>> {
    match o {
        Some(s) => Some(s@),
        None => None,
    }
}

fn push_job(jobs: &mut Vec<Job>, dir: String, strategy: Strategy)
    ensures
        job_views(final(jobs)@) == job_views(old(jobs)@).push((dir@, strategy)),
{
    let ghost d = dir@;
    jobs.push(Job { dir, strategy });
    assert(job_views(jobs@) =~= job_views(old(jobs)@).push((d, strategy)));
}

/// Join `base`, `mid` and `leaf` with the platform separator.
fn join2(base: &str, mid: &str, leaf: &str, windows: bool) -> (r: String)
    ensures
        r@ == spec_join_path(
            spec_join_path(base@, mid@, if windows {
                '\\'
            } else {
                '/'
            }),
            leaf@,
            if windows {
                '\\'
            } else {
                '/'
            },
        ),
{
    let first = join_path(base, mid, windows);
    join_path(first.as_str(), leaf, windows)
}

/// Compute the locations to scan from the environment values: `path_var`
/// the executable search path, `home` the home directory (other families),
/// `system_drive` the system drive (Windows family).  On the Windows family
/// an unresolvable system drive is fatal; elsewhere an absent optional
/// variable merely skips its locations.
pub fn locations(
    platform: Platform,
    path_var: Option<String>,
    home: Option<String>,
    system_drive: Option<String>,
) -> (r: Result<Vec<Job>, DiscoveryError>)
    ensures
        r is Err <==> platform.spec_is_windows() && opt_view(system_drive) is None,
        match r {
            Ok(jobs) => job_views(jobs@) == spec_locations(
                platform,
                opt_view(path_var),
                opt_view(home),
                opt_view(system_drive),
            ),
            Err(e) => e is FailedToLocateSystemDrive,
        },
{
    let windows = platform.is_windows();
    let mut jobs: Vec<Job> = Vec::new();
    let ghost path_part = match opt_view(path_var) {
        Some(s) => spec_path_jobs(s, windows),
        None => Seq::empty(),
    };
    proof {
        assert(job_views(jobs@) =~= Seq::<(Seq<char>, Strategy)>::empty());
    }
    match &path_var {
        Some(pv) => {
            let parts = split_char(pv.as_str(), if windows {
                ';'
            } else {
                ':'
            });
            let n = parts.len();
            let mut i: usize = 0;
            proof {
                assert(path_part =~= spec_split(pv@, spec_path_list_sep(windows)).map_values(
                    |d: Seq<char>| (d, Strategy::Direct),
                ));
            }
            while i < n
                invariant
                    0 <= i <= n,
                    n == parts@.len(),
                    n == path_part.len(),
                    forall|j: int| 0 <= j < n ==> path_part[j] == (parts@[j]@, Strategy::Direct),
                    job_views(jobs@) == path_part.take(i as int),
                decreases n - i,
            {
                let p = parts[i].clone();
                push_job(&mut jobs, p, Strategy::Direct);
                proof {
                    assert(path_part.take(i + 1) =~= path_part.take(i as int).push(
                        path_part[i as int],
                    ));
                }
                i = i + 1;
            }
            proof {
                assert(path_part.take(n as int) =~= path_part);
            }
        },
        None => {},
    }
    if windows {
        let sd = match system_drive {
            Some(sd) => sd,
            None => {
                return Err(DiscoveryError::FailedToLocateSystemDrive);
            },
        };
        let ghost roots = spec_windows_root_jobs(sd@);
        let ghost sdv = sd@;
        let mut base = sd;
        push_char(&mut base, '\\');
        assert(base@ =~= sdv + seq!['\\']);
        let b = base.as_str();
        push_job(&mut jobs, join2(b, "xampp", "php", true), Strategy::Direct);
        push_job(&mut jobs, join2(b, "cygwin64", "bin", true), Strategy::Direct);
        push_job(&mut jobs, join2(b, "cygwin", "bin", true), Strategy::Direct);
        push_job(&mut jobs, join_path(b, "tools", true), Strategy::Direct);
        let wamp64 = join2(b, "wamp64", "bin", true);
        push_job(&mut jobs, join_path(wamp64.as_str(), "php", true), Strategy::Direct);
        let wamp = join2(b, "wamp", "bin", true);
        push_job(&mut jobs, join_path(wamp.as_str(), "php", true), Strategy::Direct);
        let mamp = join2(b, "mamp", "bin", true);
        push_job(&mut jobs, join_path(mamp.as_str(), "php", true), Strategy::Direct);
        proof {
            assert(job_views(jobs@) =~= path_part + roots);
        }
        return Ok(jobs);
    }
    match &home {
        Some(h) => {
            let ghost hp = spec_home_jobs(h@);
            push_job(&mut jobs, join2(h.as_str(), ".phpbrew", "php", false), Strategy::Tree);
            push_job(&mut jobs, join2(h.as_str(), ".phpenv", "versions", false), Strategy::Tree);
            proof {
                assert(job_views(jobs@) =~= path_part + hp);
            }
        },
        None => {},
    }
    let ghost home_part = match opt_view(home) {
        Some(h) => spec_home_jobs(h),
        None => Seq::empty(),
    };
    proof {
        assert(job_views(jobs@) =~= path_part + home_part);
    }
    match platform {
        Platform::MacOs => {
            push_job(&mut jobs, String::from_str("/opt/local"), Strategy::Tree);
            push_job(
                &mut jobs,
                String::from_str("/Applications/MAMP/bin/php/"),
                Strategy::Tree,
            );
            proof {
                assert(job_views(jobs@) =~= path_part + home_part + spec_macos_jobs());
            }
        },
        Platform::Linux => {
            push_job(&mut jobs, String::from_str("/usr"), Strategy::Tree);
            push_job(&mut jobs, String::from_str("/opt/remi"), Strategy::Tree);
            proof {
                assert(job_views(jobs@) =~= path_part + home_part + spec_linux_jobs());
            }
        },
        _ => {
            proof {
                assert(job_views(jobs@) =~= path_part + home_part
                    + Seq::<(Seq<char>, Strategy)>::empty());
            }
        },
    }
    Ok(jobs)
}

} // verus!
