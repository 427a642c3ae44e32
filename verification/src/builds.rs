//! One discovered installation: the `Build` record and the parsing of the
//! two probe outputs it is constructed from.
//!
//! Probing a binary means running it twice — once for a dot-joined version
//! tuple, once for the free-text info dump — and belongs to the embedding
//! program.  The captured texts are handed to [`Build::from_outputs`], which
//! does all the parsing and is verified.

use vstd::prelude::*;
use vstd::string::StrSliceExecFns;
use vstd::string::StringExecFns;

use crate::error::InstallationError;
use crate::paths::join_path;
use crate::paths::file_name;
use crate::paths::parent_dir;
use crate::paths::spec_file_name;
use crate::paths::spec_has_parent;
use crate::paths::spec_join_path;
use crate::paths::spec_parent;
use crate::text::contains_str;
use crate::text::parse_u32;
use crate::text::replace_all;
use crate::text::spec_contains_seq;
use crate::text::spec_parse_u32;
use crate::text::spec_replace;
use crate::text::spec_split;
use crate::text::spec_starts_with;
use crate::text::split_char;
use crate::text::starts_with_str;
use crate::text::str_eq;
use crate::version::Version;
use crate::version::spec_version_eq;
use crate::Platform;

verus! {

/// A build architecture, reported only on the Windows family.
#[derive(Clone, Copy, PartialEq, Eq, Structural, Debug)]
pub enum Architecture {
    X86,
    X64,
    AArch64,
}

/// The architecture named by a short platform token, if recognized.
pub open spec fn spec_arch_of(s: Seq<char>) -> Option<Architecture> {
    if s == "x86"@ {
        Some(Architecture::X86)
    } else if s == "x64"@ {
        Some(Architecture::X64)
    } else if s == "arm64"@ {
        Some(Architecture::AArch64)
    } else {
        None
    }
}

impl Architecture {
    /// Parse a short platform token (`x86`, `x64`, `arm64`).
    pub fn from_token(s: &str) -> (r: Option<Architecture>)
        ensures
            r == spec_arch_of(s@),
    {
        if str_eq(s, "x86") {
            Some(Architecture::X86)
        } else if str_eq(s, "x64") {
            Some(Architecture::X64)
        } else if str_eq(s, "arm64") {
            Some(Architecture::AArch64)
        } else {
            None
        }
    }

    /// The short platform token that names this architecture.
    pub open spec fn spec_token(self) -> Seq<char> {
        match self {
            Architecture::X86 => "x86"@,
            Architecture::X64 => "x64"@,
            Architecture::AArch64 => "arm64"@,
        }
    }

    /// The short platform token naming this architecture.
    pub fn token(&self) -> (r: String)
        ensures
            r@ == self.spec_token(),
    {
        match *self {
            Architecture::X86 => String::from_str("x86"),
            Architecture::X64 => String::from_str("x64"),
            Architecture::AArch64 => String::from_str("arm64"),
        }
    }
}

/// What a left-to-right scan of the info dump has established so far.
pub ghost struct InfoState {
    pub debug: bool,
    pub thread_safety: bool,
    pub php_api: Option<u32>,
    pub zend_api: Option<u32>,
    pub arch_token: Option<Seq<char>>,
}

pub open spec fn init_info_state() -> InfoState {
    InfoState { debug: false, thread_safety: false, php_api: None, zend_api: None, arch_token: None }
}

pub open spec fn ts_label() -> Seq<char> {
    "Thread Safety =>"@
}

pub open spec fn debug_label() -> Seq<char> {
    "Debug Build =>"@
}

pub open spec fn zend_label() -> Seq<char> {
    "Zend Extension => "@
}

pub open spec fn php_label() -> Seq<char> {
    "PHP Extension => "@
}

pub open spec fn arch_label() -> Seq<char> {
    "Architecture => "@
}

/// How one labeled line updates the scan state.  A line is matched by its
/// label prefix; the value follows the `=> ` delimiter.  Thread safety is
/// enabled unless the line mentions `disabled`; a debug build is claimed
/// unless the line mentions `no`.  A later occurrence of a label overrides
/// an earlier one.
pub open spec fn scan_line(st: InfoState, l: Seq<char>) -> InfoState {
    InfoState {
        thread_safety: if spec_starts_with(l, ts_label()) {
            !spec_contains_seq(l, "disabled"@)
        } else {
            st.thread_safety
        },
        debug: if spec_starts_with(l, debug_label()) {
            !spec_contains_seq(l, "no"@)
        } else {
            st.debug
        },
        zend_api: if spec_starts_with(l, zend_label()) {
            spec_parse_u32(l.skip(zend_label().len() as int))
        } else {
            st.zend_api
        },
        php_api: if spec_starts_with(l, php_label()) {
            spec_parse_u32(l.skip(php_label().len() as int))
        } else {
            st.php_api
        },
        arch_token: if spec_starts_with(l, arch_label()) {
            Some(l.skip(arch_label().len() as int))
        } else {
            st.arch_token
        },
    }
}

pub open spec fn scan_lines(lines: Seq<Seq<char>>, st: InfoState) -> InfoState
    decreases lines.len(),
{
    if lines.len() == 0 {
        st
    } else {
        scan_lines(lines.skip(1), scan_line(st, lines[0]))
    }
}

proof fn lemma_scan_lines_snoc(lines: Seq<Seq<char>>, st: InfoState, l: Seq<char>)
    ensures
        scan_lines(lines.push(l), st) == scan_line(scan_lines(lines, st), l),
    decreases lines.len(),
{
    reveal_with_fuel(scan_lines, 3);
    if lines.len() == 0 {
        assert(lines.push(l)[0] == l);
        assert(lines.push(l).skip(1) =~= Seq::<Seq<char>>::empty());
        assert(scan_lines(lines.push(l), st) == scan_lines(
            Seq::<Seq<char>>::empty(),
            scan_line(st, l),
        ));
    } else {
        assert(lines.push(l)[0] == lines[0]);
        assert(lines.push(l).skip(1) =~= lines.skip(1).push(l));
        lemma_scan_lines_snoc(lines.skip(1), scan_line(st, lines[0]), l);
        assert(scan_lines(lines.push(l), st) == scan_lines(
            lines.skip(1).push(l),
            scan_line(st, lines[0]),
        ));
    }
}

/// A line without one trailing carriage return.
pub open spec fn strip_cr(l: Seq<char>) -> Seq<char> {
    if l.len() > 0 && l.last() == '\r' {
        l.drop_last()
    } else {
        l
    }
}

/// The info dump as lines: split on newlines, each line freed of one
/// trailing carriage return.
pub open spec fn spec_info_lines(s: Seq<char>) -> Seq<Seq<char>> {
    spec_split(s, '\n').map_values(|l: Seq<char>| strip_cr(l))
}

/// The state a full scan of the info dump ends in.
pub open spec fn spec_info_state(s: Seq<char>) -> InfoState {
    scan_lines(spec_info_lines(s), init_info_state())
}

/// The per-field outcome of scanning an info dump.
pub struct InfoSummary {
    pub is_debug: bool,
    pub is_thread_safety_enabled: bool,
    pub php_api: Option<u32>,
    pub zend_api: Option<u32>,
    pub architecture_token: Option<String>,
}

/// The scan state an `InfoSummary` stands for.
pub open spec fn summary_state(s: InfoSummary) -> InfoState {
    InfoState {
        debug: s.is_debug,
        thread_safety: s.is_thread_safety_enabled,
        php_api: s.php_api,
        zend_api: s.zend_api,
        arch_token: match s.architecture_token {
            Some(t) => Some(t@),
            None => None,
        },
    }
}

/// Scan a full info dump for the labeled fields.
pub fn scan_info(info: &str) -> (sum: InfoSummary)
    ensures
        summary_state(sum) == spec_info_state(info@),
{
    let raw_lines = split_char(info, '\n');
    let ghost line_views = spec_info_lines(info@);
    let mut sum = InfoSummary {
        is_debug: false,
        is_thread_safety_enabled: false,
        php_api: None,
        zend_api: None,
        architecture_token: None,
    };
    let n = raw_lines.len();
    let mut i: usize = 0;
    proof {
        assert(line_views.take(0) =~= Seq::<Seq<char>>::empty());
    }
    while i < n
        invariant
            0 <= i <= n,
            n == raw_lines@.len(),
            line_views == spec_info_lines(info@),
            line_views.len() == n,
            forall|j: int| 0 <= j < n ==> line_views[j] == strip_cr(raw_lines@[j]@),
            summary_state(sum) == scan_lines(line_views.take(i as int), init_info_state()),
        decreases n - i,
    {
        let raw = &raw_lines[i];
        let rn = raw.unicode_len();
        let stripped: &str = if rn > 0 && raw.as_str().get_char(rn - 1) == '\r' {
            let s = raw.as_str().substring_char(0, rn - 1);
            assert(s@ =~= strip_cr(raw@));
            s
        } else {
            raw.as_str()
        };
        let line: &str = stripped;
        assert(line@ == line_views[i as int]);
        if starts_with_str(line, "Thread Safety =>") {
            sum.is_thread_safety_enabled = !contains_str(line, "disabled");
        }
        if starts_with_str(line, "Debug Build =>") {
            sum.is_debug = !contains_str(line, "no");
        }
        if starts_with_str(line, "Zend Extension => ") {
            let m = "Zend Extension => ".unicode_len();
            let rest = line.substring_char(m, line.unicode_len());
            assert(rest@ =~= line@.skip(zend_label().len() as int));
            sum.zend_api = parse_u32(rest);
        }
        if starts_with_str(line, "PHP Extension => ") {
            let m = "PHP Extension => ".unicode_len();
            let rest = line.substring_char(m, line.unicode_len());
            assert(rest@ =~= line@.skip(php_label().len() as int));
            sum.php_api = parse_u32(rest);
        }
        if starts_with_str(line, "Architecture => ") {
            let m = "Architecture => ".unicode_len();
            let rest = line.substring_char(m, line.unicode_len());
            assert(rest@ =~= line@.skip(arch_label().len() as int));
            sum.architecture_token = Some(rest.to_owned());
        }
        proof {
            lemma_scan_lines_snoc(line_views.take(i as int), init_info_state(), line_views[i as int]);
            assert(line_views.take(i + 1) =~= line_views.take(i as int).push(line_views[i as int]));
        }
        i = i + 1;
    }
    proof {
        assert(line_views.take(n as int) =~= line_views);
    }
    sum
}

/// The dot-separated fields of the version request's output.
pub open spec fn spec_version_parts(s: Seq<char>) -> Seq<Seq<char>> {
    spec_split(s, '.')
}

/// The output is well formed: at least four fields, the first three numeric.
pub open spec fn spec_version_ok(s: Seq<char>) -> bool {
    let p = spec_version_parts(s);
    &&& p.len() >= 4
    &&& spec_parse_u32(p[0]) is Some
    &&& spec_parse_u32(p[1]) is Some
    &&& spec_parse_u32(p[2]) is Some
}

/// `v` is the version the well-formed output `s` describes.
pub open spec fn spec_version_of(s: Seq<char>, v: Version) -> bool {
    let p = spec_version_parts(s);
    &&& Some(v.major) == spec_parse_u32(p[0])
    &&& Some(v.minor) == spec_parse_u32(p[1])
    &&& Some(v.release) == spec_parse_u32(p[2])
    &&& (v.extra is Some <==> p[3].len() > 0)
    &&& (v.extra is Some ==> v.extra.unwrap()@ == p[3])
}

/// Parse the version request's output: four `.`-joined fields in the order
/// major, minor, release, extra, the extra empty when absent.
pub fn parse_version_output(s: &str) -> (r: Result<Version, InstallationError>)
    ensures
        match r {
            Ok(v) => spec_version_ok(s@) && spec_version_of(s@, v),
            Err(e) => !spec_version_ok(s@) && e is MalformedVersionOutput,
        },
{
    let parts = split_char(s, '.');
    if parts.len() < 4 {
        return Err(InstallationError::MalformedVersionOutput);
    }
    assert(parts@[0]@ == spec_version_parts(s@)[0]);
    assert(parts@[1]@ == spec_version_parts(s@)[1]);
    assert(parts@[2]@ == spec_version_parts(s@)[2]);
    assert(parts@[3]@ == spec_version_parts(s@)[3]);
    let major = match parse_u32(parts[0].as_str()) {
        Some(x) => x,
        None => {
            return Err(InstallationError::MalformedVersionOutput);
        },
    };
    let minor = match parse_u32(parts[1].as_str()) {
        Some(x) => x,
        None => {
            return Err(InstallationError::MalformedVersionOutput);
        },
    };
    let release = match parse_u32(parts[2].as_str()) {
        Some(x) => x,
        None => {
            return Err(InstallationError::MalformedVersionOutput);
        },
    };
    let extra_part = &parts[3];
    let extra = if extra_part.as_str().unicode_len() == 0 {
        None
    } else {
        Some(extra_part.clone())
    };
    Ok(Version { major, minor, release, extra })
}

/// One discovered PHP installation.  `directory` is always the parent of
/// `binary`; `architecture` is present exactly on Windows-family builds.
#[derive(Debug, Clone)]
pub struct Build {
    pub version: Version,
    pub binary: String,
    pub directory: String,
    pub is_debug: bool,
    pub is_thread_safety_enabled: bool,
    pub php_api: u32,
    pub zend_api: u32,
    pub architecture: Option<Architecture>,
}

/// Full equality of two build records: every attribute, paths compared as
/// written (a symlink path and its target count as distinct builds).
pub open spec fn spec_build_eq(a: Build, b: Build) -> bool {
    &&& spec_version_eq(a.version, b.version)
    &&& a.binary@ == b.binary@
    &&& a.directory@ == b.directory@
    &&& a.is_debug == b.is_debug
    &&& a.is_thread_safety_enabled == b.is_thread_safety_enabled
    &&& a.php_api == b.php_api
    &&& a.zend_api == b.zend_api
    &&& a.architecture == b.architecture
}

/// Probing succeeds when the version output is well formed, both API
/// versions appear in the info dump, and — on the Windows family — a
/// recognized architecture does too.
pub open spec fn spec_probe_ok(vout: Seq<char>, iout: Seq<char>, windows: bool) -> bool {
    let st = spec_info_state(iout);
    &&& spec_version_ok(vout)
    &&& st.php_api is Some
    &&& st.zend_api is Some
    &&& (windows ==> st.arch_token is Some && spec_arch_of(st.arch_token.unwrap()) is Some)
}

impl Build {
    /// `b` is the record that probing `binary` with these outputs yields.
    pub open spec fn spec_from_outputs(
        b: Build,
        binary: Seq<char>,
        vout: Seq<char>,
        iout: Seq<char>,
        windows: bool,
    ) -> bool {
        let st = spec_info_state(iout);
        &&& spec_version_of(vout, b.version)
        &&& b.binary@ == binary
        &&& b.directory@ == spec_parent(binary)
        &&& b.is_debug == st.debug
        &&& b.is_thread_safety_enabled == st.thread_safety
        &&& Some(b.php_api) == st.php_api
        &&& Some(b.zend_api) == st.zend_api
        &&& b.architecture == (if windows {
            spec_arch_of(st.arch_token.unwrap())
        } else {
            Option::<Architecture>::None
        })
    }

    /// Build the record for `binary` from the two captured probe outputs:
    /// `version_output` from the version request, `info_output` from the
    /// info-dump request, both already trimmed of surrounding whitespace.
    pub fn from_outputs(
        binary: String,
        version_output: &str,
        info_output: &str,
        platform: Platform,
    ) -> (r: Result<Build, InstallationError>)
        requires
            spec_has_parent(binary@),
        ensures
            r is Ok <==> spec_probe_ok(
                version_output@,
                info_output@,
                platform.spec_is_windows(),
            ),
            match r {
                Ok(b) => Self::spec_from_outputs(
                    b,
                    binary@,
                    version_output@,
                    info_output@,
                    platform.spec_is_windows(),
                ),
                Err(e) => {
                    let st = spec_info_state(info_output@);
                    if !spec_version_ok(version_output@) {
                        e is MalformedVersionOutput
                    } else if st.php_api is None || st.zend_api is None {
                        e is FailedToRetrieveAPIVersion
                    } else {
                        e is FailedToRetrieveArch
                    }
                },
            },
    {
        let version = match parse_version_output(version_output) {
            Ok(v) => v,
            Err(e) => {
                return Err(e);
            },
        };
        let directory = match parent_dir(binary.as_str()) {
            Some(d) => d,
            None => {
                // excluded by the precondition: the binary path has a parent
                assert(false);
                return Err(InstallationError::MalformedVersionOutput);
            },
        };
        let sum = scan_info(info_output);
        let php_api = match sum.php_api {
            Some(x) => x,
            None => {
                return Err(InstallationError::FailedToRetrieveAPIVersion);
            },
        };
        let zend_api = match sum.zend_api {
            Some(x) => x,
            None => {
                return Err(InstallationError::FailedToRetrieveAPIVersion);
            },
        };
        let architecture = if platform.is_windows() {
            match &sum.architecture_token {
                Some(t) => match Architecture::from_token(t.as_str()) {
                    Some(a) => Some(a),
                    None => {
                        return Err(InstallationError::FailedToRetrieveArch);
                    },
                },
                None => {
                    return Err(InstallationError::FailedToRetrieveArch);
                },
            }
        } else {
            None
        };
        Ok(Build {
            version,
            binary,
            directory,
            is_debug: sum.is_debug,
            is_thread_safety_enabled: sum.is_thread_safety_enabled,
            php_api,
            zend_api,
            architecture,
        })
    }

    /// The path a sibling tool of this binary would have: the binary's file
    /// name with every `php` token replaced by `tool`, in the same
    /// directory.  `None` when the binary path has no file-name part.
    /// Existence on disk is for the embedding program to test.
    pub open spec fn spec_sibling(self, tool: Seq<char>, windows: bool) -> Option<Seq<char>> {
        let name = spec_file_name(self.binary@);
        if name.len() == 0 {
            None
        } else {
            Some(
                spec_join_path(self.directory@, spec_replace(name, "php"@, tool), if windows {
                    '\\'
                } else {
                    '/'
                }),
            )
        }
    }

    /// Compute a sibling tool's candidate path.
    pub fn sibling_candidate(&self, tool: &str, platform: Platform) -> (r: Option<String>)
        ensures
            match r {
                Some(p) => Some(p@) == self.spec_sibling(tool@, platform.spec_is_windows()),
                None => self.spec_sibling(tool@, platform.spec_is_windows()) is None,
            },
    {
        let name = file_name(self.binary.as_str());
        if name.as_str().unicode_len() == 0 {
            return None;
        }
        let sibling = replace_all(name.as_str(), "php", tool);
        Some(join_path(self.directory.as_str(), sibling.as_str(), platform.is_windows()))
    }

    /// Candidate path of the accompanying `php-config` tool.
    pub fn config_candidate(&self, platform: Platform) -> (r: Option<String>)
        ensures
            match r {
                Some(p) => Some(p@) == self.spec_sibling("php-config"@, platform.spec_is_windows()),
                None => self.spec_sibling("php-config"@, platform.spec_is_windows()) is None,
            },
    {
        self.sibling_candidate("php-config", platform)
    }

    /// Candidate path of the accompanying CGI binary.
    pub fn cgi_candidate(&self, platform: Platform) -> (r: Option<String>)
        ensures
            match r {
                Some(p) => Some(p@) == self.spec_sibling("php-cgi"@, platform.spec_is_windows()),
                None => self.spec_sibling("php-cgi"@, platform.spec_is_windows()) is None,
            },
    {
        self.sibling_candidate("php-cgi", platform)
    }

    /// Candidate path of the accompanying `phpize` tool.
    pub fn phpize_candidate(&self, platform: Platform) -> (r: Option<String>)
        ensures
            match r {
                Some(p) => Some(p@) == self.spec_sibling("phpize"@, platform.spec_is_windows()),
                None => self.spec_sibling("phpize"@, platform.spec_is_windows()) is None,
            },
    {
        self.sibling_candidate("phpize", platform)
    }

    /// Candidate path of the accompanying `phpdbg` debugger.
    pub fn phpdbg_candidate(&self, platform: Platform) -> (r: Option<String>)
        ensures
            match r {
                Some(p) => Some(p@) == self.spec_sibling("phpdbg"@, platform.spec_is_windows()),
                None => self.spec_sibling("phpdbg"@, platform.spec_is_windows()) is None,
            },
    {
        self.sibling_candidate("phpdbg", platform)
    }

    /// Whether two build records agree on every attribute.
    pub fn same_as(&self, other: &Build) -> (r: bool)
        ensures
            r == spec_build_eq(*self, *other),
    {
        if !self.version.same_as(&other.version) {
            return false;
        }
        if !str_eq(self.binary.as_str(), other.binary.as_str()) {
            return false;
        }
        if !str_eq(self.directory.as_str(), other.directory.as_str()) {
            return false;
        }
        if self.is_debug != other.is_debug || self.is_thread_safety_enabled
            != other.is_thread_safety_enabled {
            return false;
        }
        if self.php_api != other.php_api || self.zend_api != other.zend_api {
            return false;
        }
        match (&self.architecture, &other.architecture) {
            (None, None) => true,
            (Some(a), Some(b)) => *a == *b,
            _ => false,
        }
    }
}

} // verus!
