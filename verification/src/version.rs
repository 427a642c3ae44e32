//! The version tuple a probed interpreter reports.

use vstd::prelude::*;
use vstd::string::StringExecFns;

use crate::text::push_char;
use crate::text::push_u32;
use crate::text::spec_u32_digits;
use crate::text::str_eq;

verus! {

/// A PHP version: three numeric components and an optional textual extra
/// (`RC6`, `beta2`).  `extra` is `None` exactly when the runtime reported an
/// empty fourth component.
#[derive(Debug, Clone)]
pub struct Version {
    pub major: u32,
    pub minor: u32,
    pub release: u32,
    pub extra: Option<String>,
}

/// Equality over all four fields, textual extras compared by content.
pub open spec fn spec_version_eq(a: Version, b: Version) -> bool {
    &&& a.major == b.major
    &&& a.minor == b.minor
    &&& a.release == b.release
    &&& (a.extra is Some <==> b.extra is Some)
    &&& (a.extra is Some ==> a.extra.unwrap()@ == b.extra.unwrap()@)
}

impl Version {
    /// The rendered form `{major}.{minor}.{release}{extra-or-empty}`, with
    /// no separator before the extra.
    pub open spec fn spec_display(self) -> Seq<char> {
        spec_u32_digits(self.major as nat) + seq!['.'] + spec_u32_digits(self.minor as nat)
            + seq!['.'] + spec_u32_digits(self.release as nat) + (if self.extra is Some {
            self.extra.unwrap()@
        } else {
            Seq::<char>::empty()
        })
    }

    /// Render the version, e.g. `8.2.0RC6` or `7.4.11`.
    pub fn to_display_string(&self) -> (r: String)
        ensures
            r@ == self.spec_display(),
    {
        let mut r = String::new();
        push_u32(&mut r, self.major);
        push_char(&mut r, '.');
        push_u32(&mut r, self.minor);
        push_char(&mut r, '.');
        push_u32(&mut r, self.release);
        match &self.extra {
            Some(e) => r.append(e.as_str()),
            None => {},
        }
        assert(r@ =~= self.spec_display());
        r
    }

    /// Whether two versions agree on every field.
    pub fn same_as(&self, other: &Version) -> (r: bool)
        ensures
            r == spec_version_eq(*self, *other),
    {
        if self.major != other.major || self.minor != other.minor || self.release
            != other.release {
            return false;
        }
        match (&self.extra, &other.extra) {
            (None, None) => true,
            (Some(x), Some(y)) => str_eq(x.as_str(), y.as_str()),
            _ => false,
        }
    }
}

} // verus!
