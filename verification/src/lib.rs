//! Discovery of installed PHP interpreter builds.
//!
//! The library holds the decision logic of the discovery pipeline: which
//! filenames look like interpreter binaries, how the output of a probed
//! binary is parsed into a [`builds::Build`] record, how discovered records
//! are deduplicated, and which filesystem locations are worth scanning.
//! All filesystem access, environment access and subprocess execution is
//! left to the embedding program, which feeds plain values in and out.

use vstd::prelude::*;

pub mod builds;
pub mod error;
pub mod locations;
pub mod matcher;
pub mod paths;
pub mod scanner;
pub mod text;
pub mod version;

verus! {

/// The platform family the discovery runs on.  Scanning policy, path
/// separators and the presence of the `architecture` field all depend on it.
#[derive(Clone, Copy, PartialEq, Eq, Structural, Debug)]
pub enum Platform {
    Linux,
    MacOs,
    OtherUnix,
    Windows,
}

impl Platform {
    /// True on the Windows family, where binaries carry extensions and
    /// builds report an architecture.
    pub open spec fn spec_is_windows(self) -> bool {
        self is Windows
    }

    #[verifier::when_used_as_spec(spec_is_windows)]
    pub fn is_windows(self) -> (r: bool)
        ensures
            r == self.spec_is_windows(),
    {
        match self {
            Platform::Windows => true,
            _ => false,
        }
    }
}

} // verus!
