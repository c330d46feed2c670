//! The platforms on which a pipe can be created, and how each creates it.

use vstd::prelude::*;

verus! {

/// An operating system that this crate can create a pipe on.
#[derive(Clone, Copy, Debug, PartialEq, Eq)]
pub enum Platform {
    Android,
    DragonFly,
    FreeBsd,
    Linux,
    NetBsd,
    OpenBsd,
    Ios,
    MacOs,
    Solaris,
}

impl Platform {
    /// Whether the platform has `pipe2(2)`, which creates a pipe and sets its
    /// flags in one call. iOS, macOS and Solaris lack it.
    pub open spec fn spec_has_pipe2(self) -> bool {
        !(self is Ios || self is MacOs || self is Solaris)
    }

    /// Whether the platform has `pipe2(2)`, which creates a pipe and sets its
    /// flags in one call. iOS, macOS and Solaris lack it.
    #[verifier::when_used_as_spec(spec_has_pipe2)]
    pub fn has_pipe2(self) -> (has: bool)
        ensures
            has == self.spec_has_pipe2(),
    {
        match self {
            Platform::Android
            | Platform::DragonFly
            | Platform::FreeBsd
            | Platform::Linux
            | Platform::NetBsd
            | Platform::OpenBsd => true,
            Platform::Ios | Platform::MacOs | Platform::Solaris => false,
        }
    }
}

} // verus!
