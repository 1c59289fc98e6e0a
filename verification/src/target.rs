//! What the program is built for.

use vstd::prelude::*;

verus! {

/// What the program is built for: the platform family, the operating system and
/// the optional features that decide which command line options exist.
#[derive(Clone, Copy, PartialEq, Eq, Structural)]
pub struct Target {
    /// A Unix-like platform.
    pub unix: bool,
    /// The operating system is Linux.
    pub linux: bool,
    /// The operating system is Android.
    pub android: bool,
    /// The operating system is FreeBSD.
    pub freebsd: bool,
    /// Logging is compiled in.
    pub logging: bool,
    /// The multi-threaded runtime is compiled in.
    pub multi_threaded: bool,
}

impl Target {
    /// Whether the limit on open files can be set.
    pub open spec fn limits_files(self) -> bool {
        self.unix && !self.android
    }

    /// Whether outbound sockets can carry a firewall mark.
    pub open spec fn marks_sockets(self) -> bool {
        self.linux || self.android
    }
}

} // verus!
