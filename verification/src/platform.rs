//! The platforms the application runs on.

use vstd::prelude::*;
use crate::text::str_equal;

verus! {

/// The operating system, as far as the application tells them apart.
#[derive(Clone, Copy, Debug, PartialEq, Eq, Structural)]
pub enum Platform {
    MacOs,
    Windows,
    Linux,
    Other,
}

/// The processor architecture, as far as the application tells them apart.
#[derive(Clone, Copy, Debug, PartialEq, Eq, Structural)]
pub enum Arch {
    X86_64,
    Aarch64,
    Other,
}

/// The platform that the standard library names `os`.
pub open spec fn platform_of(os: Seq<char>) -> Platform {
    if os == "macos"@ {
        Platform::MacOs
    } else if os == "windows"@ {
        Platform::Windows
    } else if os == "linux"@ {
        Platform::Linux
    } else {
        Platform::Other
    }
}

/// The architecture that the standard library or `uname -m` names `arch`.
pub open spec fn arch_of(arch: Seq<char>) -> Arch {
    if arch == "x86_64"@ {
        Arch::X86_64
    } else if arch == "aarch64"@ || arch == "arm64"@ {
        Arch::Aarch64
    } else {
        Arch::Other
    }
}

impl Platform {
    /// Reads the platform from the name the standard library gives the
    /// operating system.
    pub fn from_os_name(os: &str) -> (platform: Platform)
        ensures
            platform == platform_of(os@),
    {
        if str_equal(os, "macos") {
            Platform::MacOs
        } else if str_equal(os, "windows") {
            Platform::Windows
        } else if str_equal(os, "linux") {
            Platform::Linux
        } else {
            Platform::Other
        }
    }
}

impl Arch {
    /// Reads the architecture from its name.
    pub fn from_name(arch: &str) -> (parsed: Arch)
        ensures
            parsed == arch_of(arch@),
    {
        if str_equal(arch, "x86_64") {
            Arch::X86_64
        } else if str_equal(arch, "aarch64") || str_equal(arch, "arm64") {
            Arch::Aarch64
        } else {
            Arch::Other
        }
    }
}

} // verus!
