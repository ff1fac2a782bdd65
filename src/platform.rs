//! The platform triple that names a build, from the host's operating system,
//! architecture and C library.
use vstd::prelude::*;
use crate::error::UpdateError;
use crate::text::same_text;

verus! {

/// Operating system of the host.
#[derive(Clone, Copy, Debug, PartialEq, Eq)]
pub enum Os {
    MacOs,
    Linux,
    Windows,
    Other,
}

/// Processor architecture of the host.
#[derive(Clone, Copy, Debug, PartialEq, Eq)]
pub enum Arch {
    X86_64,
    Aarch64,
    Other,
}

/// C library that the host's programs link against.
#[derive(Clone, Copy, Debug, PartialEq, Eq)]
pub enum Libc {
    Gnu,
    Musl,
    Other,
}

/// The operating system that a name such as `"linux"` stands for.
pub open spec fn os_named(n: Seq<char>) -> Os {
    if n == "macos"@ {
        Os::MacOs
    } else if n == "linux"@ {
        Os::Linux
    } else if n == "windows"@ {
        Os::Windows
    } else {
        Os::Other
    }
}

/// The architecture that a name such as `"x86_64"` stands for.
pub open spec fn arch_named(n: Seq<char>) -> Arch {
    if n == "x86_64"@ {
        Arch::X86_64
    } else if n == "aarch64"@ {
        Arch::Aarch64
    } else {
        Arch::Other
    }
}

/// The C library that a name such as `"musl"` stands for.
pub open spec fn libc_named(n: Seq<char>) -> Libc {
    if n == "gnu"@ {
        Libc::Gnu
    } else if n == "musl"@ {
        Libc::Musl
    } else {
        Libc::Other
    }
}

/// The triple published for a host, or `None` for an unsupported one. On
/// Linux any C library other than musl gets the glibc build.
pub open spec fn triple_for(os: Os, arch: Arch, libc: Libc) -> Option<Seq<char>> {
    match (os, arch) {
        (Os::MacOs, Arch::Aarch64) => Some("aarch64-apple-darwin"@),
        (Os::MacOs, Arch::X86_64) => Some("x86_64-apple-darwin"@),
        (Os::Linux, Arch::X86_64) => if libc == Libc::Musl {
            Some("x86_64-unknown-linux-musl"@)
        } else {
            Some("x86_64-unknown-linux-gnu"@)
        },
        (Os::Linux, Arch::Aarch64) => if libc == Libc::Musl {
            Some("aarch64-unknown-linux-musl"@)
        } else {
            Some("aarch64-unknown-linux-gnu"@)
        },
        (Os::Windows, Arch::X86_64) => Some("x86_64-pc-windows-msvc.exe"@),
        _ => None,
    }
}

impl Os {
    /// Reads the name that Rust gives an operating system.
    pub fn from_name(name: &str) -> (r: Os)
        ensures
            r == os_named(name@),
    {
        if same_text(name, "macos") {
            Os::MacOs
        } else if same_text(name, "linux") {
            Os::Linux
        } else if same_text(name, "windows") {
            Os::Windows
        } else {
            Os::Other
        }
    }
}

impl Arch {
    /// Reads the name that Rust gives an architecture.
    pub fn from_name(name: &str) -> (r: Arch)
        ensures
            r == arch_named(name@),
    {
        if same_text(name, "x86_64") {
            Arch::X86_64
        } else if same_text(name, "aarch64") {
            Arch::Aarch64
        } else {
            Arch::Other
        }
    }
}

impl Libc {
    /// Reads the name that Rust gives a target environment.
    pub fn from_name(name: &str) -> (r: Libc)
        ensures
            r == libc_named(name@),
    {
        if same_text(name, "gnu") {
            Libc::Gnu
        } else if same_text(name, "musl") {
            Libc::Musl
        } else {
            Libc::Other
        }
    }
}

/// The platform triple of the build for this host.
pub fn get_target_arch(os: Os, arch: Arch, libc: Libc) -> (r: Result<String, UpdateError>)
    ensures
        triple_for(os, arch, libc) matches Some(t) ==> (r matches Ok(s) && s@ == t),
        triple_for(os, arch, libc) is None ==> (r matches Err(UpdateError::UnsupportedPlatform)),
{
    match (os, arch) {
        (Os::MacOs, Arch::Aarch64) => Ok(String::from_str("aarch64-apple-darwin")),
        (Os::MacOs, Arch::X86_64) => Ok(String::from_str("x86_64-apple-darwin")),
        (Os::Linux, Arch::X86_64) => match libc {
            Libc::Musl => Ok(String::from_str("x86_64-unknown-linux-musl")),
            _ => Ok(String::from_str("x86_64-unknown-linux-gnu")),
        },
        (Os::Linux, Arch::Aarch64) => match libc {
            Libc::Musl => Ok(String::from_str("aarch64-unknown-linux-musl")),
            _ => Ok(String::from_str("aarch64-unknown-linux-gnu")),
        },
        (Os::Windows, Arch::X86_64) => Ok(String::from_str("x86_64-pc-windows-msvc.exe")),
        _ => Err(UpdateError::UnsupportedPlatform),
    }
}

} // verus!
