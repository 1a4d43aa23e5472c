//! Normalizing the host operating system and CPU architecture into the
//! (os, arch, extension) triple that artifact names are built from.

use vstd::prelude::*;

use crate::errors::Error;

verus! {

/// Host operating system.
#[derive(Clone, Copy, PartialEq, Eq, Structural)]
pub enum Os {
    Mac,
    Linux,
    Windows,
}

/// Host CPU architecture.
#[derive(Clone, Copy, PartialEq, Eq, Structural)]
pub enum Arch {
    Aarch64,
    X8664,
    X86,
}

/// The normalized platform description used to build artifact names.
pub struct PlatformTriple {
    pub os: String,
    pub arch: String,
    pub extension: String,
}

/// The name a release artifact carries for an operating system.
pub open spec fn spec_os_name(os: Os) -> Seq<char> {
    match os {
        Os::Mac => "darwin"@,
        Os::Linux => "linux"@,
        Os::Windows => "windows"@,
    }
}

/// The name a release artifact carries for an architecture.
pub open spec fn spec_arch_name(arch: Arch) -> Seq<char> {
    match arch {
        Arch::Aarch64 => "arm64"@,
        Arch::X8664 => "amd64"@,
        Arch::X86 => Seq::empty(),
    }
}

/// The executable-file extension of an operating system.
pub open spec fn spec_extension(os: Os) -> Seq<char> {
    match os {
        Os::Mac => ""@,
        Os::Linux => ""@,
        Os::Windows => ".exe"@,
    }
}

/// Resolves (os, arch) into the normalized triple. Fails exactly on x86,
/// which has no published artifacts; the executable extension of the
/// result is `.exe` exactly when the operating system is Windows.
pub fn describe_platform(os: Os, arch: Arch) -> (r: Result<PlatformTriple, Error>)
    ensures
        r is Ok <==> !(arch is X86),
        arch is X86 ==> (r matches Err(e) && e is UnsupportedPlatform),
        r matches Ok(t) ==> (t.os@ == spec_os_name(os) && t.arch@ == spec_arch_name(arch)
            && t.extension@ == spec_extension(os)),
        r matches Ok(t) ==> ((t.extension@ == ".exe"@) <==> os is Windows),
{
    proof {
        reveal_strlit("");
        reveal_strlit(".exe");
    }
    let arch_name = match arch {
        Arch::Aarch64 => String::from_str("arm64"),
        Arch::X8664 => String::from_str("amd64"),
        Arch::X86 => {
            return Err(Error::UnsupportedPlatform);
        },
    };
    let os_name = match os {
        Os::Mac => String::from_str("darwin"),
        Os::Linux => String::from_str("linux"),
        Os::Windows => String::from_str("windows"),
    };
    let extension = match os {
        Os::Mac => String::from_str(""),
        Os::Linux => String::from_str(""),
        Os::Windows => String::from_str(".exe"),
    };
    Ok(PlatformTriple { os: os_name, arch: arch_name, extension })
}

} // verus!
