//! The operating-system plugin's data model: the closed enumerations the host
//! reports, and the wire names under which it reports them.
//!
//! The host hands each value over as a short lower-case string; `parse` turns
//! a wire name into the enumeration and `name` renders it back. Parsing a
//! value's own name always recovers the value (see the round-trip lemmas).

use crate::text::str_eq;
use crate::Error;
use vstd::prelude::*;
use vstd::string::StringExecFns;

verus! {

/// A CPU architecture the host may report.
#[derive(Debug, Clone, Copy, PartialEq, Eq, Structural)]
pub enum Arch {
    X86,
    X86_64,
    Arm,
    Aarch64,
    Mips,
    Mips64,
    Powerpc,
    Powerpc64,
    Riscv64,
    S390x,
    Sparc64,
}

impl Arch {
    /// The wire name under which the host reports this architecture.
    pub open spec fn spec_name(self) -> Seq<char> {
        match self {
            Arch::X86 => "x86"@,
            Arch::X86_64 => "x86_64"@,
            Arch::Arm => "arm"@,
            Arch::Aarch64 => "aarch64"@,
            Arch::Mips => "mips"@,
            Arch::Mips64 => "mips64"@,
            Arch::Powerpc => "powerpc"@,
            Arch::Powerpc64 => "powerpc64"@,
            Arch::Riscv64 => "riscv64"@,
            Arch::S390x => "s390x"@,
            Arch::Sparc64 => "sparc64"@,
        }
    }

    /// The architecture a wire name stands for, if any.
    pub open spec fn spec_parse(s: Seq<char>) -> Option<Arch> {
        if s == "x86"@ {
            Some(Arch::X86)
        } else if s == "x86_64"@ {
            Some(Arch::X86_64)
        } else if s == "arm"@ {
            Some(Arch::Arm)
        } else if s == "aarch64"@ {
            Some(Arch::Aarch64)
        } else if s == "mips"@ {
            Some(Arch::Mips)
        } else if s == "mips64"@ {
            Some(Arch::Mips64)
        } else if s == "powerpc"@ {
            Some(Arch::Powerpc)
        } else if s == "powerpc64"@ {
            Some(Arch::Powerpc64)
        } else if s == "riscv64"@ {
            Some(Arch::Riscv64)
        } else if s == "s390x"@ {
            Some(Arch::S390x)
        } else if s == "sparc64"@ {
            Some(Arch::Sparc64)
        } else {
            None
        }
    }

    /// The wire name under which the host reports this architecture.
    pub fn name(&self) -> (r: &'static str)
        ensures
            r@ == self.spec_name(),
    {
        match self {
            Arch::X86 => "x86",
            Arch::X86_64 => "x86_64",
            Arch::Arm => "arm",
            Arch::Aarch64 => "aarch64",
            Arch::Mips => "mips",
            Arch::Mips64 => "mips64",
            Arch::Powerpc => "powerpc",
            Arch::Powerpc64 => "powerpc64",
            Arch::Riscv64 => "riscv64",
            Arch::S390x => "s390x",
            Arch::Sparc64 => "sparc64",
        }
    }

    /// Read a wire name back into an architecture; any other string means nothing.
    pub fn parse(s: &str) -> (r: Option<Arch>)
        ensures
            r == Self::spec_parse(s@),
    {
        if str_eq(s, "x86") {
            Some(Arch::X86)
        } else if str_eq(s, "x86_64") {
            Some(Arch::X86_64)
        } else if str_eq(s, "arm") {
            Some(Arch::Arm)
        } else if str_eq(s, "aarch64") {
            Some(Arch::Aarch64)
        } else if str_eq(s, "mips") {
            Some(Arch::Mips)
        } else if str_eq(s, "mips64") {
            Some(Arch::Mips64)
        } else if str_eq(s, "powerpc") {
            Some(Arch::Powerpc)
        } else if str_eq(s, "powerpc64") {
            Some(Arch::Powerpc64)
        } else if str_eq(s, "riscv64") {
            Some(Arch::Riscv64)
        } else if str_eq(s, "s390x") {
            Some(Arch::S390x)
        } else if str_eq(s, "sparc64") {
            Some(Arch::Sparc64)
        } else {
            None
        }
    }
}

/// Parsing an architecture's own wire name always recovers the architecture:
/// the names are pairwise distinct.
pub proof fn lemma_arch_name_round_trip(a: Arch)
    ensures
        Arch::spec_parse(a.spec_name()) == Some(a),
{
    reveal_strlit("x86");
    reveal_strlit("x86_64");
    reveal_strlit("arm");
    reveal_strlit("aarch64");
    reveal_strlit("mips");
    reveal_strlit("mips64");
    reveal_strlit("powerpc");
    reveal_strlit("powerpc64");
    reveal_strlit("riscv64");
    reveal_strlit("s390x");
    reveal_strlit("sparc64");
    assert("x86"@.len() == 3 && "x86"@[0] == 'x');
    assert("x86_64"@.len() == 6 && "x86_64"@[0] == 'x');
    assert("arm"@.len() == 3 && "arm"@[0] == 'a');
    assert("aarch64"@.len() == 7 && "aarch64"@[0] == 'a');
    assert("mips"@.len() == 4 && "mips"@[0] == 'm');
    assert("mips64"@.len() == 6 && "mips64"@[0] == 'm');
    assert("powerpc"@.len() == 7 && "powerpc"@[0] == 'p');
    assert("powerpc64"@.len() == 9 && "powerpc64"@[0] == 'p');
    assert("riscv64"@.len() == 7 && "riscv64"@[0] == 'r');
    assert("s390x"@.len() == 5 && "s390x"@[0] == 's');
    assert("sparc64"@.len() == 7 && "sparc64"@[0] == 's');
}

/// An operating-system platform the host may report.
#[derive(Debug, Clone, Copy, PartialEq, Eq, Structural)]
pub enum Platform {
    Linux,
    Macos,
    Ios,
    Freebsd,
    Dragonfly,
    Netbsd,
    Openbsd,
    Solaris,
    Android,
    Windows,
}

impl Platform {
    /// The wire name under which the host reports this platform.
    pub open spec fn spec_name(self) -> Seq<char> {
        match self {
            Platform::Linux => "linux"@,
            Platform::Macos => "macos"@,
            Platform::Ios => "ios"@,
            Platform::Freebsd => "freebsd"@,
            Platform::Dragonfly => "dragonfly"@,
            Platform::Netbsd => "netbsd"@,
            Platform::Openbsd => "openbsd"@,
            Platform::Solaris => "solaris"@,
            Platform::Android => "android"@,
            Platform::Windows => "windows"@,
        }
    }

    /// The platform a wire name stands for, if any.
    pub open spec fn spec_parse(s: Seq<char>) -> Option<Platform> {
        if s == "linux"@ {
            Some(Platform::Linux)
        } else if s == "macos"@ {
            Some(Platform::Macos)
        } else if s == "ios"@ {
            Some(Platform::Ios)
        } else if s == "freebsd"@ {
            Some(Platform::Freebsd)
        } else if s == "dragonfly"@ {
            Some(Platform::Dragonfly)
        } else if s == "netbsd"@ {
            Some(Platform::Netbsd)
        } else if s == "openbsd"@ {
            Some(Platform::Openbsd)
        } else if s == "solaris"@ {
            Some(Platform::Solaris)
        } else if s == "android"@ {
            Some(Platform::Android)
        } else if s == "windows"@ {
            Some(Platform::Windows)
        } else {
            None
        }
    }

    /// The wire name under which the host reports this platform.
    pub fn name(&self) -> (r: &'static str)
        ensures
            r@ == self.spec_name(),
    {
        match self {
            Platform::Linux => "linux",
            Platform::Macos => "macos",
            Platform::Ios => "ios",
            Platform::Freebsd => "freebsd",
            Platform::Dragonfly => "dragonfly",
            Platform::Netbsd => "netbsd",
            Platform::Openbsd => "openbsd",
            Platform::Solaris => "solaris",
            Platform::Android => "android",
            Platform::Windows => "windows",
        }
    }

    /// Read a wire name back into a platform; any other string means nothing.
    pub fn parse(s: &str) -> (r: Option<Platform>)
        ensures
            r == Self::spec_parse(s@),
    {
        if str_eq(s, "linux") {
            Some(Platform::Linux)
        } else if str_eq(s, "macos") {
            Some(Platform::Macos)
        } else if str_eq(s, "ios") {
            Some(Platform::Ios)
        } else if str_eq(s, "freebsd") {
            Some(Platform::Freebsd)
        } else if str_eq(s, "dragonfly") {
            Some(Platform::Dragonfly)
        } else if str_eq(s, "netbsd") {
            Some(Platform::Netbsd)
        } else if str_eq(s, "openbsd") {
            Some(Platform::Openbsd)
        } else if str_eq(s, "solaris") {
            Some(Platform::Solaris)
        } else if str_eq(s, "android") {
            Some(Platform::Android)
        } else if str_eq(s, "windows") {
            Some(Platform::Windows)
        } else {
            None
        }
    }
}

/// Parsing a platform's own wire name always recovers the platform: the names
/// are pairwise distinct.
pub proof fn lemma_platform_name_round_trip(p: Platform)
    ensures
        Platform::spec_parse(p.spec_name()) == Some(p),
{
    reveal_strlit("linux");
    reveal_strlit("macos");
    reveal_strlit("ios");
    reveal_strlit("freebsd");
    reveal_strlit("dragonfly");
    reveal_strlit("netbsd");
    reveal_strlit("openbsd");
    reveal_strlit("solaris");
    reveal_strlit("android");
    reveal_strlit("windows");
    assert("linux"@.len() == 5 && "linux"@[0] == 'l');
    assert("macos"@.len() == 5 && "macos"@[0] == 'm');
    assert("ios"@.len() == 3 && "ios"@[0] == 'i');
    assert("freebsd"@.len() == 7 && "freebsd"@[0] == 'f');
    assert("dragonfly"@.len() == 9 && "dragonfly"@[0] == 'd');
    assert("netbsd"@.len() == 6 && "netbsd"@[0] == 'n');
    assert("openbsd"@.len() == 7 && "openbsd"@[0] == 'o');
    assert("solaris"@.len() == 7 && "solaris"@[0] == 's');
    assert("android"@.len() == 7 && "android"@[0] == 'a');
    assert("windows"@.len() == 7 && "windows"@[0] == 'w');
}

/// An operating-system kind the host may report.
#[derive(Debug, Clone, Copy, PartialEq, Eq, Structural)]
pub enum OsKind {
    Linux,
    Windows,
    Macos,
    Ios,
    Android,
}

impl OsKind {
    /// The wire name under which the host reports this kind.
    pub open spec fn spec_name(self) -> Seq<char> {
        match self {
            OsKind::Linux => "linux"@,
            OsKind::Windows => "windows"@,
            OsKind::Macos => "macos"@,
            OsKind::Ios => "ios"@,
            OsKind::Android => "android"@,
        }
    }

    /// The kind a wire name stands for, if any.
    pub open spec fn spec_parse(s: Seq<char>) -> Option<OsKind> {
        if s == "linux"@ {
            Some(OsKind::Linux)
        } else if s == "windows"@ {
            Some(OsKind::Windows)
        } else if s == "macos"@ {
            Some(OsKind::Macos)
        } else if s == "ios"@ {
            Some(OsKind::Ios)
        } else if s == "android"@ {
            Some(OsKind::Android)
        } else {
            None
        }
    }

    /// The wire name under which the host reports this kind.
    pub fn name(&self) -> (r: &'static str)
        ensures
            r@ == self.spec_name(),
    {
        match self {
            OsKind::Linux => "linux",
            OsKind::Windows => "windows",
            OsKind::Macos => "macos",
            OsKind::Ios => "ios",
            OsKind::Android => "android",
        }
    }

    /// Read a wire name back into a kind; any other string means nothing.
    pub fn parse(s: &str) -> (r: Option<OsKind>)
        ensures
            r == Self::spec_parse(s@),
    {
        if str_eq(s, "linux") {
            Some(OsKind::Linux)
        } else if str_eq(s, "windows") {
            Some(OsKind::Windows)
        } else if str_eq(s, "macos") {
            Some(OsKind::Macos)
        } else if str_eq(s, "ios") {
            Some(OsKind::Ios)
        } else if str_eq(s, "android") {
            Some(OsKind::Android)
        } else {
            None
        }
    }
}

/// Parsing a kind's own wire name always recovers the kind: the names are
/// pairwise distinct.
pub proof fn lemma_os_kind_name_round_trip(k: OsKind)
    ensures
        OsKind::spec_parse(k.spec_name()) == Some(k),
{
    reveal_strlit("linux");
    reveal_strlit("windows");
    reveal_strlit("macos");
    reveal_strlit("ios");
    reveal_strlit("android");
    assert("linux"@.len() == 5 && "linux"@[0] == 'l');
    assert("windows"@.len() == 7 && "windows"@[0] == 'w');
    assert("macos"@.len() == 5 && "macos"@[0] == 'm');
    assert("ios"@.len() == 3 && "ios"@[0] == 'i');
    assert("android"@.len() == 7 && "android"@[0] == 'a');
}

/// Read the wire name the host reported for its architecture; a name outside
/// the enumeration is a parse failure.
pub fn arch_from_name(s: &str) -> (r: Result<Arch, Error>)
    ensures
        Arch::spec_parse(s@) matches Some(a) ==> r == Ok::<Arch, Error>(a),
        Arch::spec_parse(s@) is None ==> (r matches Err(e) && e matches Error::Serde(m) && m@
            == "unknown value: "@ + s@),
{
    match Arch::parse(s) {
        Some(a) => Ok(a),
        None => Err(Error::Serde(String::from_str("unknown value: ").concat(s))),
    }
}

/// Read the wire name the host reported for its platform; a name outside the
/// enumeration is a parse failure.
pub fn platform_from_name(s: &str) -> (r: Result<Platform, Error>)
    ensures
        Platform::spec_parse(s@) matches Some(p) ==> r == Ok::<Platform, Error>(p),
        Platform::spec_parse(s@) is None ==> (r matches Err(e) && e matches Error::Serde(m) && m@
            == "unknown value: "@ + s@),
{
    match Platform::parse(s) {
        Some(p) => Ok(p),
        None => Err(Error::Serde(String::from_str("unknown value: ").concat(s))),
    }
}

/// Read the wire name the host reported for its operating-system kind; a
/// name outside the enumeration is a parse failure.
pub fn os_kind_from_name(s: &str) -> (r: Result<OsKind, Error>)
    ensures
        OsKind::spec_parse(s@) matches Some(k) ==> r == Ok::<OsKind, Error>(k),
        OsKind::spec_parse(s@) is None ==> (r matches Err(e) && e matches Error::Serde(m) && m@
            == "unknown value: "@ + s@),
{
    match OsKind::parse(s) {
        Some(k) => Ok(k),
        None => Err(Error::Serde(String::from_str("unknown value: ").concat(s))),
    }
}

} // verus!
