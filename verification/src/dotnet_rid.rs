//! The .NET runtime identifier (RID) of the platform that the buildpack runs on, from the
//! operating system and architecture names that Rust reports for it.
use vstd::prelude::*;
use crate::text::{str_chars, chars_equal_str, str_to_string};

verus! {

/// The runtime identifiers of the platforms this buildpack knows.
#[derive(Debug, PartialEq, Eq, Structural, Clone, Copy)]
pub enum RuntimeIdentifier {
    LinuxX64,
    LinuxArm64,
    LinuxMuslX64,
    LinuxMuslArm64,
    OsxX64,
    OsxArm64,
    Unknown,
}

/// The text of a runtime identifier.
pub open spec fn rid_text(rid: RuntimeIdentifier) -> Seq<char> {
    match rid {
        RuntimeIdentifier::LinuxX64 => "linux-x64"@,
        RuntimeIdentifier::LinuxArm64 => "linux-arm64"@,
        RuntimeIdentifier::LinuxMuslX64 => "linux-musl-x64"@,
        RuntimeIdentifier::LinuxMuslArm64 => "linux-musl-arm64"@,
        RuntimeIdentifier::OsxX64 => "osx-x64"@,
        RuntimeIdentifier::OsxArm64 => "osx-arm64"@,
        RuntimeIdentifier::Unknown => "unknown"@,
    }
}

impl RuntimeIdentifier {
    /// The runtime identifier as text (`linux-musl-x64`).
    pub fn to_string(&self) -> (r: String)
        ensures
            r@ == rid_text(*self),
    {
        match self {
            RuntimeIdentifier::LinuxX64 => str_to_string("linux-x64"),
            RuntimeIdentifier::LinuxArm64 => str_to_string("linux-arm64"),
            RuntimeIdentifier::LinuxMuslX64 => str_to_string("linux-musl-x64"),
            RuntimeIdentifier::LinuxMuslArm64 => str_to_string("linux-musl-arm64"),
            RuntimeIdentifier::OsxX64 => str_to_string("osx-x64"),
            RuntimeIdentifier::OsxArm64 => str_to_string("osx-arm64"),
            RuntimeIdentifier::Unknown => str_to_string("unknown"),
        }
    }
}

/// The runtime identifier of the operating system `os` and architecture `arch` (as Rust
/// names them: `linux`, `macos`; `x86_64`, `aarch64`), where `musl` tells whether the
/// Linux C library is musl. Other combinations are `Unknown`.
pub open spec fn platform_rid(os: Seq<char>, arch: Seq<char>, musl: bool) -> RuntimeIdentifier {
    if os == "linux"@ && arch == "x86_64"@ {
        if musl { RuntimeIdentifier::LinuxMuslX64 } else { RuntimeIdentifier::LinuxX64 }
    } else if os == "linux"@ && arch == "aarch64"@ {
        if musl { RuntimeIdentifier::LinuxMuslArm64 } else { RuntimeIdentifier::LinuxArm64 }
    } else if os == "macos"@ && arch == "x86_64"@ {
        RuntimeIdentifier::OsxX64
    } else if os == "macos"@ && arch == "aarch64"@ {
        RuntimeIdentifier::OsxArm64
    } else {
        RuntimeIdentifier::Unknown
    }
}

/// Whether the runtime identifier of `os` and `arch` depends on the C library.
pub open spec fn needs_libc_check(os: Seq<char>, arch: Seq<char>) -> bool {
    os == "linux"@ && (arch == "x86_64"@ || arch == "aarch64"@)
}

/// The runtime identifier of the platform `os`/`arch`. On Linux with a known architecture
/// `is_musl` is asked (once) whether the C library is musl; elsewhere it is not called.
pub fn get_dotnet_rid<F: Fn() -> bool>(os: &str, arch: &str, is_musl: F) -> (r: RuntimeIdentifier)
    requires
        is_musl.requires(()),
    ensures
        !needs_libc_check(os@, arch@) ==> r == platform_rid(os@, arch@, false),
        needs_libc_check(os@, arch@) ==> exists|musl: bool|
            is_musl.ensures((), musl) && r == #[trigger] platform_rid(os@, arch@, musl),
{
    let o = str_chars(os);
    let a = str_chars(arch);
    let linux = chars_equal_str(&o, "linux");
    let macos = chars_equal_str(&o, "macos");
    let x64 = chars_equal_str(&a, "x86_64");
    let arm64 = chars_equal_str(&a, "aarch64");
    if linux && (x64 || arm64) {
        let musl = is_musl();
        let r = if x64 {
            if musl { RuntimeIdentifier::LinuxMuslX64 } else { RuntimeIdentifier::LinuxX64 }
        } else {
            if musl { RuntimeIdentifier::LinuxMuslArm64 } else { RuntimeIdentifier::LinuxArm64 }
        };
        assert(r == platform_rid(os@, arch@, musl));
        r
    } else if macos && x64 {
        RuntimeIdentifier::OsxX64
    } else if macos && arm64 {
        RuntimeIdentifier::OsxArm64
    } else {
        RuntimeIdentifier::Unknown
    }
}

} // verus!
