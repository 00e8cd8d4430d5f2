//! The .NET runtime identifier (RID) of an SDK artifact's platform, telling musl-based
//! Linux systems apart.
use vstd::prelude::*;
use crate::dotnet::runtime_identifier::{Os, Arch};
use crate::text::str_to_string;

verus! {

/// The runtime identifiers of the supported platforms.
#[derive(Debug, PartialEq, Eq, Structural, Clone, Copy)]
pub enum RuntimeIdentifier {
    LinuxX64,
    LinuxArm64,
    LinuxMuslX64,
    LinuxMuslArm64,
    OsxX64,
    OsxArm64,
}

/// The text of a runtime identifier.
pub open spec fn rid_text(rid: RuntimeIdentifier) -> Seq<char> {
    match rid {
        RuntimeIdentifier::LinuxX64 => "linux-x64"@,
        RuntimeIdentifier::LinuxArm64 => "linux-arm64"@,
        RuntimeIdentifier::LinuxMuslX64 => "linux-musl-x64"@,
        RuntimeIdentifier::LinuxMuslArm64 => "linux-musl-arm64"@,
        RuntimeIdentifier::OsxX64 => "osx-x64"@,
        RuntimeIdentifier::OsxArm64 => "osx-arm64"@,
    }
}

impl RuntimeIdentifier {
    /// The runtime identifier as text (`linux-musl-arm64`).
    pub fn to_string(&self) -> (r: String)
        ensures
            r@ == rid_text(*self),
    {
        match self {
            RuntimeIdentifier::LinuxX64 => str_to_string("linux-x64"),
            RuntimeIdentifier::LinuxArm64 => str_to_string("linux-arm64"),
            RuntimeIdentifier::LinuxMuslX64 => str_to_string("linux-musl-x64"),
            RuntimeIdentifier::LinuxMuslArm64 => str_to_string("linux-musl-arm64"),
            RuntimeIdentifier::OsxX64 => str_to_string("osx-x64"),
            RuntimeIdentifier::OsxArm64 => str_to_string("osx-arm64"),
        }
    }
}

/// The runtime identifier of `os` and `arch`, where `musl` tells whether the Linux C
/// library is musl.
pub open spec fn rid_of(os: Os, arch: Arch, musl: bool) -> RuntimeIdentifier {
    match (os, arch) {
        (Os::Linux, Arch::Amd64) => if musl { RuntimeIdentifier::LinuxMuslX64 } else { RuntimeIdentifier::LinuxX64 },
        (Os::Linux, Arch::Arm64) => if musl { RuntimeIdentifier::LinuxMuslArm64 } else { RuntimeIdentifier::LinuxArm64 },
        (Os::Darwin, Arch::Amd64) => RuntimeIdentifier::OsxX64,
        (Os::Darwin, Arch::Arm64) => RuntimeIdentifier::OsxArm64,
    }
}

/// The runtime identifier of `os` and `arch`. On Linux `is_musl` is asked (once) whether the
/// C library is musl; on macOS it is not called.
pub fn get_runtime_identifier<F: Fn() -> bool>(os: Os, arch: Arch, is_musl: F) -> (r: RuntimeIdentifier)
    requires
        is_musl.requires(()),
    ensures
        os == Os::Darwin ==> r == rid_of(os, arch, false),
        os == Os::Linux ==> exists|musl: bool| is_musl.ensures((), musl) && r == #[trigger] rid_of(os, arch, musl),
{
    match (os, arch) {
        (Os::Linux, Arch::Amd64) => {
            let musl = is_musl();
            assert(rid_of(os, arch, musl) == if musl { RuntimeIdentifier::LinuxMuslX64 } else { RuntimeIdentifier::LinuxX64 });
            if musl { RuntimeIdentifier::LinuxMuslX64 } else { RuntimeIdentifier::LinuxX64 }
        },
        (Os::Linux, Arch::Arm64) => {
            let musl = is_musl();
            assert(rid_of(os, arch, musl) == if musl { RuntimeIdentifier::LinuxMuslArm64 } else { RuntimeIdentifier::LinuxArm64 });
            if musl { RuntimeIdentifier::LinuxMuslArm64 } else { RuntimeIdentifier::LinuxArm64 }
        },
        (Os::Darwin, Arch::Amd64) => RuntimeIdentifier::OsxX64,
        (Os::Darwin, Arch::Arm64) => RuntimeIdentifier::OsxArm64,
    }
}

} // verus!
