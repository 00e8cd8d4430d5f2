//! .NET runtime identifiers (RIDs) for the platforms that the buildpack supports.
use vstd::prelude::*;
use crate::text::str_to_string;

verus! {

/// Operating systems of SDK artifacts.
#[derive(Debug, PartialEq, Eq, Structural, Clone, Copy)]
pub enum Os {
    Linux,
    Darwin,
}

/// Processor architectures of SDK artifacts.
#[derive(Debug, PartialEq, Eq, Structural, Clone, Copy)]
pub enum Arch {
    Amd64,
    Arm64,
}

/// The supported runtime identifiers.
#[derive(Debug, PartialEq, Eq, Structural, Clone, Copy)]
pub enum RuntimeIdentifier {
    LinuxX64,
    LinuxArm64,
    OsxX64,
    OsxArm64,
}

/// The text of a runtime identifier.
pub open spec fn rid_text(rid: RuntimeIdentifier) -> Seq<char> {
    match rid {
        RuntimeIdentifier::LinuxX64 => "linux-x64"@,
        RuntimeIdentifier::LinuxArm64 => "linux-arm64"@,
        RuntimeIdentifier::OsxX64 => "osx-x64"@,
        RuntimeIdentifier::OsxArm64 => "osx-arm64"@,
    }
}

impl RuntimeIdentifier {
    /// The runtime identifier as text (`linux-x64`).
    pub fn to_string(&self) -> (r: String)
        ensures
            r@ == rid_text(*self),
    {
        match self {
            RuntimeIdentifier::LinuxX64 => str_to_string("linux-x64"),
            RuntimeIdentifier::LinuxArm64 => str_to_string("linux-arm64"),
            RuntimeIdentifier::OsxX64 => str_to_string("osx-x64"),
            RuntimeIdentifier::OsxArm64 => str_to_string("osx-arm64"),
        }
    }
}

/// The runtime identifier of an operating system and architecture.
pub open spec fn rid_of(os: Os, arch: Arch) -> RuntimeIdentifier {
    match (os, arch) {
        (Os::Linux, Arch::Amd64) => RuntimeIdentifier::LinuxX64,
        (Os::Linux, Arch::Arm64) => RuntimeIdentifier::LinuxArm64,
        (Os::Darwin, Arch::Amd64) => RuntimeIdentifier::OsxX64,
        (Os::Darwin, Arch::Arm64) => RuntimeIdentifier::OsxArm64,
    }
}

/// The runtime identifier for an SDK artifact's operating system and architecture.
pub fn get_runtime_identifier(os: Os, arch: Arch) -> (r: RuntimeIdentifier)
    ensures
        r == rid_of(os, arch),
{
    match (os, arch) {
        (Os::Linux, Arch::Amd64) => RuntimeIdentifier::LinuxX64,
        (Os::Linux, Arch::Arm64) => RuntimeIdentifier::LinuxArm64,
        (Os::Darwin, Arch::Amd64) => RuntimeIdentifier::OsxX64,
        (Os::Darwin, Arch::Arm64) => RuntimeIdentifier::OsxArm64,
    }
}

} // verus!
