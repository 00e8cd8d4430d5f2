use dotnet_buildpack::dotnet::runtime_identifier::{Arch, Os};
use dotnet_buildpack::dotnet_runtime_identifier::{get_runtime_identifier, RuntimeIdentifier};

fn glibc() -> bool {
    false
}

fn musl() -> bool {
    true
}

#[test]
fn dotnet_runtime_identifier_test_get_dotnet_rid_linux_x64() {
    assert_eq!(
        get_runtime_identifier(Os::Linux, Arch::Amd64, glibc),
        RuntimeIdentifier::LinuxX64
    );
}

#[test]
fn dotnet_runtime_identifier_test_get_dotnet_rid_linux_arm64() {
    assert_eq!(
        get_runtime_identifier(Os::Linux, Arch::Arm64, glibc),
        RuntimeIdentifier::LinuxArm64
    );
}

#[test]
fn dotnet_runtime_identifier_test_get_dotnet_rid_linux_musl_x64() {
    assert_eq!(
        get_runtime_identifier(Os::Linux, Arch::Amd64, musl),
        RuntimeIdentifier::LinuxMuslX64
    );
}

#[test]
fn dotnet_runtime_identifier_test_get_dotnet_rid_linux_musl_arm64() {
    assert_eq!(
        get_runtime_identifier(Os::Linux, Arch::Arm64, musl),
        RuntimeIdentifier::LinuxMuslArm64
    );
}

#[test]
fn dotnet_runtime_identifier_test_get_dotnet_rid_osx_x64() {
    assert_eq!(
        get_runtime_identifier(Os::Darwin, Arch::Amd64, musl),
        RuntimeIdentifier::OsxX64
    );
}

#[test]
fn dotnet_runtime_identifier_test_get_dotnet_rid_osx_arm64() {
    assert_eq!(
        get_runtime_identifier(Os::Darwin, Arch::Arm64, musl),
        RuntimeIdentifier::OsxArm64
    );
}

#[test]
fn musl_runtime_identifier_texts() {
    assert_eq!(RuntimeIdentifier::LinuxMuslX64.to_string(), "linux-musl-x64");
    assert_eq!(RuntimeIdentifier::LinuxArm64.to_string(), "linux-arm64");
}
