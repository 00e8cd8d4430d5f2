use dotnet_buildpack::dotnet::runtime_identifier::{get_runtime_identifier, Arch, Os, RuntimeIdentifier};

#[test]
fn test_runtime_identifier_display() {
    assert_eq!(RuntimeIdentifier::LinuxX64.to_string(), "linux-x64");
    assert_eq!(RuntimeIdentifier::LinuxArm64.to_string(), "linux-arm64");
    assert_eq!(RuntimeIdentifier::OsxX64.to_string(), "osx-x64");
    assert_eq!(RuntimeIdentifier::OsxArm64.to_string(), "osx-arm64");
}

#[test]
fn test_get_runtime_identifier() {
    assert_eq!(get_runtime_identifier(Os::Linux, Arch::Amd64), RuntimeIdentifier::LinuxX64);
    assert_eq!(get_runtime_identifier(Os::Linux, Arch::Arm64), RuntimeIdentifier::LinuxArm64);
    assert_eq!(get_runtime_identifier(Os::Darwin, Arch::Amd64), RuntimeIdentifier::OsxX64);
    assert_eq!(get_runtime_identifier(Os::Darwin, Arch::Arm64), RuntimeIdentifier::OsxArm64);
}
