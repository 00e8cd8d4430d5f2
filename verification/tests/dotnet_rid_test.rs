use dotnet_buildpack::dotnet_rid::{get_dotnet_rid, RuntimeIdentifier};
use std::cell::Cell;

#[test]
fn dotnet_rid_test_get_dotnet_rid_linux_x64() {
    assert_eq!(get_dotnet_rid("linux", "x86_64", || false), RuntimeIdentifier::LinuxX64);
}

#[test]
fn dotnet_rid_test_get_dotnet_rid_linux_arm64() {
    assert_eq!(get_dotnet_rid("linux", "aarch64", || false), RuntimeIdentifier::LinuxArm64);
}

#[test]
fn dotnet_rid_test_get_dotnet_rid_linux_musl_x64() {
    assert_eq!(get_dotnet_rid("linux", "x86_64", || true), RuntimeIdentifier::LinuxMuslX64);
}

#[test]
fn dotnet_rid_test_get_dotnet_rid_linux_musl_arm64() {
    assert_eq!(get_dotnet_rid("linux", "aarch64", || true), RuntimeIdentifier::LinuxMuslArm64);
}

#[test]
fn dotnet_rid_test_get_dotnet_rid_osx_x64() {
    assert_eq!(get_dotnet_rid("macos", "x86_64", || true), RuntimeIdentifier::OsxX64);
}

#[test]
fn dotnet_rid_test_get_dotnet_rid_osx_arm64() {
    assert_eq!(get_dotnet_rid("macos", "aarch64", || true), RuntimeIdentifier::OsxArm64);
}

#[test]
fn test_get_dotnet_rid_unknown() {
    assert_eq!(get_dotnet_rid("windows", "x86_64", || false), RuntimeIdentifier::Unknown);
    assert_eq!(get_dotnet_rid("linux", "riscv64", || false), RuntimeIdentifier::Unknown);
}

#[test]
fn libc_is_only_checked_on_linux() {
    let calls = Cell::new(0);
    let check = || {
        calls.set(calls.get() + 1);
        false
    };
    get_dotnet_rid("macos", "x86_64", check);
    assert_eq!(calls.get(), 0);
    get_dotnet_rid("linux", "x86_64", check);
    assert_eq!(calls.get(), 1);
}

#[test]
fn rid_texts() {
    assert_eq!(RuntimeIdentifier::LinuxMuslArm64.to_string(), "linux-musl-arm64");
    assert_eq!(RuntimeIdentifier::OsxX64.to_string(), "osx-x64");
    assert_eq!(RuntimeIdentifier::Unknown.to_string(), "unknown");
}
