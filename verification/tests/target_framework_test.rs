use dotnet_buildpack::dotnet::target_framework_moniker::{ParseTargetFrameworkError, TargetFrameworkMoniker};
use dotnet_buildpack::versions::SdkRequirement;
use semver::VersionReq;
use std::str::FromStr;

#[test]
fn test_parse_net6_0() {
    let tfm = "net6.0";
    let target_framework = tfm.parse::<TargetFrameworkMoniker>().unwrap();
    let expected = VersionReq::from_str("^6.0").unwrap();
    assert_eq!(SdkRequirement::try_from(&target_framework).unwrap().into_requirement(), expected);
}

#[test]
fn test_parse_net7_0() {
    let tfm = "net7.0";
    let target_framework = tfm.parse::<TargetFrameworkMoniker>().unwrap();
    let expected = VersionReq::from_str("^7.0").unwrap();
    assert_eq!(SdkRequirement::try_from(&target_framework).unwrap().into_requirement(), expected);
}

#[test]
fn test_parse_net8_0() {
    let tfm = "net8.0";
    let target_framework = tfm.parse::<TargetFrameworkMoniker>().unwrap();
    let expected = VersionReq::from_str("^8.0").unwrap();
    assert_eq!(SdkRequirement::try_from(&target_framework).unwrap().into_requirement(), expected);
}

#[test]
fn test_parse_invalid_empty() {
    let tfm = String::new();
    assert_eq!(
        tfm.parse::<TargetFrameworkMoniker>(),
        Err(ParseTargetFrameworkError::InvalidFormat(tfm))
    );
}

#[test]
fn test_parse_invalid_non_numeric() {
    let tfm = String::from("netcoreapp");
    assert_eq!(
        tfm.parse::<TargetFrameworkMoniker>(),
        Err(ParseTargetFrameworkError::InvalidFormat(tfm))
    );
}

#[test]
fn test_parse_invalid_malformed_version() {
    let tfm = "net6.x".to_string();
    assert_eq!(
        tfm.parse::<TargetFrameworkMoniker>(),
        Err(ParseTargetFrameworkError::InvalidFormat(tfm))
    );
}

#[test]
fn test_parse_unsupported_os() {
    let tfm = "net6.0-ios15.0".to_string();
    assert_eq!(
        tfm.parse::<TargetFrameworkMoniker>(),
        Err(ParseTargetFrameworkError::UnsupportedOSTfm(tfm))
    );
}

#[test]
fn moniker_version_part_is_the_rest() {
    let m = TargetFrameworkMoniker::from_str("net10.0").unwrap();
    assert_eq!(m.version_part, "10.0");
    assert_eq!(TargetFrameworkMoniker::from_str("net").unwrap_err(), ParseTargetFrameworkError::InvalidFormat("net".to_string()));
    assert!(m.version_req().unwrap().requirement().matches(&semver::Version::parse("10.0.100").unwrap()));
}
