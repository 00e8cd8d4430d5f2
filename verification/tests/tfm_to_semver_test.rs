use dotnet_buildpack::tfm_to_semver::{parse_target_framework, ParseTargetFrameworkError};
use semver::VersionReq;
use std::str::FromStr;

#[test]
fn test_parse_valid_tfm_net6_0() {
    let tfm = "net6.0";
    let expected = VersionReq::from_str("^6.0").unwrap();
    assert_eq!(parse_target_framework(tfm).unwrap().into_requirement(), expected);
}

#[test]
fn test_parse_valid_tfm_net7_0() {
    let tfm = "net7.0";
    let expected = VersionReq::from_str("^7.0").unwrap();
    assert_eq!(parse_target_framework(tfm).unwrap().into_requirement(), expected);
}

#[test]
fn test_parse_valid_tfm_net8_0() {
    let tfm = "net8.0";
    let expected = VersionReq::from_str("^8.0").unwrap();
    assert_eq!(parse_target_framework(tfm).unwrap().into_requirement(), expected);
}

#[test]
fn test_parse_invalid_tfm_empty() {
    let tfm = "";
    assert!(matches!(
        parse_target_framework(tfm),
        Err(ParseTargetFrameworkError::InvalidFormat)
    ));
}

#[test]
fn test_parse_invalid_tfm_non_numeric() {
    let tfm = "netcoreapp";
    assert!(matches!(
        parse_target_framework(tfm),
        Err(ParseTargetFrameworkError::InvalidFormat)
    ));
}

#[test]
fn test_parse_invalid_tfm_malformed_version() {
    let tfm = "net6.x";
    assert!(matches!(
        parse_target_framework(tfm),
        Err(ParseTargetFrameworkError::InvalidFormat)
    ));
}

#[test]
fn test_parse_unsupported_os_tfm() {
    let tfm = "net6.0-ios15.0";
    assert!(matches!(
        parse_target_framework(tfm),
        Err(ParseTargetFrameworkError::UnsupportedOSTfm)
    ));
}

#[test]
fn bare_net_prefix_is_invalid() {
    assert!(matches!(
        parse_target_framework("net"),
        Err(ParseTargetFrameworkError::InvalidFormat)
    ));
    assert!(matches!(
        parse_target_framework("net6"),
        Ok(ref req) if *req.requirement() == VersionReq::from_str("^6").unwrap() && req.text() == "^6"
    ));
}

#[test]
fn unparsable_version_is_invalid_version() {
    assert!(matches!(
        parse_target_framework("net6..0"),
        Err(ParseTargetFrameworkError::InvalidVersion(_))
    ));
}

#[test]
fn moniker_cut_inside_a_character_is_invalid() {
    assert!(matches!(
        parse_target_framework("ab日本"),
        Err(ParseTargetFrameworkError::InvalidFormat)
    ));
    assert!(matches!(
        parse_target_framework("né6.0"),
        Err(ParseTargetFrameworkError::InvalidFormat)
    ));
}
