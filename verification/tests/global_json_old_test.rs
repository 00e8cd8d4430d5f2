use dotnet_buildpack::global_json::{construct_version_req, version_requirement_text, SdkConfig};
use semver::VersionReq;

#[derive(Debug)]
struct TestCase {
    version: &'static str,
    roll_forward: Option<&'static str>,
    expected: &'static str,
}

#[test]
fn test_construct_version_req() {
    let test_cases = [
        TestCase {
            version: "6.0.100",
            roll_forward: Some("patch"),
            expected: "~6.0.100",
        },
        TestCase {
            version: "6.0.100",
            roll_forward: Some("latestPatch"),
            expected: "~6.0.100",
        },
        TestCase {
            version: "6.0.100",
            roll_forward: Some("feature"),
            expected: "~6.0",
        },
        TestCase {
            version: "6.0.100",
            roll_forward: Some("latestFeature"),
            expected: "~6.0",
        },
        TestCase {
            version: "6.0.100",
            roll_forward: Some("minor"),
            expected: "^6.0",
        },
        TestCase {
            version: "6.0.100",
            roll_forward: Some("latestMinor"),
            expected: "^6.0",
        },
        TestCase {
            version: "6.0.100",
            roll_forward: Some("major"),
            expected: "*",
        },
        TestCase {
            version: "6.0.100",
            roll_forward: Some("latestMajor"),
            expected: "*",
        },
        TestCase {
            version: "6.0.100",
            roll_forward: Some("disable"),
            expected: "=6.0.100",
        },
        TestCase {
            version: "6.0.100",
            roll_forward: None,
            expected: "6.0.100",
        },
    ];

    for case in &test_cases {
        let sdk_config = SdkConfig {
            version: case.version.to_string(),
            roll_forward: case.roll_forward.map(ToString::to_string),
        };
        let result = construct_version_req(&sdk_config).unwrap().into_requirement();
        let expected = VersionReq::parse(case.expected).unwrap();
        assert_eq!(result, expected, "Failed for case: {case:?}");
    }
}

#[test]
fn requirement_text_uses_the_first_two_parts() {
    let config = |version: &str, policy: Option<&str>| SdkConfig {
        version: version.to_string(),
        roll_forward: policy.map(ToString::to_string),
    };
    assert_eq!(version_requirement_text(&config("8.0.100", Some("latestFeature"))), "~8.0");
    assert_eq!(version_requirement_text(&config("8.0", Some("feature"))), "~8.0");
    assert_eq!(version_requirement_text(&config("8", Some("minor"))), "^8");
    assert_eq!(version_requirement_text(&config("8.0.100-rc.1", Some("minor"))), "^8.0");
    assert_eq!(version_requirement_text(&config("8.0.100", Some("unknown"))), "8.0.100");
    assert_eq!(version_requirement_text(&config("8.0.100", Some("latestPatch"))), "~8.0.100");
}

#[test]
fn unparsable_version_is_an_error() {
    let config = SdkConfig {
        version: "not-a-version".to_string(),
        roll_forward: Some("disable".to_string()),
    };
    assert!(construct_version_req(&config).is_err());
}
