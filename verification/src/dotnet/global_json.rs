//! The `sdk` section of a `global.json` file and the SDK version requirement that it sets.
//! See <https://learn.microsoft.com/en-us/dotnet/core/tools/global-json>.
use vstd::prelude::*;
use crate::text::{str_chars, string_from_chars, str_to_string, chars_equal_str, append_chars};
use crate::versions::{SdkRequirement, decimal, push_decimal, parse_version_numbers, parse_version_req, semver_version_numbers, semver_req_parses};

verus! {

/// The root structure of a `global.json` file.
pub struct GlobalJson {
    pub sdk: Option<SdkConfig>,
}

/// The SDK configuration in a `global.json` file.
pub struct SdkConfig {
    pub version: String,
    pub roll_forward: Option<String>,
}

/// The `rollForward` policy for SDK version selection.
#[derive(Debug, PartialEq, Eq, Structural, Clone, Copy)]
pub enum RollForwardPolicy {
    Patch,
    LatestPatch,
    Feature,
    LatestFeature,
    Minor,
    LatestMinor,
    Major,
    LatestMajor,
    Disable,
}

impl Default for RollForwardPolicy {
    /// The default policy is `patch`.
    fn default() -> (r: Self)
        ensures
            r == RollForwardPolicy::Patch,
    {
        RollForwardPolicy::Patch
    }
}

/// The policy that a `rollForward` value names (names are case-sensitive), if any.
pub open spec fn policy_named(s: Seq<char>) -> Option<RollForwardPolicy> {
    if s == "patch"@ {
        Some(RollForwardPolicy::Patch)
    } else if s == "latestPatch"@ {
        Some(RollForwardPolicy::LatestPatch)
    } else if s == "feature"@ {
        Some(RollForwardPolicy::Feature)
    } else if s == "latestFeature"@ {
        Some(RollForwardPolicy::LatestFeature)
    } else if s == "minor"@ {
        Some(RollForwardPolicy::Minor)
    } else if s == "latestMinor"@ {
        Some(RollForwardPolicy::LatestMinor)
    } else if s == "major"@ {
        Some(RollForwardPolicy::Major)
    } else if s == "latestMajor"@ {
        Some(RollForwardPolicy::LatestMajor)
    } else if s == "disable"@ {
        Some(RollForwardPolicy::Disable)
    } else {
        None
    }
}

impl RollForwardPolicy {
    /// Parses a `rollForward` value; an unknown value is given back as the error.
    pub fn from_str(s: &str) -> (r: Result<Self, String>)
        ensures
            match policy_named(s@) {
                Some(p) => r == Ok::<RollForwardPolicy, String>(p),
                None => r matches Err(e) && e@ == s@,
            },
    {
        let c = str_chars(s);
        if chars_equal_str(&c, "patch") {
            Ok(RollForwardPolicy::Patch)
        } else if chars_equal_str(&c, "latestPatch") {
            Ok(RollForwardPolicy::LatestPatch)
        } else if chars_equal_str(&c, "feature") {
            Ok(RollForwardPolicy::Feature)
        } else if chars_equal_str(&c, "latestFeature") {
            Ok(RollForwardPolicy::LatestFeature)
        } else if chars_equal_str(&c, "minor") {
            Ok(RollForwardPolicy::Minor)
        } else if chars_equal_str(&c, "latestMinor") {
            Ok(RollForwardPolicy::LatestMinor)
        } else if chars_equal_str(&c, "major") {
            Ok(RollForwardPolicy::Major)
        } else if chars_equal_str(&c, "latestMajor") {
            Ok(RollForwardPolicy::LatestMajor)
        } else if chars_equal_str(&c, "disable") {
            Ok(RollForwardPolicy::Disable)
        } else {
            Err(str_to_string(s))
        }
    }
}

impl std::str::FromStr for RollForwardPolicy {
    type Err = String;

    fn from_str(s: &str) -> (r: Result<Self, Self::Err>)
        ensures
            match policy_named(s@) {
                Some(p) => r == Ok::<RollForwardPolicy, String>(p),
                None => r matches Err(e) && e@ == s@,
            },
    {
        RollForwardPolicy::from_str(s)
    }
}

/// Why an SDK configuration gives no version requirement.
#[derive(Debug)]
pub enum SdkConfigError {
    InvalidVersion(semver::Error),
    InvalidRollForward(String),
}

/// The end (exclusive) of the feature band of a patch number: `6.0.1xx` ends before
/// `6.0.200`.
pub open spec fn feature_band_end(patch: u64) -> nat {
    ((patch / 100) * 100 + 100) as nat
}

/// The version requirement text for an SDK `version` (with the numbers `major`, `minor`,
/// `patch` that it parses to) under a roll-forward policy:
/// patch policies allow the rest of the feature band (`>=6.0.100, <6.0.200`, keeping any
/// pre-release part of the version in the lower bound), feature policies `~6.0`, minor
/// policies `^6.0`, major policies `*`, and `disable` the exact version `=6.0.100`.
pub open spec fn sdk_requirement_text(
    version: Seq<char>,
    major: u64,
    minor: u64,
    patch: u64,
    policy: RollForwardPolicy,
) -> Seq<char> {
    match policy {
        RollForwardPolicy::Patch | RollForwardPolicy::LatestPatch => seq!['>', '='] + version
            + seq![',', ' ', '<'] + decimal(major as nat) + seq!['.'] + decimal(minor as nat)
            + seq!['.'] + decimal(feature_band_end(patch)),
        RollForwardPolicy::Feature | RollForwardPolicy::LatestFeature => seq!['~'] + decimal(
            major as nat,
        ) + seq!['.'] + decimal(minor as nat),
        RollForwardPolicy::Minor | RollForwardPolicy::LatestMinor => seq!['^'] + decimal(
            major as nat,
        ) + seq!['.'] + decimal(minor as nat),
        RollForwardPolicy::Major | RollForwardPolicy::LatestMajor => seq!['*'],
        RollForwardPolicy::Disable => seq!['='] + version,
    }
}

/// Builds the version requirement text of [`sdk_requirement_text`].
pub fn sdk_requirement(version: &str, major: u64, minor: u64, patch: u64, policy: RollForwardPolicy) -> (r: String)
    ensures
        r@ == sdk_requirement_text(version@, major, minor, patch, policy),
{
    let v = str_chars(version);
    let mut t: Vec<char> = Vec::new();
    match policy {
        RollForwardPolicy::Patch | RollForwardPolicy::LatestPatch => {
            t.push('>');
            t.push('=');
            append_chars(&mut t, &v);
            t.push(',');
            t.push(' ');
            t.push('<');
            push_decimal(&mut t, major as u128);
            t.push('.');
            push_decimal(&mut t, minor as u128);
            t.push('.');
            let band_end: u128 = ((patch / 100) as u128) * 100 + 100;
            push_decimal(&mut t, band_end);
        },
        RollForwardPolicy::Feature | RollForwardPolicy::LatestFeature => {
            t.push('~');
            push_decimal(&mut t, major as u128);
            t.push('.');
            push_decimal(&mut t, minor as u128);
        },
        RollForwardPolicy::Minor | RollForwardPolicy::LatestMinor => {
            t.push('^');
            push_decimal(&mut t, major as u128);
            t.push('.');
            push_decimal(&mut t, minor as u128);
        },
        RollForwardPolicy::Major | RollForwardPolicy::LatestMajor => {
            t.push('*');
        },
        RollForwardPolicy::Disable => {
            t.push('=');
            append_chars(&mut t, &v);
        },
    }
    assert(t@ =~= sdk_requirement_text(version@, major, minor, patch, policy));
    string_from_chars(t.as_slice())
}

/// The `rollForward` text in effect: the configured one, or `patch` by default.
pub open spec fn policy_text(roll_forward: Option<String>) -> Seq<char> {
    match roll_forward {
        Some(s) => s@,
        None => "patch"@,
    }
}

/// `r` is what an SDK configuration with `version` and `roll_forward` gives: an invalid
/// version first, then an unknown policy (named), and otherwise the requirement of
/// [`sdk_requirement_text`], parsed by `semver` (an error where it does not parse).
pub open spec fn sdk_config_result(
    version: Seq<char>,
    roll_forward: Option<String>,
    r: Result<SdkRequirement, SdkConfigError>,
) -> bool {
    match semver_version_numbers(version) {
        None => r matches Err(SdkConfigError::InvalidVersion(_)),
        Some(n) => match policy_named(policy_text(roll_forward)) {
            None => r matches Err(SdkConfigError::InvalidRollForward(s)) && s@ == policy_text(
                roll_forward,
            ),
            Some(p) => {
                &&& (r is Ok <==> semver_req_parses(sdk_requirement_text(version, n.0, n.1, n.2, p)))
                &&& (r matches Ok(q) ==> q@ == sdk_requirement_text(version, n.0, n.1, n.2, p))
                &&& (r is Err ==> r matches Err(SdkConfigError::InvalidVersion(_)))
            },
        },
    }
}

impl SdkConfig {
    /// The SDK version requirement of this configuration (see [`sdk_config_result`]).
    pub fn version_req(self) -> (r: Result<SdkRequirement, SdkConfigError>)
        ensures
            sdk_config_result(self.version@, self.roll_forward, r),
    {
        let numbers = match parse_version_numbers(self.version.as_str()) {
            Ok(n) => n,
            Err(e) => return Err(SdkConfigError::InvalidVersion(e)),
        };
        let policy = match &self.roll_forward {
            Some(s) => RollForwardPolicy::from_str(s.as_str()),
            None => RollForwardPolicy::from_str("patch"),
        };
        let policy = match policy {
            Ok(p) => p,
            Err(s) => return Err(SdkConfigError::InvalidRollForward(s)),
        };
        let text = sdk_requirement(self.version.as_str(), numbers.0, numbers.1, numbers.2, policy);
        match parse_version_req(text) {
            Ok(req) => Ok(req),
            Err(e) => Err(SdkConfigError::InvalidVersion(e)),
        }
    }
}

impl TryFrom<SdkConfig> for SdkRequirement {
    type Error = SdkConfigError;

    fn try_from(sdk_config: SdkConfig) -> (r: Result<Self, Self::Error>)
        ensures
            sdk_config_result(sdk_config.version@, sdk_config.roll_forward, r),
    {
        sdk_config.version_req()
    }
}

impl vstd::std_specs::convert::TryFromSpecImpl<SdkConfig> for SdkRequirement {
    open spec fn obeys_try_from_spec() -> bool {
        false
    }

    open spec fn try_from_spec(sdk_config: SdkConfig) -> Result<Self, Self::Error> {
        arbitrary()
    }
}

} // verus!
