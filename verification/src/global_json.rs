//! The SDK version requirement of a `global.json` file's `sdk` section.
use vstd::prelude::*;
use crate::sln::{first_index_from, find_from};
use crate::text::{str_chars, chars_equal_str, string_from_chars, chars_between, append_chars};
use crate::versions::{SdkRequirement, parse_version_req, semver_req_parses};

verus! {

/// The `sdk` section of a `global.json` file.
#[derive(Debug, Clone)]
pub struct SdkConfig {
    pub version: String,
    pub roll_forward: Option<String>,
}

/// The version up to (not including) its second `.`: its first two dot-separated parts.
pub open spec fn first_two_parts(version: Seq<char>) -> Seq<char> {
    version.take(first_index_from(version, first_index_from(version, 0, '.') + 1, '.'))
}

/// The text of the version requirement for an SDK `version` under `roll_forward`: patch
/// policies allow patches (`~6.0.100`); feature policies `~` and minor policies `^` on the
/// first two parts of the version (`~6.0`, `^6.0`); major policies any version (`*`);
/// `disable` exactly the version (`=6.0.100`); no or another policy the version itself.
pub open spec fn requirement_text(version: Seq<char>, roll_forward: Option<Seq<char>>) -> Seq<char> {
    match roll_forward {
        Some(p) => if p == "patch"@ || p == "latestPatch"@ {
            seq!['~'] + version
        } else if p == "feature"@ || p == "latestFeature"@ {
            seq!['~'] + first_two_parts(version)
        } else if p == "minor"@ || p == "latestMinor"@ {
            seq!['^'] + first_two_parts(version)
        } else if p == "major"@ || p == "latestMajor"@ {
            seq!['*']
        } else if p == "disable"@ {
            seq!['='] + version
        } else {
            version
        },
        None => version,
    }
}

/// The optional string's view.
pub open spec fn opt_string_view(o: Option<String>) -> Option<Seq<char>> {
    match o {
        Some(s) => Some(s@),
        None => None,
    }
}

/// Builds the requirement text of [`requirement_text`] for a configuration.
pub fn version_requirement_text(sdk_config: &SdkConfig) -> (r: String)
    ensures
        r@ == requirement_text(sdk_config.version@, opt_string_view(sdk_config.roll_forward)),
{
    let v = str_chars(sdk_config.version.as_str());
    let mut t: Vec<char> = Vec::new();
    let policy = match &sdk_config.roll_forward {
        Some(p) => str_chars(p.as_str()),
        None => {
            append_chars(&mut t, &v);
            assert(t@ =~= v@);
            return string_from_chars(t.as_slice());
        },
    };
    let d1 = find_from(&v, 0, '.');
    let d2 = if d1 < v.len() { find_from(&v, d1 + 1, '.') } else { v.len() };
    assert(d2 as int == first_index_from(v@, d1 + 1, '.'));
    let head = chars_between(&v, 0, d2);
    assert(head@ =~= first_two_parts(v@));
    if chars_equal_str(&policy, "patch") || chars_equal_str(&policy, "latestPatch") {
        t.push('~');
        append_chars(&mut t, &v);
    } else if chars_equal_str(&policy, "feature") || chars_equal_str(&policy, "latestFeature") {
        t.push('~');
        append_chars(&mut t, &head);
    } else if chars_equal_str(&policy, "minor") || chars_equal_str(&policy, "latestMinor") {
        t.push('^');
        append_chars(&mut t, &head);
    } else if chars_equal_str(&policy, "major") || chars_equal_str(&policy, "latestMajor") {
        t.push('*');
    } else if chars_equal_str(&policy, "disable") {
        t.push('=');
        append_chars(&mut t, &v);
    } else {
        append_chars(&mut t, &v);
    }
    assert(t@ =~= requirement_text(v@, opt_string_view(sdk_config.roll_forward)));
    string_from_chars(t.as_slice())
}

/// The SDK version requirement of a configuration: the text of [`requirement_text`] as
/// `semver` parses it.
pub fn construct_version_req(sdk_config: &SdkConfig) -> (r: Result<SdkRequirement, semver::Error>)
    ensures
        r is Ok <==> semver_req_parses(
            requirement_text(sdk_config.version@, opt_string_view(sdk_config.roll_forward)),
        ),
        r matches Ok(q) ==> q@ == requirement_text(sdk_config.version@, opt_string_view(sdk_config.roll_forward)),
{
    let text = version_requirement_text(sdk_config);
    parse_version_req(text)
}

} // verus!
