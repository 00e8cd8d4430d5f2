//! Target framework monikers (`net8.0`) and the SDK version requirement that they imply.
use vstd::prelude::*;
use crate::text::{str_chars, string_from_chars, chars_between, str_to_string, is_numeric, spec_is_numeric, all_ascii};
use crate::versions::{SdkRequirement, parse_version_req, semver_req_parses};

verus! {

/// Why a target framework moniker was rejected; each variant holds the moniker.
#[derive(Debug, PartialEq)]
pub enum ParseTargetFrameworkError {
    InvalidFormat(String),
    UnsupportedOSTfm(String),
}

/// A supported target framework moniker, `net` followed by its version (`8.0`).
#[derive(Debug, PartialEq)]
pub struct TargetFrameworkMoniker {
    pub version_part: String,
}

/// `net`
pub open spec fn net_prefix() -> Seq<char> {
    seq!['n', 'e', 't']
}

/// Every character is numeric or a `.`.
pub open spec fn numeric_or_dots(s: Seq<char>) -> bool {
    forall|i: int| 0 <= i < s.len() ==> spec_is_numeric(#[trigger] s[i]) || s[i] == '.'
}

/// Why [`parsed_tfm`] rejects a moniker.
pub enum TfmRejection {
    InvalidFormat,
    UnsupportedOs,
}

/// What a moniker `tfm` parses to. It must start with `net`; the rest must not name an
/// operating system (no `-`), must be non-empty and may hold only numeric characters and
/// dots; the rest is then the version part. The numeric dot-separated segments of the rest,
/// joined again by dots, are the rest itself, as every segment is numeric.
pub open spec fn parsed_tfm(tfm: Seq<char>) -> Result<Seq<char>, TfmRejection> {
    if !(tfm.len() >= 3 && tfm.take(3) == net_prefix()) {
        Err(TfmRejection::InvalidFormat)
    } else {
        let rest = tfm.skip(3);
        if rest.contains('-') {
            Err(TfmRejection::UnsupportedOs)
        } else if rest.len() == 0 || !numeric_or_dots(rest) {
            Err(TfmRejection::InvalidFormat)
        } else {
            Ok(rest)
        }
    }
}

/// Every character is an ASCII digit or a `.`.
pub open spec fn digits_or_dots(s: Seq<char>) -> bool {
    forall|i: int| 0 <= i < s.len() ==> ('0' <= #[trigger] s[i] <= '9') || s[i] == '.'
}

/// [`parsed_tfm`] for a moniker of ASCII characters, where the numeric characters are
/// exactly the digits `0`-`9`.
pub open spec fn parsed_ascii_tfm(tfm: Seq<char>) -> Result<Seq<char>, TfmRejection> {
    if !(tfm.len() >= 3 && tfm.take(3) == net_prefix()) {
        Err(TfmRejection::InvalidFormat)
    } else {
        let rest = tfm.skip(3);
        if rest.contains('-') {
            Err(TfmRejection::UnsupportedOs)
        } else if rest.len() == 0 || !digits_or_dots(rest) {
            Err(TfmRejection::InvalidFormat)
        } else {
            Ok(rest)
        }
    }
}

/// `r` agrees with the parse outcome `parsed` of the moniker `tfm`, errors holding the
/// moniker.
pub open spec fn tfm_result_is(
    tfm: Seq<char>,
    parsed: Result<Seq<char>, TfmRejection>,
    r: Result<TargetFrameworkMoniker, ParseTargetFrameworkError>,
) -> bool {
    match parsed {
        Ok(v) => r matches Ok(m) && m.version_part@ == v,
        Err(TfmRejection::InvalidFormat) => r matches Err(ParseTargetFrameworkError::InvalidFormat(t)) && t@ == tfm,
        Err(TfmRejection::UnsupportedOs) => r matches Err(ParseTargetFrameworkError::UnsupportedOSTfm(t)) && t@ == tfm,
    }
}

/// `r` agrees with [`parsed_tfm`], errors holding the moniker.
pub open spec fn tfm_result_matches(tfm: Seq<char>, r: Result<TargetFrameworkMoniker, ParseTargetFrameworkError>) -> bool {
    match parsed_tfm(tfm) {
        Ok(v) => r matches Ok(m) && m.version_part@ == v,
        Err(TfmRejection::InvalidFormat) => r matches Err(ParseTargetFrameworkError::InvalidFormat(t)) && t@ == tfm,
        Err(TfmRejection::UnsupportedOs) => r matches Err(ParseTargetFrameworkError::UnsupportedOSTfm(t)) && t@ == tfm,
    }
}

/// The text of the requirement that a version part implies: `^` and the version.
pub open spec fn tfm_requirement_text(version_part: Seq<char>) -> Seq<char> {
    seq!['^'] + version_part
}

impl TargetFrameworkMoniker {
    /// Parses a target framework moniker such as `net8.0` (see [`parsed_tfm`]; for an ASCII
    /// moniker, [`parsed_ascii_tfm`]).
    pub fn from_str(tfm: &str) -> (r: Result<Self, ParseTargetFrameworkError>)
        ensures
            tfm_result_matches(tfm@, r),
            all_ascii(tfm@) ==> tfm_result_is(tfm@, parsed_ascii_tfm(tfm@), r),
    {
        let s = str_chars(tfm);
        if !(s.len() >= 3 && s[0] == 'n' && s[1] == 'e' && s[2] == 't') {
            proof {
                if s@.len() >= 3 && s@.take(3) =~= net_prefix() {
                    assert(s@.take(3)[0] == 'n' && s@.take(3)[1] == 'e' && s@.take(3)[2] == 't');
                }
            }
            return Err(ParseTargetFrameworkError::InvalidFormat(str_to_string(tfm)));
        }
        assert(s@.take(3) =~= net_prefix());
        let rest = chars_between(&s, 3, s.len());
        assert(rest@ =~= tfm@.skip(3));
        let mut i: usize = 0;
        while i < rest.len()
            invariant
                i <= rest.len(),
                forall|j: int| 0 <= j < i ==> rest@[j] != '-',
                rest@ == tfm@.skip(3),
                tfm@.len() >= 3 && tfm@.take(3) == net_prefix(),
            decreases rest.len() - i,
        {
            if rest[i] == '-' {
                assert(rest@.contains('-')) by {
                    assert(rest@[i as int] == '-');
                }
                return Err(ParseTargetFrameworkError::UnsupportedOSTfm(str_to_string(tfm)));
            }
            i += 1;
        }
        assert(!rest@.contains('-'));
        if rest.len() == 0 {
            return Err(ParseTargetFrameworkError::InvalidFormat(str_to_string(tfm)));
        }
        let mut k: usize = 0;
        while k < rest.len()
            invariant
                k <= rest.len(),
                rest.len() > 0,
                !rest@.contains('-'),
                rest@ == tfm@.skip(3),
                tfm@.len() >= 3 && tfm@.take(3) == net_prefix(),
                forall|j: int| 0 <= j < k ==> spec_is_numeric(#[trigger] rest@[j]) || rest@[j] == '.',
                all_ascii(tfm@) ==> forall|j: int| 0 <= j < k ==> ('0' <= #[trigger] rest@[j] <= '9') || rest@[j] == '.',
            decreases rest.len() - k,
        {
            let c = rest[k];
            proof {
                if all_ascii(tfm@) {
                    assert(tfm@[k + 3] == rest@[k as int]);
                }
            }
            if !(is_numeric(c) || c == '.') {
                proof {
                    assert(!numeric_or_dots(rest@));
                    if all_ascii(tfm@) {
                        assert(!digits_or_dots(rest@));
                    }
                }
                return Err(ParseTargetFrameworkError::InvalidFormat(str_to_string(tfm)));
            }
            k += 1;
        }
        Ok(TargetFrameworkMoniker { version_part: string_from_chars(rest.as_slice()) })
    }

    /// The SDK version requirement of the moniker: the caret requirement `^` + version part,
    /// as `semver` parses it.
    pub fn version_req(&self) -> (r: Result<SdkRequirement, semver::Error>)
        ensures
            r is Ok <==> semver_req_parses(tfm_requirement_text(self.version_part@)),
            r matches Ok(q) ==> q@ == tfm_requirement_text(self.version_part@),
    {
        let v = str_chars(self.version_part.as_str());
        let mut text: Vec<char> = vec!['^'];
        crate::text::append_chars(&mut text, &v);
        assert(text@ =~= tfm_requirement_text(self.version_part@));
        let t = string_from_chars(text.as_slice());
        parse_version_req(t)
    }
}

impl std::str::FromStr for TargetFrameworkMoniker {
    type Err = ParseTargetFrameworkError;

    fn from_str(tfm: &str) -> (r: Result<Self, Self::Err>)
        ensures
            tfm_result_matches(tfm@, r),
    {
        TargetFrameworkMoniker::from_str(tfm)
    }
}

impl vstd::std_specs::convert::TryFromSpecImpl<&TargetFrameworkMoniker> for SdkRequirement {
    open spec fn obeys_try_from_spec() -> bool {
        false
    }

    open spec fn try_from_spec(tf: &TargetFrameworkMoniker) -> Result<Self, Self::Error> {
        arbitrary()
    }
}

impl TryFrom<&TargetFrameworkMoniker> for SdkRequirement {
    type Error = semver::Error;

    fn try_from(tf: &TargetFrameworkMoniker) -> (r: Result<Self, Self::Error>)
        ensures
            r is Ok <==> semver_req_parses(tfm_requirement_text(tf.version_part@)),
            r matches Ok(q) ==> q@ == tfm_requirement_text(tf.version_part@),
    {
        tf.version_req()
    }
}

} // verus!
