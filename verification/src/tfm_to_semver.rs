//! The SDK version requirement that a target framework moniker (`net8.0`) implies.
use vstd::prelude::*;
use crate::dotnet::target_framework_moniker::{
    TargetFrameworkMoniker, ParseTargetFrameworkError as MonikerError, TfmRejection, parsed_tfm,
    tfm_requirement_text, parsed_ascii_tfm,
};
use crate::text::all_ascii;
use crate::versions::{SdkRequirement, semver_req_parses};

verus! {

/// Why a target framework moniker gives no version requirement.
#[derive(Debug)]
pub enum ParseTargetFrameworkError {
    InvalidFormat,
    InvalidVersion(semver::Error),
    UnsupportedOSTfm,
}

/// `r` is the requirement, or the error, that the moniker parse outcome `parsed` gives.
pub open spec fn tfm_requirement_result(
    parsed: Result<Seq<char>, TfmRejection>,
    r: Result<SdkRequirement, ParseTargetFrameworkError>,
) -> bool {
    match parsed {
        Err(TfmRejection::InvalidFormat) => r matches Err(ParseTargetFrameworkError::InvalidFormat),
        Err(TfmRejection::UnsupportedOs) => r matches Err(ParseTargetFrameworkError::UnsupportedOSTfm),
        Ok(version) => {
            &&& (r is Ok <==> semver_req_parses(tfm_requirement_text(version)))
            &&& (r matches Ok(q) ==> q@ == tfm_requirement_text(version))
            &&& (r is Err ==> r matches Err(ParseTargetFrameworkError::InvalidVersion(_)))
        },
    }
}

/// Parses a target framework moniker of .NET 6.0 or later (`net6.0`) into the caret
/// requirement on its version (`^6.0`). A moniker that does not start with `net` followed by
/// a non-empty version of numeric characters and dots is `InvalidFormat`; one that names an
/// operating system (`net6.0-ios15.0`) is `UnsupportedOSTfm`; a version that `semver`
/// rejects is `InvalidVersion`. For an ASCII moniker the numeric characters are the digits.
pub fn parse_target_framework(tfm: &str) -> (r: Result<SdkRequirement, ParseTargetFrameworkError>)
    ensures
        tfm_requirement_result(parsed_tfm(tfm@), r),
        all_ascii(tfm@) ==> tfm_requirement_result(parsed_ascii_tfm(tfm@), r),
{
    let moniker = match TargetFrameworkMoniker::from_str(tfm) {
        Ok(m) => m,
        Err(MonikerError::InvalidFormat(_)) => return Err(ParseTargetFrameworkError::InvalidFormat),
        Err(MonikerError::UnsupportedOSTfm(_)) => return Err(ParseTargetFrameworkError::UnsupportedOSTfm),
    };
    match moniker.version_req() {
        Ok(req) => Ok(req),
        Err(e) => Err(ParseTargetFrameworkError::InvalidVersion(e)),
    }
}

} // verus!
