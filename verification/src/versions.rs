//! Semantic versions and version requirements (through the `semver` crate), and decimal
//! formatting of numbers for the requirement texts built here.
use vstd::prelude::*;

verus! {

/// `semver::VersionReq`, carried through as an opaque value.
#[verifier::external_type_specification]
#[verifier::external_body]
pub struct ExVersionReq(semver::VersionReq);

/// `semver::Error`, carried through as an opaque value.
#[verifier::external_type_specification]
#[verifier::external_body]
pub struct ExSemverError(semver::Error);

/// Whether `semver::VersionReq::parse` accepts the text.
pub uninterp spec fn semver_req_parses(text: Seq<char>) -> bool;

/// A version requirement together with the text it was parsed from. Only
/// [`parse_version_req`] builds one, so the requirement is always the parse of the text;
/// its view is that text.
#[derive(Debug)]
pub struct SdkRequirement {
    text: String,
    requirement: semver::VersionReq,
}

impl View for SdkRequirement {
    type V = Seq<char>;

    closed spec fn view(&self) -> Seq<char> {
        self.text@
    }
}

impl SdkRequirement {
    /// The text that the requirement was parsed from.
    pub fn text(&self) -> (r: &String)
        ensures
            r@ == self@,
    {
        &self.text
    }

    /// The requirement, as `semver` parsed it from [`SdkRequirement::text`].
    pub fn requirement(&self) -> &semver::VersionReq {
        &self.requirement
    }

    /// The requirement, as `semver` parsed it from the text.
    pub fn into_requirement(self) -> semver::VersionReq {
        self.requirement
    }

    /// Parses a version requirement, keeping its text: `Ok` exactly where `semver` accepts
    /// the text.
    pub fn parse(text: &str) -> (r: Result<SdkRequirement, semver::Error>)
        ensures
            r is Ok <==> semver_req_parses(text@),
            r matches Ok(q) ==> q@ == text@,
    {
        parse_version_req(crate::text::str_to_string(text))
    }
}

/// How `semver` displays the requirement that it parses from `text`.
pub uninterp spec fn semver_req_display(text: Seq<char>) -> Seq<char>;

/// The display text of the requirement (`ToString` of `semver::VersionReq`), a function of
/// the text it was parsed from.
#[verifier::external_body]
pub(crate) fn requirement_display(q: &SdkRequirement) -> (r: String)
    ensures
        r@ == semver_req_display(q@),
{
    q.requirement.to_string()
}

/// `semver::VersionReq::parse`, keeping the parsed text beside the requirement. Stated: it
/// succeeds exactly where the named check holds, and what it gives is the parse of `text`.
#[verifier::external_body]
pub(crate) fn parse_version_req(text: String) -> (r: Result<SdkRequirement, semver::Error>)
    ensures
        r is Ok <==> semver_req_parses(text@),
        r matches Ok(q) ==> q@ == text@,
{
    semver::VersionReq::parse(&text).map(|requirement| SdkRequirement { text, requirement })
}

/// The `(major, minor, patch)` numbers of a version that `semver::Version::parse` accepts,
/// or `None` when it rejects the text.
pub uninterp spec fn semver_version_numbers(text: Seq<char>) -> Option<(u64, u64, u64)>;

/// `semver::Version::parse`, giving the major, minor and patch numbers of the parsed version.
#[verifier::external_body]
pub(crate) fn parse_version_numbers(text: &str) -> (r: Result<(u64, u64, u64), semver::Error>)
    ensures
        match r {
            Ok(t) => semver_version_numbers(text@) == Some(t),
            Err(_) => semver_version_numbers(text@) is None,
        },
{
    semver::Version::parse(text).map(|v| (v.major, v.minor, v.patch))
}

/// The decimal digit character for `d < 10`.
pub open spec fn digit_char(d: nat) -> char {
    (('0' as int) + d) as char
}

/// The decimal representation of `n`, without leading zeros (`0` for zero).
pub open spec fn decimal(n: nat) -> Seq<char>
    decreases n,
{
    if n < 10 {
        seq![digit_char(n)]
    } else {
        decimal(n / 10).push(digit_char(n % 10))
    }
}

fn digit(d: u128) -> (c: char)
    requires
        d < 10,
    ensures
        c == digit_char(d as nat),
{
    let b: u8 = 48u8 + (d as u8);
    b as char
}

/// Appends the decimal representation of `n` to `out`.
pub fn push_decimal(out: &mut Vec<char>, n: u128)
    ensures
        final(out)@ == old(out)@ + decimal(n as nat),
    decreases n,
{
    if n < 10 {
        out.push(digit(n));
        assert(old(out)@ + decimal(n as nat) =~= old(out)@.push(digit_char(n as nat)));
    } else {
        push_decimal(out, n / 10);
        out.push(digit(n % 10));
        assert(old(out)@ + decimal(n as nat) =~= old(out)@ + decimal((n / 10) as nat) + seq![
            digit_char((n % 10) as nat),
        ]);
    }
}

} // verus!
