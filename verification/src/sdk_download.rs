//! Installing the .NET SDK: whether a cached SDK can be reused, and how downloading it is
//! retried: up to 5 attempts, retrying only after I/O errors.
use vstd::prelude::*;
use crate::dotnet::runtime_identifier::{Os, Arch};
use crate::text::{push_str, string_from_chars};
use crate::versions::{decimal, push_decimal};
use crate::buildpack::SdkLayerError;

verus! {

/// How many times a failed download is retried.
pub const MAX_RETRIES: usize = 4;

/// How one download attempt ended.
#[derive(Debug, PartialEq, Eq, Structural, Clone, Copy)]
pub enum DownloadOutcome {
    Succeeded,
    IoFailed,
    OtherFailed,
}

/// What to do after a download attempt.
#[derive(Debug, PartialEq, Eq, Structural, Clone, Copy)]
pub enum DownloadStep {
    Done,
    Retry,
    GiveUp,
}

/// What follows attempt number `attempt` (counted from 1) that ended with `outcome`: done
/// after a success; after an I/O error another attempt while fewer than `MAX_RETRIES + 1`
/// attempts were made, else giving up; giving up after any other error.
pub open spec fn download_step(attempt: usize, outcome: DownloadOutcome) -> DownloadStep {
    match outcome {
        DownloadOutcome::Succeeded => DownloadStep::Done,
        DownloadOutcome::IoFailed => if attempt < MAX_RETRIES + 1 {
            DownloadStep::Retry
        } else {
            DownloadStep::GiveUp
        },
        DownloadOutcome::OtherFailed => DownloadStep::GiveUp,
    }
}

/// What follows a download attempt (see [`download_step`]).
pub fn next_download_step(attempt: usize, outcome: DownloadOutcome) -> (r: DownloadStep)
    ensures
        r == download_step(attempt, outcome),
        outcome == DownloadOutcome::Succeeded ==> r == DownloadStep::Done,
        outcome == DownloadOutcome::OtherFailed ==> r == DownloadStep::GiveUp,
        outcome == DownloadOutcome::IoFailed ==> (r == DownloadStep::Retry <==> attempt < 5),
{
    match outcome {
        DownloadOutcome::Succeeded => DownloadStep::Done,
        DownloadOutcome::IoFailed => if attempt < MAX_RETRIES + 1 {
            DownloadStep::Retry
        } else {
            DownloadStep::GiveUp
        },
        DownloadOutcome::OtherFailed => DownloadStep::GiveUp,
    }
}

/// The progress text of a retried attempt: `Retrying download (<attempt>/<attempts>)`.
pub open spec fn retry_message_text(attempt: usize) -> Seq<char> {
    "Retrying download ("@ + decimal(attempt as nat) + "/"@ + decimal((MAX_RETRIES + 1) as nat) + ")"@
}

/// The progress text of attempt `attempt`: none for the first attempt (which names the
/// download's address instead), else [`retry_message_text`].
pub fn retry_message(attempt: usize) -> (r: Option<String>)
    ensures
        attempt <= 1 ==> r is None,
        attempt > 1 ==> (r matches Some(m) && m@ == retry_message_text(attempt)),
{
    if attempt <= 1 {
        return None;
    }
    let mut t: Vec<char> = Vec::new();
    push_str(&mut t, "Retrying download (");
    push_decimal(&mut t, attempt as u128);
    push_str(&mut t, "/");
    push_decimal(&mut t, (MAX_RETRIES + 1) as u128);
    push_str(&mut t, ")");
    assert(t@ =~= retry_message_text(attempt));
    Some(string_from_chars(t.as_slice()))
}

/// What identifies an SDK artifact: its version (as text), platform, address and checksum.
#[derive(Debug)]
pub struct SdkArtifactFacts {
    pub version: String,
    pub os: Os,
    pub arch: Arch,
    pub url: String,
    pub checksum: Vec<u8>,
}

impl View for SdkArtifactFacts {
    type V = (Seq<char>, Os, Arch, Seq<char>, Seq<u8>);

    open spec fn view(&self) -> (Seq<char>, Os, Arch, Seq<char>, Seq<u8>) {
        (self.version@, self.os, self.arch, self.url@, self.checksum@)
    }
}

fn bytes_equal(a: &Vec<u8>, b: &Vec<u8>) -> (r: bool)
    ensures
        r == (a@ == b@),
{
    if a.len() != b.len() {
        return false;
    }
    let mut i: usize = 0;
    while i < a.len()
        invariant
            i <= a.len(),
            a.len() == b.len(),
            forall|k: int| 0 <= k < i ==> a@[k] == b@[k],
        decreases a.len() - i,
    {
        if a[i] != b[i] {
            return false;
        }
        i += 1;
    }
    assert(a@ =~= b@);
    true
}

/// Whether the SDK cached from an earlier build is the one wanted now: the same artifact.
pub fn reuse_cached_sdk(cached: &SdkArtifactFacts, wanted: &SdkArtifactFacts) -> (r: bool)
    ensures
        r == (cached@ == wanted@),
{
    cached.version == wanted.version && cached.os == wanted.os && cached.arch == wanted.arch
        && cached.url == wanted.url && bytes_equal(&cached.checksum, &wanted.checksum)
}

/// The check of a downloaded SDK archive: its checksum `actual` must be the artifact's
/// checksum `expected`; otherwise `VerifyArchiveChecksum` holds both.
pub fn check_archive_checksum(expected: Vec<u8>, actual: Vec<u8>) -> (r: Result<(), SdkLayerError>)
    ensures
        expected@ == actual@ ==> r is Ok,
        expected@ != actual@ ==> (r matches Err(SdkLayerError::VerifyArchiveChecksum { expected: e, actual: a })
            && e@ == expected@ && a@ == actual@),
{
    if bytes_equal(&expected, &actual) {
        Ok(())
    } else {
        Err(SdkLayerError::VerifyArchiveChecksum { expected, actual })
    }
}

} // verus!
