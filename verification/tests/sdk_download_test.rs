use dotnet_buildpack::buildpack::SdkLayerError;
use dotnet_buildpack::dotnet::runtime_identifier::{Arch, Os};
use dotnet_buildpack::sdk_download::{
    check_archive_checksum, next_download_step, retry_message, reuse_cached_sdk, DownloadOutcome, DownloadStep,
    SdkArtifactFacts, MAX_RETRIES,
};

#[test]
fn io_errors_are_retried_until_the_fifth_attempt() {
    for attempt in 1..5 {
        assert_eq!(
            next_download_step(attempt, DownloadOutcome::IoFailed),
            DownloadStep::Retry
        );
    }
    assert_eq!(next_download_step(5, DownloadOutcome::IoFailed), DownloadStep::GiveUp);
    assert_eq!(next_download_step(6, DownloadOutcome::IoFailed), DownloadStep::GiveUp);
    assert_eq!(MAX_RETRIES + 1, 5);
}

#[test]
fn other_errors_are_not_retried() {
    for attempt in 1..7 {
        assert_eq!(
            next_download_step(attempt, DownloadOutcome::OtherFailed),
            DownloadStep::GiveUp
        );
    }
}

#[test]
fn a_successful_download_is_done() {
    for attempt in 1..7 {
        assert_eq!(
            next_download_step(attempt, DownloadOutcome::Succeeded),
            DownloadStep::Done
        );
    }
}

#[test]
fn retried_attempts_are_announced() {
    assert_eq!(retry_message(1), None);
    assert_eq!(retry_message(2), Some("Retrying download (2/5)".to_string()));
    assert_eq!(retry_message(5), Some("Retrying download (5/5)".to_string()));
}

fn facts(version: &str, checksum: &[u8]) -> SdkArtifactFacts {
    SdkArtifactFacts {
        version: version.to_string(),
        os: Os::Linux,
        arch: Arch::Amd64,
        url: format!("https://example.com/dotnet-sdk-{version}-linux-x64.tar.gz"),
        checksum: checksum.to_vec(),
    }
}

#[test]
fn the_same_cached_sdk_is_reused() {
    assert!(reuse_cached_sdk(&facts("8.0.100", &[1, 2, 3]), &facts("8.0.100", &[1, 2, 3])));
}

#[test]
fn a_different_cached_sdk_is_replaced() {
    assert!(!reuse_cached_sdk(&facts("8.0.100", &[1, 2, 3]), &facts("8.0.101", &[1, 2, 3])));
    assert!(!reuse_cached_sdk(&facts("8.0.100", &[1, 2, 3]), &facts("8.0.100", &[1, 2, 4])));
    let mut other_arch = facts("8.0.100", &[1, 2, 3]);
    other_arch.arch = Arch::Arm64;
    assert!(!reuse_cached_sdk(&facts("8.0.100", &[1, 2, 3]), &other_arch));
}

#[test]
fn archive_checksums_must_match() {
    assert!(check_archive_checksum(vec![0xaa, 0xbb], vec![0xaa, 0xbb]).is_ok());
    match check_archive_checksum(vec![0xaa, 0xbb], vec![0xaa, 0xbc]) {
        Err(SdkLayerError::VerifyArchiveChecksum { expected, actual }) => {
            assert_eq!(expected, vec![0xaa, 0xbb]);
            assert_eq!(actual, vec![0xaa, 0xbc]);
        }
        other => panic!("unexpected {other:?}"),
    }
}
