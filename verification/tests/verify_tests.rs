use s3_largecopy::auto::VerifyIntegrity;
use s3_largecopy::errors::VerificationFailure;
use s3_largecopy::object::{MetadataEntry, ObjectHead};
use s3_largecopy::verify::{
    extract_checksum_value, labelled_checksum, preferred_algorithm, verify_checksum, verify_copy,
    ChecksumAlgorithm,
};

fn head(size: i64, etag: &str) -> ObjectHead {
    ObjectHead::bare(size, etag.to_string())
}

/// Confirms checksum extraction prefers SHA256 over other checksum headers when available.
#[test]
fn extract_checksum_value_prefers_sha256() {
    let mut meta = head(1, "");
    meta.checksums.sha1 = Some("sha1-value".to_string());
    meta.checksums.sha256 = Some("sha256-value".to_string());

    let extracted = extract_checksum_value(&meta);
    assert_eq!(extracted.as_deref(), Some("SHA256:sha256-value"));
}

/// Verifies checksum verification succeeds when source and destination checksums match.
#[test]
fn verify_checksum_with_mock_provider_succeeds_on_match() {
    let result = verify_checksum(Some("SHA256:abc".to_string()), Some("SHA256:abc".to_string()));
    assert!(result.is_ok());
}

/// Verifies checksum verification fails with an explicit mismatch when checksums differ.
#[test]
fn verify_checksum_with_mock_provider_fails_on_mismatch() {
    let err = verify_checksum(Some("SHA256:src".to_string()), Some("SHA256:dst".to_string()))
        .expect_err("mismatched checksums must fail");
    assert!(err.message().contains("Checksum mismatch"));
}

/// Verifies checksum verification fails when checksum headers are unavailable.
#[test]
fn verify_checksum_with_mock_provider_fails_when_missing() {
    let err = verify_checksum(None, None).expect_err("missing checksums must fail");
    assert!(err
        .message()
        .contains("Checksum verification requested but checksum headers are not available"));
}

#[test]
fn checksum_precedence_is_sha256_sha1_crc32c_crc32() {
    let mut meta = head(1, "");
    assert_eq!(extract_checksum_value(&meta), None);
    assert_eq!(preferred_algorithm(&meta.checksums), None);
    meta.checksums.crc32 = Some("a".to_string());
    assert_eq!(extract_checksum_value(&meta).as_deref(), Some("CRC32:a"));
    meta.checksums.crc32c = Some("b".to_string());
    assert_eq!(extract_checksum_value(&meta).as_deref(), Some("CRC32C:b"));
    meta.checksums.sha1 = Some("c".to_string());
    assert_eq!(extract_checksum_value(&meta).as_deref(), Some("SHA1:c"));
    assert_eq!(preferred_algorithm(&meta.checksums), Some(ChecksumAlgorithm::Sha1));
    meta.checksums.sha256 = Some("d".to_string());
    assert_eq!(extract_checksum_value(&meta).as_deref(), Some("SHA256:d"));
    assert_eq!(preferred_algorithm(&meta.checksums), Some(ChecksumAlgorithm::Sha256));
    assert_eq!(
        labelled_checksum(&meta.checksums, ChecksumAlgorithm::Crc32).as_deref(),
        Some("CRC32:a")
    );
}

#[test]
fn verify_checksum_reports_both_values() {
    let err = verify_checksum(Some("SHA1:x".to_string()), Some("SHA1:y".to_string())).unwrap_err();
    assert_eq!(
        err,
        VerificationFailure::ChecksumMismatch {
            source: "SHA1:x".to_string(),
            destination: "SHA1:y".to_string()
        }
    );
    assert_eq!(err.message(), "Checksum mismatch: source=SHA1:x destination=SHA1:y");
    assert_eq!(
        verify_checksum(Some("SHA1:x".to_string()), None),
        Err(VerificationFailure::ChecksumUnavailable)
    );
    assert_eq!(
        verify_checksum(None, Some("SHA1:x".to_string())),
        Err(VerificationFailure::ChecksumUnavailable)
    );
}

#[test]
fn size_mismatch_fails_whatever_the_mode() {
    let source = head(10, "\"e\"");
    let destination = head(11, "\"e\"");
    for mode in [VerifyIntegrity::Etag, VerifyIntegrity::Checksum] {
        let err = verify_copy(mode, &source, &destination).unwrap_err();
        assert_eq!(err, VerificationFailure::SizeMismatch { source_size: 10, destination_size: 11 });
        assert_eq!(
            err.message(),
            "Verification failed: source/destination size mismatch (10 != 11)"
        );
    }
    assert_eq!(verify_copy(VerifyIntegrity::Off, &source, &destination), Ok(()));
}

#[test]
fn etag_mode_accepts_equal_or_recorded_etag() {
    let source = head(10, "\"abc\"");
    assert_eq!(verify_copy(VerifyIntegrity::Etag, &source, &head(10, "\"abc\"")), Ok(()));

    let mut recorded = head(10, "\"multipart-7\"");
    recorded
        .metadata
        .push(MetadataEntry { key: "source-etag".to_string(), value: "abc".to_string() });
    assert_eq!(verify_copy(VerifyIntegrity::Etag, &source, &recorded), Ok(()));

    let mut other = head(10, "\"multipart-7\"");
    other.metadata.push(MetadataEntry { key: "source-etag".to_string(), value: "xyz".to_string() });
    assert_eq!(
        verify_copy(VerifyIntegrity::Etag, &source, &other),
        Err(VerificationFailure::EtagMismatch)
    );
    assert_eq!(
        verify_copy(VerifyIntegrity::Etag, &source, &head(10, "\"multipart-7\"")),
        Err(VerificationFailure::EtagMismatch)
    );
}

#[test]
fn checksum_mode_compares_the_sources_algorithm() {
    let mut source = head(10, "a");
    let mut destination = head(10, "b");
    assert_eq!(
        verify_copy(VerifyIntegrity::Checksum, &source, &destination),
        Err(VerificationFailure::ChecksumUnavailable)
    );
    source.checksums.sha1 = Some("one".to_string());
    assert_eq!(
        verify_copy(VerifyIntegrity::Checksum, &source, &destination),
        Err(VerificationFailure::ChecksumUnavailable)
    );
    // The destination advertises a stronger checksum too: the source's algorithm decides.
    destination.checksums.sha256 = Some("strong".to_string());
    destination.checksums.sha1 = Some("one".to_string());
    assert_eq!(verify_copy(VerifyIntegrity::Checksum, &source, &destination), Ok(()));
    destination.checksums.sha1 = Some("two".to_string());
    assert_eq!(
        verify_copy(VerifyIntegrity::Checksum, &source, &destination),
        Err(VerificationFailure::ChecksumMismatch {
            source: "SHA1:one".to_string(),
            destination: "SHA1:two".to_string()
        })
    );
}

#[test]
fn messages_of_the_other_failures() {
    assert_eq!(
        VerificationFailure::EtagMismatch.message(),
        "Verification failed: ETag mismatch and source-etag metadata mismatch"
    );
    assert_eq!(
        VerificationFailure::HeadUnavailable.message(),
        "Verification failed: object metadata is not available"
    );
    assert_eq!(
        VerificationFailure::SizeMismatch { source_size: -3, destination_size: 120 }.message(),
        "Verification failed: source/destination size mismatch (-3 != 120)"
    );
    assert_eq!(
        VerificationFailure::SizeMismatch { source_size: i64::MIN, destination_size: i64::MAX }
            .message(),
        "Verification failed: source/destination size mismatch (-9223372036854775808 != 9223372036854775807)"
    );
}
