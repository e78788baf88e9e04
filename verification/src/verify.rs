//! The verifier: what is compared after a copy before it counts as done.

use vstd::prelude::*;
use vstd::string::StringExecFns;
use crate::auto::VerifyIntegrity;
use crate::errors::{verdict_view, VerificationFailure, VerificationFailureView};
use crate::object::{Checksums, ChecksumsView, ObjectHead, ObjectHeadView};
use crate::strategy::{etag_matches, has_matching_etag};
use crate::text::{optional_text, same_text, text_from, Text};

verus! {

/// The checksum algorithms of the store, strongest first.
#[derive(Copy, Clone, Debug, PartialEq, Eq, Structural)]
pub enum ChecksumAlgorithm {
    Sha256,
    Sha1,
    Crc32c,
    Crc32,
}

/// The checksum that a head advertises for an algorithm.
pub open spec fn advertised(checksums: ChecksumsView, algorithm: ChecksumAlgorithm) -> Option<Text> {
    match algorithm {
        ChecksumAlgorithm::Sha256 => checksums.sha256,
        ChecksumAlgorithm::Sha1 => checksums.sha1,
        ChecksumAlgorithm::Crc32c => checksums.crc32c,
        ChecksumAlgorithm::Crc32 => checksums.crc32,
    }
}

/// The strongest algorithm that a head advertises a checksum for:
/// SHA256 before SHA1 before CRC32C before CRC32.
pub open spec fn preferred(checksums: ChecksumsView) -> Option<ChecksumAlgorithm> {
    if checksums.sha256 is Some {
        Some(ChecksumAlgorithm::Sha256)
    } else if checksums.sha1 is Some {
        Some(ChecksumAlgorithm::Sha1)
    } else if checksums.crc32c is Some {
        Some(ChecksumAlgorithm::Crc32c)
    } else if checksums.crc32 is Some {
        Some(ChecksumAlgorithm::Crc32)
    } else {
        None
    }
}

/// The algorithm's name and a colon, as a checksum value starts.
pub open spec fn label(algorithm: ChecksumAlgorithm) -> Text {
    match algorithm {
        ChecksumAlgorithm::Sha256 => "SHA256:"@,
        ChecksumAlgorithm::Sha1 => "SHA1:"@,
        ChecksumAlgorithm::Crc32c => "CRC32C:"@,
        ChecksumAlgorithm::Crc32 => "CRC32:"@,
    }
}

/// A head's checksum for an algorithm, behind the algorithm's label.
pub open spec fn labelled(checksums: ChecksumsView, algorithm: ChecksumAlgorithm) -> Option<Text> {
    match advertised(checksums, algorithm) {
        Some(value) => Some(label(algorithm) + value),
        None => None,
    }
}

/// The checksum value of a head: that of its strongest algorithm.
pub open spec fn checksum_value(checksums: ChecksumsView) -> Option<Text> {
    match preferred(checksums) {
        Some(algorithm) => labelled(checksums, algorithm),
        None => None,
    }
}

/// The verdict on two checksum values: both there and equal.
pub open spec fn checksum_verdict(source: Option<Text>, destination: Option<Text>) -> Result<
    (),
    VerificationFailureView,
> {
    match (source, destination) {
        (Some(a), Some(b)) => if a == b {
            Ok(())
        } else {
            Err(VerificationFailureView::ChecksumMismatch { source: a, destination: b })
        },
        _ => Err(VerificationFailureView::ChecksumUnavailable),
    }
}

/// The destination's checksum value that answers the source's: for the
/// source's strongest algorithm.
pub open spec fn answering_checksum(source: ChecksumsView, destination: ChecksumsView) -> Option<
    Text,
> {
    match preferred(source) {
        Some(algorithm) => labelled(destination, algorithm),
        None => None,
    }
}

/// The verdict on a finished copy, from the heads of both objects: none
/// where verification is off; else the sizes must agree, and then the
/// entity tags or the checksums, by mode.
pub open spec fn verdict(mode: VerifyIntegrity, source: ObjectHeadView, destination: ObjectHeadView) -> Result<
    (),
    VerificationFailureView,
> {
    if mode == VerifyIntegrity::Off {
        Ok(())
    } else if source.size != destination.size {
        Err(
            VerificationFailureView::SizeMismatch {
                source_size: source.size as int,
                destination_size: destination.size as int,
            },
        )
    } else if mode == VerifyIntegrity::Etag {
        if etag_matches(source, destination) {
            Ok(())
        } else {
            Err(VerificationFailureView::EtagMismatch)
        }
    } else {
        checksum_verdict(
            checksum_value(source.checksums),
            answering_checksum(source.checksums, destination.checksums),
        )
    }
}

/// The strongest algorithm for which the checksums hold a value.
pub fn preferred_algorithm(checksums: &Checksums) -> (algorithm: Option<ChecksumAlgorithm>)
    ensures
        algorithm == preferred(checksums.deep_view()),
{
    if checksums.sha256.is_some() {
        Some(ChecksumAlgorithm::Sha256)
    } else if checksums.sha1.is_some() {
        Some(ChecksumAlgorithm::Sha1)
    } else if checksums.crc32c.is_some() {
        Some(ChecksumAlgorithm::Crc32c)
    } else if checksums.crc32.is_some() {
        Some(ChecksumAlgorithm::Crc32)
    } else {
        None
    }
}

fn labelled_value(name: &str, value: &Option<String>) -> (text: Option<String>)
    ensures
        optional_text(text) == match optional_text(*value) {
            Some(v) => Some(name@ + v),
            None => None,
        },
{
    match value {
        Some(v) => {
            let mut text = text_from(name);
            text.append(v.as_str());
            Some(text)
        },
        None => None,
    }
}

/// The checksum for one algorithm, as `ALGORITHM:value`.
pub fn labelled_checksum(checksums: &Checksums, algorithm: ChecksumAlgorithm) -> (text: Option<
    String,
>)
    ensures
        optional_text(text) == labelled(checksums.deep_view(), algorithm),
{
    match algorithm {
        ChecksumAlgorithm::Sha256 => labelled_value("SHA256:", &checksums.sha256),
        ChecksumAlgorithm::Sha1 => labelled_value("SHA1:", &checksums.sha1),
        ChecksumAlgorithm::Crc32c => labelled_value("CRC32C:", &checksums.crc32c),
        ChecksumAlgorithm::Crc32 => labelled_value("CRC32:", &checksums.crc32),
    }
}

/// The checksum value of an object, as `ALGORITHM:value`, for the strongest
/// algorithm that its head advertises.
pub fn extract_checksum_value(head: &ObjectHead) -> (text: Option<String>)
    ensures
        optional_text(text) == checksum_value(head.checksums.deep_view()),
{
    match preferred_algorithm(&head.checksums) {
        Some(algorithm) => labelled_checksum(&head.checksums, algorithm),
        None => None,
    }
}

/// Accepts two checksum values that are both there and equal.
pub fn verify_checksum(source: Option<String>, destination: Option<String>) -> (result: Result<
    (),
    VerificationFailure,
>)
    ensures
        verdict_view(result) == checksum_verdict(optional_text(source), optional_text(destination)),
{
    match (source, destination) {
        (Some(a), Some(b)) => {
            if same_text(a.as_str(), b.as_str()) {
                Ok(())
            } else {
                Err(VerificationFailure::ChecksumMismatch { source: a, destination: b })
            }
        },
        _ => Err(VerificationFailure::ChecksumUnavailable),
    }
}

/// Verifies a finished copy from fresh heads of both objects.
pub fn verify_copy(mode: VerifyIntegrity, source: &ObjectHead, destination: &ObjectHead) -> (result:
    Result<(), VerificationFailure>)
    ensures
        verdict_view(result) == verdict(mode, source.deep_view(), destination.deep_view()),
{
    match mode {
        VerifyIntegrity::Off => Ok(()),
        VerifyIntegrity::Etag => {
            if source.size != destination.size {
                Err(
                    VerificationFailure::SizeMismatch {
                        source_size: source.size,
                        destination_size: destination.size,
                    },
                )
            } else if has_matching_etag(source, destination) {
                Ok(())
            } else {
                Err(VerificationFailure::EtagMismatch)
            }
        },
        VerifyIntegrity::Checksum => {
            if source.size != destination.size {
                Err(
                    VerificationFailure::SizeMismatch {
                        source_size: source.size,
                        destination_size: destination.size,
                    },
                )
            } else {
                match preferred_algorithm(&source.checksums) {
                    Some(algorithm) => verify_checksum(
                        labelled_checksum(&source.checksums, algorithm),
                        labelled_checksum(&destination.checksums, algorithm),
                    ),
                    None => Err(VerificationFailure::ChecksumUnavailable),
                }
            }
        },
    }
}

/// A SHA256 checksum is taken whatever else is there,
/// then SHA1, then CRC32C, and CRC32 only when it is alone.
pub proof fn lemma_checksum_precedence(checksums: ChecksumsView)
    ensures
        checksums.sha256 is Some ==> checksum_value(checksums) == Some(
            "SHA256:"@ + checksums.sha256->0,
        ),
        checksums.sha256 is None && checksums.sha1 is Some ==> checksum_value(checksums) == Some(
            "SHA1:"@ + checksums.sha1->0,
        ),
        checksums.sha256 is None && checksums.sha1 is None && checksums.crc32c is Some
            ==> checksum_value(checksums) == Some("CRC32C:"@ + checksums.crc32c->0),
        checksums.sha256 is None && checksums.sha1 is None && checksums.crc32c is None
            && checksums.crc32 is Some ==> checksum_value(checksums) == Some(
            "CRC32:"@ + checksums.crc32->0,
        ),
        checksums.sha256 is None && checksums.sha1 is None && checksums.crc32c is None
            && checksums.crc32 is None ==> checksum_value(checksums) is None,
{
}

/// Unless verification is off, heads of
/// different sizes fail it, whatever else they hold.
pub proof fn lemma_size_mismatch_fails(
    mode: VerifyIntegrity,
    source: ObjectHeadView,
    destination: ObjectHeadView,
)
    requires
        mode != VerifyIntegrity::Off,
        source.size != destination.size,
    ensures
        verdict(mode, source, destination) == Err::<(), VerificationFailureView>(
            VerificationFailureView::SizeMismatch {
                source_size: source.size as int,
                destination_size: destination.size as int,
            },
        ),
{
}

} // verus!
