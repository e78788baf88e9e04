//! What can go wrong: the store's errors, and the engine's own.

use vstd::prelude::*;
use vstd::string::StringExecFns;
use crate::text::{optional_text, push_signed_decimal, same_text, signed_decimal_text, text_from, Text};

verus! {

/// How the store classifies a failed request.
#[derive(Copy, Clone, Debug, PartialEq, Eq, Structural)]
pub enum StoreErrorKind {
    NotFound,
    AccessDenied,
    Transient,
    Other,
}

/// A failed request to the store.
#[derive(Clone, Debug, PartialEq, Eq)]
pub struct StoreError {
    pub kind: StoreErrorKind,
    pub message: String,
}

impl DeepView for StoreError {
    type V = (StoreErrorKind, Text);

    open spec fn deep_view(&self) -> (StoreErrorKind, Text) {
        (self.kind, self.message@)
    }
}

/// How a failed request is classified by the error code that the store
/// sent with it: codes for what is not there, for what is not allowed, and
/// for what may work when tried again; anything else, or no code, is `Other`.
pub open spec fn kind_of_code(code: Option<Text>) -> StoreErrorKind {
    match code {
        None => StoreErrorKind::Other,
        Some(c) => if c == "NotFound"@ || c == "NoSuchKey"@ || c == "NoSuchBucket"@ || c
            == "NoSuchUpload"@ {
            StoreErrorKind::NotFound
        } else if c == "AccessDenied"@ {
            StoreErrorKind::AccessDenied
        } else if c == "SlowDown"@ || c == "RequestTimeout"@ || c == "InternalError"@ || c
            == "ServiceUnavailable"@ {
            StoreErrorKind::Transient
        } else {
            StoreErrorKind::Other
        },
    }
}

/// Classifies a failed request by its error code.
pub fn classify_error_code(code: &Option<String>) -> (kind: StoreErrorKind)
    ensures
        kind == kind_of_code(optional_text(*code)),
{
    match code {
        None => StoreErrorKind::Other,
        Some(text) => {
            let c = text.as_str();
            if same_text(c, "NotFound") || same_text(c, "NoSuchKey") || same_text(
                c,
                "NoSuchBucket",
            ) || same_text(c, "NoSuchUpload") {
                StoreErrorKind::NotFound
            } else if same_text(c, "AccessDenied") {
                StoreErrorKind::AccessDenied
            } else if same_text(c, "SlowDown") || same_text(c, "RequestTimeout") || same_text(
                c,
                "InternalError",
            ) || same_text(c, "ServiceUnavailable") {
                StoreErrorKind::Transient
            } else {
                StoreErrorKind::Other
            }
        },
    }
}

/// The request of a multipart upload that failed.
#[derive(Copy, Clone, Debug, PartialEq, Eq, Structural)]
pub enum UploadStage {
    Initiate,
    Part,
    Complete,
    Abort,
}

/// The configured value that is out of its range.
#[derive(Copy, Clone, Debug, PartialEq, Eq, Structural)]
pub enum LimitKind {
    PartSize,
    Concurrency,
}

/// Why a finished copy was not accepted.
#[derive(Clone, Debug, PartialEq, Eq)]
pub enum VerificationFailure {
    HeadUnavailable,
    SizeMismatch { source_size: i64, destination_size: i64 },
    EtagMismatch,
    ChecksumMismatch { source: String, destination: String },
    ChecksumUnavailable,
}

/// A failed verification in contracts.
pub ghost enum VerificationFailureView {
    HeadUnavailable,
    SizeMismatch { source_size: int, destination_size: int },
    EtagMismatch,
    ChecksumMismatch { source: Text, destination: Text },
    ChecksumUnavailable,
}

impl DeepView for VerificationFailure {
    type V = VerificationFailureView;

    open spec fn deep_view(&self) -> VerificationFailureView {
        match *self {
            VerificationFailure::HeadUnavailable => VerificationFailureView::HeadUnavailable,
            VerificationFailure::SizeMismatch { source_size, destination_size } => {
                VerificationFailureView::SizeMismatch {
                    source_size: source_size as int,
                    destination_size: destination_size as int,
                }
            },
            VerificationFailure::EtagMismatch => VerificationFailureView::EtagMismatch,
            VerificationFailure::ChecksumMismatch { source, destination } => {
                VerificationFailureView::ChecksumMismatch {
                    source: source@,
                    destination: destination@,
                }
            },
            VerificationFailure::ChecksumUnavailable => VerificationFailureView::ChecksumUnavailable,
        }
    }
}

/// Why a copy ended without success.
#[derive(Clone, Debug, PartialEq, Eq)]
pub enum CopyError {
    SourceNotFound,
    SourceHeadFailed(StoreError),
    EmptySource,
    DestinationHeadFailed(StoreError),
    TagFetchFailed(StoreError),
    CopyObjectFailed(StoreError),
    TagSyncFailed(StoreError),
    UploadLifecycleFailed(UploadStage, StoreError),
    PartLimitExceeded,
    VerificationFailed(VerificationFailure),
    LimitExceeded(LimitKind),
    UnexpectedEvent,
}

/// A failed copy in contracts.
pub ghost enum CopyErrorView {
    SourceNotFound,
    SourceHeadFailed((StoreErrorKind, Text)),
    EmptySource,
    DestinationHeadFailed((StoreErrorKind, Text)),
    TagFetchFailed((StoreErrorKind, Text)),
    CopyObjectFailed((StoreErrorKind, Text)),
    TagSyncFailed((StoreErrorKind, Text)),
    UploadLifecycleFailed(UploadStage, (StoreErrorKind, Text)),
    PartLimitExceeded,
    VerificationFailed(VerificationFailureView),
    LimitExceeded(LimitKind),
    UnexpectedEvent,
}

impl DeepView for CopyError {
    type V = CopyErrorView;

    open spec fn deep_view(&self) -> CopyErrorView {
        match *self {
            CopyError::SourceNotFound => CopyErrorView::SourceNotFound,
            CopyError::SourceHeadFailed(e) => CopyErrorView::SourceHeadFailed(e.deep_view()),
            CopyError::EmptySource => CopyErrorView::EmptySource,
            CopyError::DestinationHeadFailed(e) => CopyErrorView::DestinationHeadFailed(
                e.deep_view(),
            ),
            CopyError::TagFetchFailed(e) => CopyErrorView::TagFetchFailed(e.deep_view()),
            CopyError::CopyObjectFailed(e) => CopyErrorView::CopyObjectFailed(e.deep_view()),
            CopyError::TagSyncFailed(e) => CopyErrorView::TagSyncFailed(e.deep_view()),
            CopyError::UploadLifecycleFailed(stage, e) => CopyErrorView::UploadLifecycleFailed(
                stage,
                e.deep_view(),
            ),
            CopyError::PartLimitExceeded => CopyErrorView::PartLimitExceeded,
            CopyError::VerificationFailed(f) => CopyErrorView::VerificationFailed(f.deep_view()),
            CopyError::LimitExceeded(kind) => CopyErrorView::LimitExceeded(kind),
            CopyError::UnexpectedEvent => CopyErrorView::UnexpectedEvent,
        }
    }
}

/// What the outcome of a copy is in contracts.
pub open spec fn outcome_view(outcome: Result<(), CopyError>) -> Result<(), CopyErrorView> {
    match outcome {
        Ok(()) => Ok(()),
        Err(e) => Err(e.deep_view()),
    }
}

/// What the outcome of a verification is in contracts.
pub open spec fn verdict_view(verdict: Result<(), VerificationFailure>) -> Result<
    (),
    VerificationFailureView,
> {
    match verdict {
        Ok(()) => Ok(()),
        Err(f) => Err(f.deep_view()),
    }
}

/// The sentence that tells a user of a failed verification.
pub open spec fn verification_message(failure: VerificationFailureView) -> Text {
    match failure {
        VerificationFailureView::HeadUnavailable => {
            "Verification failed: object metadata is not available"@
        },
        VerificationFailureView::SizeMismatch { source_size, destination_size } => {
            "Verification failed: source/destination size mismatch ("@ + signed_decimal_text(
                source_size,
            ) + " != "@ + signed_decimal_text(destination_size) + ")"@
        },
        VerificationFailureView::EtagMismatch => {
            "Verification failed: ETag mismatch and source-etag metadata mismatch"@
        },
        VerificationFailureView::ChecksumMismatch { source, destination } => {
            "Checksum mismatch: source="@ + source + " destination="@ + destination
        },
        VerificationFailureView::ChecksumUnavailable => {
            "Checksum verification requested but checksum headers are not available. Use --checksum-algorithm during copy."@
        },
    }
}

/// The words that name the failed request of a multipart upload.
pub open spec fn stage_message(stage: UploadStage) -> Text {
    match stage {
        UploadStage::Initiate => "Failed to initiate multipart upload: "@,
        UploadStage::Part => "Failed to upload part: "@,
        UploadStage::Complete => "Failed to complete multipart upload: "@,
        UploadStage::Abort => "Failed to abort multipart upload: "@,
    }
}

/// The sentence that tells a user of a failed copy.
pub open spec fn error_message(error: CopyErrorView) -> Text {
    match error {
        CopyErrorView::SourceNotFound => "Source object not found"@,
        CopyErrorView::SourceHeadFailed(e) => "Failed to get source metadata: "@ + e.1,
        CopyErrorView::EmptySource => "Source object is empty"@,
        CopyErrorView::DestinationHeadFailed(e) => "Failed to get destination metadata: "@ + e.1,
        CopyErrorView::TagFetchFailed(e) => "Failed to get tagging: "@ + e.1,
        CopyErrorView::CopyObjectFailed(e) => "Failed to copy object: "@ + e.1,
        CopyErrorView::TagSyncFailed(e) => "Failed to sync tags: "@ + e.1,
        CopyErrorView::UploadLifecycleFailed(stage, e) => stage_message(stage) + e.1,
        CopyErrorView::PartLimitExceeded => "Object needs more than 10000 parts"@,
        CopyErrorView::VerificationFailed(f) => verification_message(f),
        CopyErrorView::LimitExceeded(kind) => match kind {
            LimitKind::PartSize => "Part size must be between 5 and 5120 MB"@,
            LimitKind::Concurrency => "Concurrency must be between 1 and 1000"@,
        },
        CopyErrorView::UnexpectedEvent => "The store's reply does not answer the request"@,
    }
}

impl VerificationFailure {
    /// The sentence that tells a user of the failure.
    pub fn message(&self) -> (text: String)
        ensures
            text@ == verification_message(self.deep_view()),
    {
        match self {
            VerificationFailure::HeadUnavailable => text_from(
                "Verification failed: object metadata is not available",
            ),
            VerificationFailure::SizeMismatch { source_size, destination_size } => {
                let mut text = text_from(
                    "Verification failed: source/destination size mismatch (",
                );
                push_signed_decimal(&mut text, *source_size);
                text.append(" != ");
                push_signed_decimal(&mut text, *destination_size);
                text.append(")");
                text
            },
            VerificationFailure::EtagMismatch => text_from(
                "Verification failed: ETag mismatch and source-etag metadata mismatch",
            ),
            VerificationFailure::ChecksumMismatch { source, destination } => {
                let mut text = text_from("Checksum mismatch: source=");
                text.append(source.as_str());
                text.append(" destination=");
                text.append(destination.as_str());
                text
            },
            VerificationFailure::ChecksumUnavailable => text_from(
                "Checksum verification requested but checksum headers are not available. Use --checksum-algorithm during copy.",
            ),
        }
    }
}

fn prefixed(prefix: &str, error: &StoreError) -> (text: String)
    ensures
        text@ == prefix@ + error.message@,
{
    let mut text = text_from(prefix);
    text.append(error.message.as_str());
    text
}

impl CopyError {
    /// The sentence that tells a user of the error.
    pub fn message(&self) -> (text: String)
        ensures
            text@ == error_message(self.deep_view()),
    {
        match self {
            CopyError::SourceNotFound => text_from("Source object not found"),
            CopyError::SourceHeadFailed(e) => prefixed("Failed to get source metadata: ", e),
            CopyError::EmptySource => text_from("Source object is empty"),
            CopyError::DestinationHeadFailed(e) => prefixed(
                "Failed to get destination metadata: ",
                e,
            ),
            CopyError::TagFetchFailed(e) => prefixed("Failed to get tagging: ", e),
            CopyError::CopyObjectFailed(e) => prefixed("Failed to copy object: ", e),
            CopyError::TagSyncFailed(e) => prefixed("Failed to sync tags: ", e),
            CopyError::UploadLifecycleFailed(stage, e) => match stage {
                UploadStage::Initiate => prefixed("Failed to initiate multipart upload: ", e),
                UploadStage::Part => prefixed("Failed to upload part: ", e),
                UploadStage::Complete => prefixed("Failed to complete multipart upload: ", e),
                UploadStage::Abort => prefixed("Failed to abort multipart upload: ", e),
            },
            CopyError::PartLimitExceeded => text_from("Object needs more than 10000 parts"),
            CopyError::VerificationFailed(f) => f.message(),
            CopyError::LimitExceeded(kind) => match kind {
                LimitKind::PartSize => text_from("Part size must be between 5 and 5120 MB"),
                LimitKind::Concurrency => text_from("Concurrency must be between 1 and 1000"),
            },
            CopyError::UnexpectedEvent => text_from(
                "The store's reply does not answer the request",
            ),
        }
    }
}

} // verus!
