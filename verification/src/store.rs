//! The engine's side of the object store: the requests it asks for and the
//! replies it takes.

use vstd::prelude::*;
use crate::errors::{outcome_view, CopyError, CopyErrorView, StoreError, StoreErrorKind};
use crate::headers::{WriteRequest, WriteRequestView};
use crate::object::{optional_head, optional_tags, ObjectHead, ObjectHeadView, Tag};
use crate::parts::{CompletedPart, PartSpec};
use crate::text::{optional_text, same_text, text_from, Text};

verus! {

/// What the copy of one window of parts reported: the copied parts in any
/// order, the wall-clock time of the window, the sum of the times that the
/// parts took, and whether the store pushed back.
#[derive(Clone, Debug, PartialEq, Eq)]
pub struct WindowReport {
    pub parts: Vec<CompletedPart>,
    pub wall_nanos: u64,
    pub part_nanos_total: u64,
    pub had_retryable_pressure: bool,
}

/// A window's report in contracts.
pub ghost struct WindowReportView {
    pub parts: Seq<(int, Text)>,
    pub wall_nanos: u64,
    pub part_nanos_total: u64,
    pub had_retryable_pressure: bool,
}

impl DeepView for WindowReport {
    type V = WindowReportView;

    open spec fn deep_view(&self) -> WindowReportView {
        WindowReportView {
            parts: self.parts.deep_view(),
            wall_nanos: self.wall_nanos,
            part_nanos_total: self.part_nanos_total,
            had_retryable_pressure: self.had_retryable_pressure,
        }
    }
}

/// What the reply to a tagging read is in contracts.
pub open spec fn tags_reply_view(reply: Result<Option<Vec<Tag>>, StoreError>) -> Result<
    Option<Seq<(Text, Text)>>,
    (StoreErrorKind, Text),
> {
    match reply {
        Ok(tags) => Ok(optional_tags(tags)),
        Err(e) => Err(e.deep_view()),
    }
}

/// A reply of the store, or the signal to begin.
#[derive(Debug, PartialEq, Eq)]
pub enum Event {
    /// Nothing was asked yet.
    Start,
    /// The reply to a HEAD request; `None` for an object that is not there.
    Head(Result<Option<ObjectHead>, StoreError>),
    /// The reply to a tagging read; `None` for an object that is not there.
    Tags(Result<Option<Vec<Tag>>, StoreError>),
    /// The reply to a bucket location read: the location constraint.
    Region(Result<Option<String>, StoreError>),
    /// The reply to a write that returns nothing.
    Written(Result<(), StoreError>),
    /// The reply to a multipart upload's creation: the upload id.
    UploadCreated(Result<String, StoreError>),
    /// The reply to the copy of a window of parts.
    PartsCopied(Result<WindowReport, StoreError>),
}

/// A reply in contracts.
pub ghost enum EventView {
    Start,
    Head(Result<Option<ObjectHeadView>, (StoreErrorKind, Text)>),
    Tags(Result<Option<Seq<(Text, Text)>>, (StoreErrorKind, Text)>),
    Region(Result<Option<Text>, (StoreErrorKind, Text)>),
    Written(Result<(), (StoreErrorKind, Text)>),
    UploadCreated(Result<Text, (StoreErrorKind, Text)>),
    PartsCopied(Result<WindowReportView, (StoreErrorKind, Text)>),
}

impl DeepView for Event {
    type V = EventView;

    open spec fn deep_view(&self) -> EventView {
        match *self {
            Event::Start => EventView::Start,
            Event::Head(reply) => EventView::Head(
                match reply {
                    Ok(head) => Ok(optional_head(head)),
                    Err(e) => Err(e.deep_view()),
                },
            ),
            Event::Tags(reply) => EventView::Tags(tags_reply_view(reply)),
            Event::Region(reply) => EventView::Region(
                match reply {
                    Ok(constraint) => Ok(optional_text(constraint)),
                    Err(e) => Err(e.deep_view()),
                },
            ),
            Event::Written(reply) => EventView::Written(
                match reply {
                    Ok(()) => Ok(()),
                    Err(e) => Err(e.deep_view()),
                },
            ),
            Event::UploadCreated(reply) => EventView::UploadCreated(
                match reply {
                    Ok(id) => Ok(id@),
                    Err(e) => Err(e.deep_view()),
                },
            ),
            Event::PartsCopied(reply) => EventView::PartsCopied(
                match reply {
                    Ok(report) => Ok(report.deep_view()),
                    Err(e) => Err(e.deep_view()),
                },
            ),
        }
    }
}

/// What the engine asks for next.
#[derive(Debug, PartialEq, Eq)]
pub enum Action {
    HeadSource,
    HeadDestination,
    GetSourceTags,
    GetDestinationTags,
    GetSourceRegion,
    GetDestinationRegion,
    /// One server-side copy of the whole object, replacing metadata.
    CopyObject(WriteRequest),
    /// Replace the destination's tags.
    PutObjectTagging(Vec<Tag>),
    CreateMultipartUpload(WriteRequest),
    /// Copy the parts concurrently and report when all have ended. In a
    /// simulated window nothing is sent to the store.
    CopyParts { upload_id: String, batch: Vec<PartSpec>, simulated: bool },
    CompleteMultipartUpload { upload_id: String, parts: Vec<CompletedPart> },
    AbortMultipartUpload { upload_id: String },
    /// The copy has ended; nothing more is asked.
    Finish(Result<(), CopyError>),
}

/// A request in contracts.
pub ghost enum ActionView {
    HeadSource,
    HeadDestination,
    GetSourceTags,
    GetDestinationTags,
    GetSourceRegion,
    GetDestinationRegion,
    CopyObject(WriteRequestView),
    PutObjectTagging(Seq<(Text, Text)>),
    CreateMultipartUpload(WriteRequestView),
    CopyParts { upload_id: Text, batch: Seq<PartSpec>, simulated: bool },
    CompleteMultipartUpload { upload_id: Text, parts: Seq<(int, Text)> },
    AbortMultipartUpload { upload_id: Text },
    Finish(Result<(), CopyErrorView>),
}

impl DeepView for Action {
    type V = ActionView;

    open spec fn deep_view(&self) -> ActionView {
        match *self {
            Action::HeadSource => ActionView::HeadSource,
            Action::HeadDestination => ActionView::HeadDestination,
            Action::GetSourceTags => ActionView::GetSourceTags,
            Action::GetDestinationTags => ActionView::GetDestinationTags,
            Action::GetSourceRegion => ActionView::GetSourceRegion,
            Action::GetDestinationRegion => ActionView::GetDestinationRegion,
            Action::CopyObject(request) => ActionView::CopyObject(request.deep_view()),
            Action::PutObjectTagging(tags) => ActionView::PutObjectTagging(tags.deep_view()),
            Action::CreateMultipartUpload(request) => ActionView::CreateMultipartUpload(
                request.deep_view(),
            ),
            Action::CopyParts { upload_id, batch, simulated } => ActionView::CopyParts {
                upload_id: upload_id@,
                batch: batch@,
                simulated,
            },
            Action::CompleteMultipartUpload { upload_id, parts } => {
                ActionView::CompleteMultipartUpload {
                    upload_id: upload_id@,
                    parts: parts.deep_view(),
                }
            },
            Action::AbortMultipartUpload { upload_id } => ActionView::AbortMultipartUpload {
                upload_id: upload_id@,
            },
            Action::Finish(outcome) => ActionView::Finish(outcome_view(outcome)),
        }
    }
}

/// Whether a request changes what the store holds.
pub open spec fn is_store_write(action: ActionView) -> bool {
    match action {
        ActionView::CopyObject(_) => true,
        ActionView::PutObjectTagging(_) => true,
        ActionView::CreateMultipartUpload(_) => true,
        ActionView::CopyParts { simulated, .. } => !simulated,
        ActionView::CompleteMultipartUpload { .. } => true,
        ActionView::AbortMultipartUpload { .. } => true,
        _ => false,
    }
}

/// The region that a bucket's location constraint names: none, or an empty
/// one, is `us-east-1`, and the legacy `EU` is `eu-west-1`.
pub open spec fn region_of(constraint: Option<Text>) -> Text {
    match constraint {
        None => "us-east-1"@,
        Some(name) => if name.len() == 0 {
            "us-east-1"@
        } else if name == "EU"@ {
            "eu-west-1"@
        } else {
            name
        },
    }
}

/// The region of a bucket, from its location constraint.
pub fn bucket_region(constraint: &Option<String>) -> (region: String)
    ensures
        region@ == region_of(optional_text(*constraint)),
{
    match constraint {
        None => text_from("us-east-1"),
        Some(name) => {
            if name.as_str().is_empty() {
                text_from("us-east-1")
            } else if same_text(name.as_str(), "EU") {
                text_from("eu-west-1")
            } else {
                name.clone()
            }
        },
    }
}

} // verus!
