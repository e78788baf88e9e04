//! The lifecycle of a copy as a state machine: each reply of the store moves
//! it on and yields the next request. This module holds the states and what
//! each reply leads to; the executable engine follows it step by step.

use vstd::prelude::*;
use crate::auto::{
    adapted_concurrency, clamped_part_size, cost_optimized, plan_of, probe_part_size, AutoProfile,
    VerifyIntegrity,
};
use crate::config::CopyConfigView;
use crate::errors::{CopyErrorView, StoreErrorKind, UploadStage, VerificationFailureView};
use crate::headers::{copy_request, sync_request};
use crate::limits::{
    ceil_div, max_int, min_int, S3_MAX_PARTS, S3_MAX_PART_SIZE, S3_MIN_PART_SIZE,
    SINGLE_COPY_CEILING,
};
use crate::object::ObjectHeadView;
use crate::parts::{
    answers_window, arranged, dry_run_upload_id, metrics_of, rate_bytes_s, window_parts,
};
use crate::store::{region_of, ActionView, EventView, WindowReportView};
use crate::strategy::{data_matches, full_copy, reconciliation, Strategy};
use crate::text::Text;
use crate::verify::verdict;

verus! {

/// Where a copy stands: which reply the engine waits for.
#[derive(Copy, Clone, Debug, PartialEq, Eq, Structural)]
pub enum Phase {
    /// Nothing was asked yet.
    Idle,
    /// The source's head was asked for.
    SourceHead,
    /// The destination's head was asked for.
    DestinationHead,
    /// The source's tags were asked for, to compare them.
    PrecheckSourceTags,
    /// The destination's tags were asked for, to compare them.
    PrecheckDestinationTags,
    /// A copy request that rewrites the destination's properties is out.
    PropertySync,
    /// A tagging request that rewrites the destination's tags is out.
    TagSync,
    /// The source's tags were asked for, to copy them.
    CopyTags,
    /// A copy request that publishes the object is out.
    InstantCopy,
    /// The source bucket's region was asked for.
    SourceRegion,
    /// The destination bucket's region was asked for.
    DestinationRegion,
    /// The multipart upload's creation is out.
    Planning,
    /// The upload is open and a probe part is being copied.
    Probing,
    /// The upload is open and a window of parts is being copied.
    WindowLoop,
    /// All parts are copied and the upload's completion is out.
    AllPartsReady,
    /// Something failed and the upload's abort is out.
    Aborting,
    /// The source's head was asked for again, to verify the copy.
    VerifySource,
    /// The destination's head was asked for again, to verify the copy.
    VerifyDestination,
    /// The copy has ended.
    Finished,
}

/// Where the multipart upload stands.
#[derive(Copy, Clone, Debug, PartialEq, Eq, Structural)]
pub enum UploadState {
    Unopened,
    Open,
    Completed,
    Aborted,
}

/// Lowest concurrency that the adapter goes down to, where the cap allows it.
pub const MIN_AUTO_CONCURRENCY: usize = 4;

/// The engine's state in contracts.
pub ghost struct EngineView {
    pub config: CopyConfigView,
    pub phase: Phase,
    pub source: Option<ObjectHeadView>,
    pub destination: Option<ObjectHeadView>,
    pub source_tags: Option<Seq<(Text, Text)>>,
    pub source_region: Option<Text>,
    pub same_region: bool,
    pub part_size: int,
    pub target_concurrency: int,
    pub max_concurrency: int,
    pub probes_left: int,
    pub probes_done: int,
    pub probe_rate_sum: int,
    pub upload: UploadState,
    pub upload_id: Text,
    pub next_part_number: int,
    pub next_start_byte: int,
    pub window_first: int,
    pub window_count: int,
    pub window_bytes: int,
    pub completed: Seq<(int, Text)>,
    pub failure: Option<CopyErrorView>,
}

/// The state before anything was asked.
pub open spec fn initial(config: CopyConfigView) -> EngineView {
    EngineView {
        config,
        phase: Phase::Idle,
        source: None,
        destination: None,
        source_tags: None,
        source_region: None,
        same_region: false,
        part_size: S3_MIN_PART_SIZE as int,
        target_concurrency: 1,
        max_concurrency: 1,
        probes_left: 0,
        probes_done: 0,
        probe_rate_sum: 0,
        upload: UploadState::Unopened,
        upload_id: Seq::empty(),
        next_part_number: 1,
        next_start_byte: 0,
        window_first: 1,
        window_count: 0,
        window_bytes: 0,
        completed: Seq::empty(),
        failure: None,
    }
}

/// Whether the completed parts carry the numbers 1, 2, ... in this order.
pub open spec fn numbered_from_one(parts: Seq<(int, Text)>) -> bool {
    forall|i: int| 0 <= i < parts.len() ==> (#[trigger] parts[i]).0 == i + 1
}

/// Whether the multipart upload is not thought of yet in a phase.
pub open spec fn before_upload(phase: Phase) -> bool {
    phase == Phase::Idle || phase == Phase::SourceHead || phase == Phase::DestinationHead || phase
        == Phase::PrecheckSourceTags || phase == Phase::PrecheckDestinationTags || phase
        == Phase::PropertySync || phase == Phase::TagSync || phase == Phase::CopyTags || phase
        == Phase::InstantCopy || phase == Phase::SourceRegion || phase == Phase::DestinationRegion
        || phase == Phase::Planning
}

/// Whether the multipart upload is open in a phase.
pub open spec fn during_upload(phase: Phase) -> bool {
    phase == Phase::Probing || phase == Phase::WindowLoop || phase == Phase::AllPartsReady || phase
        == Phase::Aborting
}

/// The lowest concurrency that the adapter goes down to.
pub open spec fn concurrency_floor(s: EngineView) -> int {
    min_int(MIN_AUTO_CONCURRENCY as int, s.max_concurrency)
}

/// What holds of the counters of every state that the engine reaches.
pub open spec fn counters_ok(s: EngineView) -> bool {
    &&& 1 <= s.next_part_number <= S3_MAX_PARTS + 1
    &&& 0 <= s.next_start_byte <= i64::MAX
    &&& 0 <= s.window_count
    &&& 0 <= s.window_bytes <= i64::MAX
    &&& s.completed.len() + s.window_count == s.next_part_number - 1
    &&& s.window_first == s.completed.len() + 1
    &&& numbered_from_one(s.completed)
    &&& S3_MIN_PART_SIZE <= s.part_size <= S3_MAX_PART_SIZE
    &&& 1 <= s.max_concurrency <= usize::MAX
    &&& concurrency_floor(s) <= s.target_concurrency <= s.max_concurrency
    &&& 0 <= s.probes_left <= usize::MAX
    &&& 0 <= s.probes_done <= usize::MAX
    &&& 0 <= s.probe_rate_sum <= u64::MAX
}

/// What holds of every state that the engine reaches: the counters are in
/// step; the upload is open exactly while parts are copied, the upload is
/// being completed, or it is being aborted; and the upload's completion is
/// asked for only when every byte of the source is copied.
pub open spec fn well_formed(s: EngineView) -> bool {
    &&& counters_ok(s)
    &&& (s.upload == UploadState::Open <==> during_upload(s.phase))
    &&& (before_upload(s.phase) ==> s.upload == UploadState::Unopened && s.window_count == 0
        && s.next_start_byte == 0 && s.completed.len() == 0)
    &&& (s.phase == Phase::VerifySource || s.phase == Phase::VerifyDestination ==> s.upload
        == UploadState::Completed)
    &&& (s.phase == Phase::Probing || s.phase == Phase::WindowLoop ==> s.window_count >= 1
        && match s.source {
        Some(source) => s.next_start_byte <= source.size,
        None => false,
    })
    &&& (s.phase == Phase::AllPartsReady ==> !s.config.dry_run && s.completed.len() >= 1
        && s.window_count == 0 && match s.source {
        Some(source) => s.next_start_byte == source.size,
        None => false,
    })
    &&& (s.phase == Phase::Aborting ==> !s.config.dry_run && s.failure is Some)
}

/// The copy ends, with the given outcome.
pub open spec fn finish(s: EngineView, outcome: Result<(), CopyErrorView>) -> (
    EngineView,
    ActionView,
) {
    (EngineView { phase: Phase::Finished, ..s }, ActionView::Finish(outcome))
}

/// Something failed. An open upload is aborted first (in a dry run there is
/// nothing to abort); the error is kept and ends the copy afterwards.
pub open spec fn fail(s: EngineView, error: CopyErrorView) -> (EngineView, ActionView) {
    if s.upload == UploadState::Open {
        if s.config.dry_run {
            finish(EngineView { upload: UploadState::Aborted, ..s }, Err(error))
        } else {
            (
                EngineView { phase: Phase::Aborting, failure: Some(error), ..s },
                ActionView::AbortMultipartUpload { upload_id: s.upload_id },
            )
        }
    } else {
        finish(s, Err(error))
    }
}

/// A tagging read's reply: an object that is not there has no tags.
pub open spec fn tags_of_reply(
    reply: Result<Option<Seq<(Text, Text)>>, (StoreErrorKind, Text)>,
) -> Result<Option<Seq<(Text, Text)>>, (StoreErrorKind, Text)> {
    match reply {
        Ok(tags) => Ok(tags),
        Err(e) => if e.0 == StoreErrorKind::NotFound {
            Ok(None)
        } else {
            Err(e)
        },
    }
}

/// The verification of a completed upload begins, where one is asked for.
pub open spec fn begin_verification(s: EngineView) -> (EngineView, ActionView) {
    if !s.config.dry_run && s.config.verify != VerifyIntegrity::Off {
        (EngineView { phase: Phase::VerifySource, ..s }, ActionView::HeadSource)
    } else {
        finish(s, Ok(()))
    }
}

/// All bytes are scheduled and copied: the upload is completed with the
/// parts in ascending order. A dry run completes nothing and ends here.
pub open spec fn finish_upload(s: EngineView) -> (EngineView, ActionView) {
    if s.completed.len() == 0 {
        fail(s, CopyErrorView::UnexpectedEvent)
    } else if s.config.dry_run {
        finish(EngineView { upload: UploadState::Completed, ..s }, Ok(()))
    } else {
        (
            EngineView { phase: Phase::AllPartsReady, ..s },
            ActionView::CompleteMultipartUpload { upload_id: s.upload_id, parts: s.completed },
        )
    }
}

/// The next parts are sent out: one part while the probe lasts, then as many
/// as run concurrently; or the upload is completed when no byte is left.
pub open spec fn next_parts(s: EngineView) -> (EngineView, ActionView) {
    match s.source {
        None => fail(s, CopyErrorView::UnexpectedEvent),
        Some(source) => {
            if s.next_start_byte >= source.size {
                finish_upload(s)
            } else if s.next_part_number > S3_MAX_PARTS {
                fail(s, CopyErrorView::PartLimitExceeded)
            } else {
                let width = if s.probes_left > 0 {
                    1
                } else {
                    s.target_concurrency
                };
                let parts = window_parts(
                    s.next_part_number,
                    s.next_start_byte,
                    source.size as int,
                    s.part_size,
                    width,
                );
                if parts.len() == 0 {
                    fail(s, CopyErrorView::UnexpectedEvent)
                } else {
                    (
                        EngineView {
                            phase: if s.probes_left > 0 {
                                Phase::Probing
                            } else {
                                Phase::WindowLoop
                            },
                            window_first: s.next_part_number,
                            window_count: parts.len() as int,
                            window_bytes: parts.last().last_byte + 1 - s.next_start_byte,
                            next_part_number: s.next_part_number + parts.len(),
                            next_start_byte: parts.last().last_byte + 1,
                            ..s
                        },
                        ActionView::CopyParts {
                            upload_id: s.upload_id,
                            batch: parts,
                            simulated: s.config.dry_run,
                        },
                    )
                }
            }
        },
    }
}

/// The parameters of a multipart copy: in auto mode the plan's, with as many
/// probe parts as the plan asks for and the object has; else the configured
/// ones, without a probe. The part size is clamped for 10 000 parts.
pub open spec fn planned(s: EngineView, size: int) -> EngineView {
    let fresh = EngineView {
        probes_done: 0,
        probe_rate_sum: 0,
        next_part_number: 1,
        next_start_byte: 0,
        window_first: 1,
        window_count: 0,
        window_bytes: 0,
        completed: Seq::empty(),
        ..s
    };
    if s.config.auto_enabled {
        let plan = plan_of(
            s.config.auto_profile,
            size,
            s.same_region,
            s.config.concurrency_cap as int,
        );
        let part_size = clamped_part_size(size, plan.initial_part_size as int, S3_MAX_PARTS as int);
        EngineView {
            part_size,
            target_concurrency: plan.initial_concurrency as int,
            max_concurrency: plan.max_concurrency as int,
            probes_left: min_int(plan.probe_parts as int, ceil_div(size, part_size)),
            ..fresh
        }
    } else {
        EngineView {
            part_size: clamped_part_size(
                size,
                s.config.manual_part_size as int,
                S3_MAX_PARTS as int,
            ),
            target_concurrency: max_int(s.config.concurrency_cap as int, 1),
            max_concurrency: max_int(s.config.concurrency_cap as int, 1),
            probes_left: 0,
            ..fresh
        }
    }
}

/// The multipart copy begins: the upload is created with the headers and
/// tags of the copy. A dry run creates nothing and goes on to the parts.
pub open spec fn begin_upload(s: EngineView) -> (EngineView, ActionView) {
    match s.source {
        None => fail(s, CopyErrorView::UnexpectedEvent),
        Some(source) => {
            let p = planned(s, source.size as int);
            if source.size <= 0 {
                fail(s, CopyErrorView::EmptySource)
            } else if s.config.dry_run {
                next_parts(
                    EngineView { upload: UploadState::Open, upload_id: dry_run_upload_id(), ..p },
                )
            } else {
                (
                    EngineView { phase: Phase::Planning, ..p },
                    ActionView::CreateMultipartUpload(
                        copy_request(s.config, source, s.source_tags),
                    ),
                )
            }
        },
    }
}

/// The source's tags are known (or left alone): a small object in auto mode
/// is copied with one request; else the upload is planned, in auto mode after
/// a look at the two buckets' regions.
pub open spec fn with_copy_tags(s: EngineView) -> (EngineView, ActionView) {
    match s.source {
        None => fail(s, CopyErrorView::UnexpectedEvent),
        Some(source) => {
            if s.config.auto_enabled && source.size < SINGLE_COPY_CEILING {
                if s.config.dry_run {
                    finish(s, Ok(()))
                } else {
                    (
                        EngineView { phase: Phase::InstantCopy, ..s },
                        ActionView::CopyObject(copy_request(s.config, source, s.source_tags)),
                    )
                }
            } else if s.config.auto_enabled {
                (EngineView { phase: Phase::SourceRegion, ..s }, ActionView::GetSourceRegion)
            } else {
                begin_upload(s)
            }
        },
    }
}

/// The object is copied in full: an empty source is an error; else the
/// source's tags are read first, unless tags are skipped.
pub open spec fn begin_copy(s: EngineView) -> (EngineView, ActionView) {
    match s.source {
        None => fail(s, CopyErrorView::UnexpectedEvent),
        Some(source) => match full_copy(s.config, source) {
            Err(error) => fail(s, error),
            Ok(_) => if s.config.skip_tags {
                with_copy_tags(EngineView { source_tags: None, ..s })
            } else {
                (EngineView { phase: Phase::CopyTags, ..s }, ActionView::GetSourceTags)
            },
        },
    }
}

/// The destination holds the data: what is left to do is decided from the
/// properties. Nothing, one copy request that rewrites them, one tagging
/// request, or a full copy after all. A dry run writes nothing.
pub open spec fn reconcile_step(s: EngineView, destination_tags: Option<Seq<(Text, Text)>>) -> (
    EngineView,
    ActionView,
) {
    let source_tags = s.source_tags;
    match (s.source, s.destination) {
        (Some(source), Some(destination)) => {
            match reconciliation(s.config, source, destination, source_tags, destination_tags) {
                Some(Strategy::Skip) => finish(s, Ok(())),
                Some(Strategy::PropertySync) => if s.config.dry_run {
                    finish(s, Ok(()))
                } else {
                    (
                        EngineView { phase: Phase::PropertySync, ..s },
                        ActionView::CopyObject(
                            sync_request(s.config, source, source_tags, destination_tags),
                        ),
                    )
                },
                Some(Strategy::TagSync) => match source_tags {
                    Some(tags) => if s.config.dry_run {
                        finish(s, Ok(()))
                    } else {
                        (
                            EngineView { phase: Phase::TagSync, ..s },
                            ActionView::PutObjectTagging(tags),
                        )
                    },
                    None => begin_copy(s),
                },
                _ => begin_copy(s),
            }
        },
        _ => fail(s, CopyErrorView::UnexpectedEvent),
    }
}

/// The probe has ended: the part size for the bytes that remain is tuned
/// from the mean throughput of the probe parts, raised to the cost floor, and
/// clamped for the part numbers that are left.
pub open spec fn retuned(s: EngineView, size: int) -> EngineView {
    let remaining = size - s.next_start_byte;
    if s.probes_done > 0 && remaining > 0 {
        let measured = s.probe_rate_sum / s.probes_done;
        let tuned = probe_part_size(s.config.auto_profile, remaining, s.part_size, measured);
        let raised = cost_optimized(remaining, tuned, s.config.auto_profile, s.same_region);
        let slots = max_int(S3_MAX_PARTS - (s.next_part_number - 1), 1);
        EngineView { part_size: clamped_part_size(remaining, raised, slots), ..s }
    } else {
        s
    }
}

/// The parts of the window in flight are taken over in ascending order.
pub open spec fn with_window_parts(s: EngineView, report: WindowReportView) -> EngineView {
    EngineView {
        completed: s.completed + arranged(report.parts, s.window_first, s.window_count),
        window_first: s.window_first + s.window_count,
        window_count: 0,
        ..s
    }
}

/// A probe part was copied: its throughput is added to the probe's, and when
/// the probe ends the part size is tuned.
pub open spec fn after_probe(s: EngineView, report: WindowReportView) -> (EngineView, ActionView) {
    match s.source {
        None => fail(s, CopyErrorView::UnexpectedEvent),
        Some(source) => {
            if !answers_window(report.parts, s.window_first, s.window_count) {
                fail(s, CopyErrorView::UnexpectedEvent)
            } else {
                let taken = with_window_parts(s, report);
                let counted = EngineView {
                    probes_left: max_int(s.probes_left - 1, 0),
                    probes_done: min_int(s.probes_done + 1, usize::MAX as int),
                    probe_rate_sum: min_int(
                        s.probe_rate_sum + rate_bytes_s(s.window_bytes, report.part_nanos_total as int),
                        u64::MAX as int,
                    ),
                    ..taken
                };
                if counted.probes_left == 0 {
                    next_parts(retuned(counted, source.size as int))
                } else {
                    next_parts(counted)
                }
            }
        },
    }
}

/// A window was copied: in auto mode its measurements move the concurrency
/// of the next one.
pub open spec fn after_window(s: EngineView, report: WindowReportView) -> (EngineView, ActionView) {
    if !answers_window(report.parts, s.window_first, s.window_count) {
        fail(s, CopyErrorView::UnexpectedEvent)
    } else {
        let taken = with_window_parts(s, report);
        let metrics = metrics_of(
            s.window_bytes,
            report.wall_nanos as int,
            report.part_nanos_total as int,
            s.window_count,
            report.had_retryable_pressure,
        );
        if s.config.auto_enabled {
            next_parts(
                EngineView {
                    target_concurrency: adapted_concurrency(
                        s.config.auto_profile,
                        s.target_concurrency,
                        concurrency_floor(s),
                        s.max_concurrency,
                        metrics,
                    ),
                    ..taken
                },
            )
        } else {
            next_parts(taken)
        }
    }
}

/// Before anything was asked: the source's head is asked for.
pub open spec fn on_idle(s: EngineView, event: EventView) -> (EngineView, ActionView) {
    match event {
        EventView::Start => (EngineView { phase: Phase::SourceHead, ..s }, ActionView::HeadSource),
        _ => fail(s, CopyErrorView::UnexpectedEvent),
    }
}

/// The source's head arrives: a source that is not there ends the copy; a
/// forced copy begins at once; else the destination's head is asked for.
pub open spec fn on_source_head(s: EngineView, event: EventView) -> (EngineView, ActionView) {
    match event {
        EventView::Head(Ok(Some(head))) => {
            let found = EngineView { source: Some(head), ..s };
            if s.config.force_copy {
                begin_copy(found)
            } else {
                (EngineView { phase: Phase::DestinationHead, ..found }, ActionView::HeadDestination)
            }
        },
        EventView::Head(Ok(None)) => fail(s, CopyErrorView::SourceNotFound),
        EventView::Head(Err(e)) => if e.0 == StoreErrorKind::NotFound {
            fail(s, CopyErrorView::SourceNotFound)
        } else {
            fail(s, CopyErrorView::SourceHeadFailed(e))
        },
        _ => fail(s, CopyErrorView::UnexpectedEvent),
    }
}

/// The destination's head arrives: a destination that is not there, or
/// that holds other data, is copied to in full; one that holds the data is
/// looked at in more detail, after a read of both tag sets unless tags are
/// skipped.
pub open spec fn on_destination_head(s: EngineView, event: EventView) -> (EngineView, ActionView) {
    match event {
        EventView::Head(Ok(Some(head))) => match s.source {
            None => fail(s, CopyErrorView::UnexpectedEvent),
            Some(source) => if data_matches(source, head) {
                let found = EngineView { destination: Some(head), source_tags: None, ..s };
                if s.config.skip_tags {
                    reconcile_step(found, None)
                } else {
                    (
                        EngineView { phase: Phase::PrecheckSourceTags, ..found },
                        ActionView::GetSourceTags,
                    )
                }
            } else {
                begin_copy(s)
            },
        },
        EventView::Head(Ok(None)) => begin_copy(s),
        EventView::Head(Err(e)) => if e.0 == StoreErrorKind::NotFound {
            begin_copy(s)
        } else {
            fail(s, CopyErrorView::DestinationHeadFailed(e))
        },
        _ => fail(s, CopyErrorView::UnexpectedEvent),
    }
}

/// The source's tags arrive for the comparison: the destination's are asked for.
pub open spec fn on_precheck_source_tags(s: EngineView, event: EventView) -> (
    EngineView,
    ActionView,
) {
    match event {
        EventView::Tags(reply) => match tags_of_reply(reply) {
            Ok(tags) => (
                EngineView { source_tags: tags, phase: Phase::PrecheckDestinationTags, ..s },
                ActionView::GetDestinationTags,
            ),
            Err(e) => fail(s, CopyErrorView::TagFetchFailed(e)),
        },
        _ => fail(s, CopyErrorView::UnexpectedEvent),
    }
}

/// The destination's tags arrive for the comparison: what is left to do is decided.
pub open spec fn on_precheck_destination_tags(s: EngineView, event: EventView) -> (
    EngineView,
    ActionView,
) {
    match event {
        EventView::Tags(reply) => match tags_of_reply(reply) {
            Ok(tags) => reconcile_step(s, tags),
            Err(e) => fail(s, CopyErrorView::TagFetchFailed(e)),
        },
        _ => fail(s, CopyErrorView::UnexpectedEvent),
    }
}

/// The reply to a copy request arrives, and ends the copy.
pub open spec fn on_copy_written(s: EngineView, event: EventView) -> (EngineView, ActionView) {
    match event {
        EventView::Written(Ok(())) => finish(s, Ok(())),
        EventView::Written(Err(e)) => fail(s, CopyErrorView::CopyObjectFailed(e)),
        _ => fail(s, CopyErrorView::UnexpectedEvent),
    }
}

/// The reply to a tagging request arrives, and ends the copy.
pub open spec fn on_tags_written(s: EngineView, event: EventView) -> (EngineView, ActionView) {
    match event {
        EventView::Written(Ok(())) => finish(s, Ok(())),
        EventView::Written(Err(e)) => fail(s, CopyErrorView::TagSyncFailed(e)),
        _ => fail(s, CopyErrorView::UnexpectedEvent),
    }
}

/// The source's tags arrive for the copy.
pub open spec fn on_copy_tags(s: EngineView, event: EventView) -> (EngineView, ActionView) {
    match event {
        EventView::Tags(reply) => match tags_of_reply(reply) {
            Ok(tags) => with_copy_tags(EngineView { source_tags: tags, ..s }),
            Err(e) => fail(s, CopyErrorView::TagFetchFailed(e)),
        },
        _ => fail(s, CopyErrorView::UnexpectedEvent),
    }
}

/// The source bucket's region arrives, or cannot be had: the destination
/// bucket's is asked for.
pub open spec fn on_source_region(s: EngineView, event: EventView) -> (EngineView, ActionView) {
    match event {
        EventView::Region(reply) => (
            EngineView {
                source_region: match reply {
                    Ok(constraint) => Some(region_of(constraint)),
                    Err(_) => None,
                },
                phase: Phase::DestinationRegion,
                ..s
            },
            ActionView::GetDestinationRegion,
        ),
        _ => fail(s, CopyErrorView::UnexpectedEvent),
    }
}

/// The destination bucket's region arrives, or cannot be had: the copy is
/// same-region where both regions are known and equal.
pub open spec fn on_destination_region(s: EngineView, event: EventView) -> (
    EngineView,
    ActionView,
) {
    match event {
        EventView::Region(reply) => begin_upload(
            EngineView {
                same_region: match reply {
                    Ok(constraint) => s.source_region == Some(region_of(constraint)),
                    Err(_) => false,
                },
                ..s
            },
        ),
        _ => fail(s, CopyErrorView::UnexpectedEvent),
    }
}

/// The upload's id arrives: the upload is open, and the first parts go out.
pub open spec fn on_planning(s: EngineView, event: EventView) -> (EngineView, ActionView) {
    match event {
        EventView::UploadCreated(Ok(id)) => next_parts(
            EngineView { upload: UploadState::Open, upload_id: id, ..s },
        ),
        EventView::UploadCreated(Err(e)) => fail(
            s,
            CopyErrorView::UploadLifecycleFailed(UploadStage::Initiate, e),
        ),
        _ => fail(s, CopyErrorView::UnexpectedEvent),
    }
}

/// The report of a probe part arrives.
pub open spec fn on_probing(s: EngineView, event: EventView) -> (EngineView, ActionView) {
    match event {
        EventView::PartsCopied(Ok(report)) => after_probe(s, report),
        EventView::PartsCopied(Err(e)) => fail(
            s,
            CopyErrorView::UploadLifecycleFailed(UploadStage::Part, e),
        ),
        _ => fail(s, CopyErrorView::UnexpectedEvent),
    }
}

/// The report of a window arrives.
pub open spec fn on_window(s: EngineView, event: EventView) -> (EngineView, ActionView) {
    match event {
        EventView::PartsCopied(Ok(report)) => after_window(s, report),
        EventView::PartsCopied(Err(e)) => fail(
            s,
            CopyErrorView::UploadLifecycleFailed(UploadStage::Part, e),
        ),
        _ => fail(s, CopyErrorView::UnexpectedEvent),
    }
}

/// The reply to the upload's completion arrives: the upload is completed,
/// or is aborted where the completion failed.
pub open spec fn on_all_parts_ready(s: EngineView, event: EventView) -> (EngineView, ActionView) {
    match event {
        EventView::Written(Ok(())) => begin_verification(
            EngineView { upload: UploadState::Completed, ..s },
        ),
        EventView::Written(Err(e)) => fail(
            s,
            CopyErrorView::UploadLifecycleFailed(UploadStage::Complete, e),
        ),
        _ => fail(s, CopyErrorView::UnexpectedEvent),
    }
}

/// The reply to the upload's abort arrives: whatever it is, the copy ends
/// with the error that led to the abort.
pub open spec fn on_aborting(s: EngineView, event: EventView) -> (EngineView, ActionView) {
    finish(
        EngineView { upload: UploadState::Aborted, failure: None, ..s },
        Err(
            match s.failure {
                Some(error) => error,
                None => CopyErrorView::UnexpectedEvent,
            },
        ),
    )
}

/// The source's fresh head arrives for the verification.
pub open spec fn on_verify_source(s: EngineView, event: EventView) -> (EngineView, ActionView) {
    match event {
        EventView::Head(Ok(Some(head))) => (
            EngineView { source: Some(head), phase: Phase::VerifyDestination, ..s },
            ActionView::HeadDestination,
        ),
        EventView::Head(_) => fail(
            s,
            CopyErrorView::VerificationFailed(VerificationFailureView::HeadUnavailable),
        ),
        _ => fail(s, CopyErrorView::UnexpectedEvent),
    }
}

/// The destination's fresh head arrives: the copy is verified.
pub open spec fn on_verify_destination(s: EngineView, event: EventView) -> (
    EngineView,
    ActionView,
) {
    match event {
        EventView::Head(Ok(Some(head))) => match s.source {
            None => fail(s, CopyErrorView::UnexpectedEvent),
            Some(source) => match verdict(s.config.verify, source, head) {
                Ok(()) => finish(s, Ok(())),
                Err(failure) => fail(s, CopyErrorView::VerificationFailed(failure)),
            },
        },
        EventView::Head(_) => fail(
            s,
            CopyErrorView::VerificationFailed(VerificationFailureView::HeadUnavailable),
        ),
        _ => fail(s, CopyErrorView::UnexpectedEvent),
    }
}

/// What a reply leads to: the next state and the next request.
#[verifier::opaque]
pub open spec fn step(s: EngineView, event: EventView) -> (EngineView, ActionView) {
    match s.phase {
        Phase::Idle => on_idle(s, event),
        Phase::SourceHead => on_source_head(s, event),
        Phase::DestinationHead => on_destination_head(s, event),
        Phase::PrecheckSourceTags => on_precheck_source_tags(s, event),
        Phase::PrecheckDestinationTags => on_precheck_destination_tags(s, event),
        Phase::PropertySync => on_copy_written(s, event),
        Phase::TagSync => on_tags_written(s, event),
        Phase::CopyTags => on_copy_tags(s, event),
        Phase::InstantCopy => on_copy_written(s, event),
        Phase::SourceRegion => on_source_region(s, event),
        Phase::DestinationRegion => on_destination_region(s, event),
        Phase::Planning => on_planning(s, event),
        Phase::Probing => on_probing(s, event),
        Phase::WindowLoop => on_window(s, event),
        Phase::AllPartsReady => on_all_parts_ready(s, event),
        Phase::Aborting => on_aborting(s, event),
        Phase::VerifySource => on_verify_source(s, event),
        Phase::VerifyDestination => on_verify_destination(s, event),
        Phase::Finished => finish(s, Err(CopyErrorView::UnexpectedEvent)),
    }
}

/// The plan's concurrency starts no lower than the adapter's floor.
pub proof fn lemma_plan_starts_above_floor(
    profile: AutoProfile,
    size: int,
    same_region: bool,
    cap: int,
)
    ensures
        ({
            let plan = plan_of(profile, size, same_region, cap);
            &&& 1 <= plan.max_concurrency
            &&& min_int(MIN_AUTO_CONCURRENCY as int, plan.max_concurrency as int)
                <= plan.initial_concurrency <= plan.max_concurrency
        }),
{
}

/// A planned upload has its counters in step.
pub proof fn lemma_planned_counters(s: EngineView, size: int)
    requires
        size > 0,
    ensures
        counters_ok(planned(s, size)),
        planned(s, size).window_count == 0,
        planned(s, size).config == s.config,
        planned(s, size).source == s.source,
        planned(s, size).upload == s.upload,
        planned(s, size).phase == s.phase,
{
    let p = planned(s, size);
    lemma_plan_starts_above_floor(
        s.config.auto_profile,
        size,
        s.same_region,
        s.config.concurrency_cap as int,
    );
    crate::limits::lemma_ceil_div_covers(size, p.part_size);
    assert(p.completed.len() == 0);
}

/// A retuned upload has its counters in step.
pub proof fn lemma_retuned_counters(s: EngineView, size: int)
    requires
        counters_ok(s),
    ensures
        counters_ok(retuned(s, size)),
        retuned(s, size).window_count == s.window_count,
        retuned(s, size).config == s.config,
        retuned(s, size).source == s.source,
        retuned(s, size).upload == s.upload,
        retuned(s, size).phase == s.phase,
{
}

/// Once the parts of the window in flight are taken over, the counters are
/// in step and no part is in flight.
pub proof fn lemma_taken_counters(s: EngineView, report: WindowReportView)
    requires
        counters_ok(s),
        answers_window(report.parts, s.window_first, s.window_count),
    ensures
        counters_ok(with_window_parts(s, report)),
        with_window_parts(s, report).window_count == 0,
{
    let t = with_window_parts(s, report);
    crate::parts::lemma_arranged_is_numbered(report.parts, s.window_first, s.window_count);
    let added = arranged(report.parts, s.window_first, s.window_count);
    assert forall|i: int| 0 <= i < t.completed.len() implies (#[trigger] t.completed[i]).0 == i
        + 1 by {
        if i < s.completed.len() {
            assert(t.completed[i] == s.completed[i]);
        } else {
            assert(t.completed[i] == added[i - s.completed.len()]);
        }
    }
}

/// Sending out the next parts leaves a state that the engine may be in.
pub proof fn lemma_next_parts_well_formed(s: EngineView)
    requires
        counters_ok(s),
        s.window_count == 0,
        s.upload == UploadState::Open,
        match s.source {
            Some(source) => s.next_start_byte <= source.size || s.completed.len() == 0,
            None => true,
        },
    ensures
        well_formed(next_parts(s).0),
{
    match s.source {
        None => {},
        Some(source) => {
            if s.next_start_byte < source.size && s.next_part_number <= S3_MAX_PARTS {
                let width = if s.probes_left > 0 {
                    1
                } else {
                    s.target_concurrency
                };
                crate::parts::lemma_window_extent(
                    s.next_part_number,
                    s.next_start_byte,
                    source.size as int,
                    s.part_size,
                    width,
                );
            }
        },
    }
}

/// Beginning the upload leaves a state that the engine may be in.
pub proof fn lemma_begin_upload_well_formed(s: EngineView)
    requires
        counters_ok(s),
        s.upload == UploadState::Unopened,
        s.window_count == 0,
        s.next_start_byte == 0,
        s.completed.len() == 0,
    ensures
        well_formed(begin_upload(s).0),
{
    match s.source {
        None => {},
        Some(source) => {
            if source.size > 0 {
                lemma_planned_counters(s, source.size as int);
                let p = planned(s, source.size as int);
                if s.config.dry_run {
                    lemma_next_parts_well_formed(
                        EngineView {
                            upload: UploadState::Open,
                            upload_id: dry_run_upload_id(),
                            ..p
                        },
                    );
                }
            }
        },
    }
}

/// Going on with the source's tags leaves a state that the engine may be in.
pub proof fn lemma_with_copy_tags_well_formed(s: EngineView)
    requires
        counters_ok(s),
        s.upload == UploadState::Unopened,
        s.window_count == 0,
        s.next_start_byte == 0,
        s.completed.len() == 0,
    ensures
        well_formed(with_copy_tags(s).0),
{
    lemma_begin_upload_well_formed(s);
}

/// Beginning a full copy leaves a state that the engine may be in.
pub proof fn lemma_begin_copy_well_formed(s: EngineView)
    requires
        counters_ok(s),
        s.upload == UploadState::Unopened,
        s.window_count == 0,
        s.next_start_byte == 0,
        s.completed.len() == 0,
    ensures
        well_formed(begin_copy(s).0),
{
    lemma_with_copy_tags_well_formed(EngineView { source_tags: None, ..s });
}

/// Deciding over a destination that holds the data leaves a state that the
/// engine may be in.
pub proof fn lemma_reconcile_step_well_formed(
    s: EngineView,
    destination_tags: Option<Seq<(Text, Text)>>,
)
    requires
        counters_ok(s),
        s.upload == UploadState::Unopened,
        s.window_count == 0,
        s.next_start_byte == 0,
        s.completed.len() == 0,
    ensures
        well_formed(reconcile_step(s, destination_tags).0),
{
    lemma_begin_copy_well_formed(s);
}

/// The report of a probe part leaves a state that the engine may be in.
pub proof fn lemma_after_probe_well_formed(s: EngineView, report: WindowReportView)
    requires
        well_formed(s),
        s.phase == Phase::Probing,
    ensures
        well_formed(after_probe(s, report).0),
{
    if s.source is Some && answers_window(report.parts, s.window_first, s.window_count) {
        lemma_taken_counters(s, report);
        let taken = with_window_parts(s, report);
        let rate = rate_bytes_s(s.window_bytes, report.part_nanos_total as int);
        let counted = EngineView {
            probes_left: max_int(s.probes_left - 1, 0),
            probes_done: min_int(s.probes_done + 1, usize::MAX as int),
            probe_rate_sum: min_int(s.probe_rate_sum + rate, u64::MAX as int),
            ..taken
        };
        assert(rate >= 0) by (nonlinear_arith)
            requires
                s.window_bytes >= 0,
                report.part_nanos_total >= 0,
                rate == min_int(
                    s.window_bytes * 1_000_000_000 / max_int(
                        report.part_nanos_total as int,
                        1_000_000,
                    ),
                    u64::MAX as int,
                ),
        ;
        assert(counters_ok(counted));
        lemma_retuned_counters(counted, s.source->0.size as int);
        lemma_next_parts_well_formed(counted);
        lemma_next_parts_well_formed(retuned(counted, s.source->0.size as int));
    }
}

/// The report of a window leaves a state that the engine may be in.
pub proof fn lemma_after_window_well_formed(s: EngineView, report: WindowReportView)
    requires
        well_formed(s),
        s.phase == Phase::WindowLoop,
    ensures
        well_formed(after_window(s, report).0),
{
    if answers_window(report.parts, s.window_first, s.window_count) {
        lemma_taken_counters(s, report);
        let taken = with_window_parts(s, report);
        lemma_next_parts_well_formed(taken);
        let metrics = metrics_of(
            s.window_bytes,
            report.wall_nanos as int,
            report.part_nanos_total as int,
            s.window_count,
            report.had_retryable_pressure,
        );
        crate::auto::lemma_adapted_concurrency_in_bounds(
            s.config.auto_profile,
            s.target_concurrency,
            concurrency_floor(s),
            s.max_concurrency,
            metrics,
        );
        lemma_next_parts_well_formed(
            EngineView {
                target_concurrency: adapted_concurrency(
                    s.config.auto_profile,
                    s.target_concurrency,
                    concurrency_floor(s),
                    s.max_concurrency,
                    metrics,
                ),
                ..taken
            },
        );
    }
}

proof fn lemma_step_from_source_head(s: EngineView, event: EventView)
    requires
        well_formed(s),
        s.phase == Phase::SourceHead,
    ensures
        well_formed(step(s, event).0),
{
    reveal(step);
    match event {
        EventView::Head(Ok(Some(head))) => {
            lemma_begin_copy_well_formed(EngineView { source: Some(head), ..s });
        },
        _ => {},
    }
}

proof fn lemma_step_from_destination_head(s: EngineView, event: EventView)
    requires
        well_formed(s),
        s.phase == Phase::DestinationHead,
    ensures
        well_formed(step(s, event).0),
{
    reveal(step);
    lemma_begin_copy_well_formed(s);
    match event {
        EventView::Head(Ok(Some(head))) => {
            lemma_reconcile_step_well_formed(
                EngineView { destination: Some(head), source_tags: None, ..s },
                None,
            );
        },
        _ => {},
    }
}

proof fn lemma_step_from_tags(s: EngineView, event: EventView)
    requires
        well_formed(s),
        s.phase == Phase::PrecheckDestinationTags || s.phase == Phase::CopyTags,
    ensures
        well_formed(step(s, event).0),
{
    reveal(step);
    match event {
        EventView::Tags(reply) => match tags_of_reply(reply) {
            Ok(tags) => {
                lemma_reconcile_step_well_formed(s, tags);
                lemma_with_copy_tags_well_formed(EngineView { source_tags: tags, ..s });
            },
            Err(_) => {},
        },
        _ => {},
    }
}

proof fn lemma_step_from_destination_region(s: EngineView, event: EventView)
    requires
        well_formed(s),
        s.phase == Phase::DestinationRegion,
    ensures
        well_formed(step(s, event).0),
{
    reveal(step);
    match event {
        EventView::Region(reply) => {
            lemma_begin_upload_well_formed(
                EngineView {
                    same_region: match reply {
                        Ok(constraint) => s.source_region == Some(region_of(constraint)),
                        Err(_) => false,
                    },
                    ..s
                },
            );
        },
        _ => {},
    }
}

proof fn lemma_step_from_planning(s: EngineView, event: EventView)
    requires
        well_formed(s),
        s.phase == Phase::Planning,
    ensures
        well_formed(step(s, event).0),
{
    reveal(step);
    match event {
        EventView::UploadCreated(Ok(id)) => {
            lemma_next_parts_well_formed(
                EngineView { upload: UploadState::Open, upload_id: id, ..s },
            );
        },
        _ => {},
    }
}

proof fn lemma_step_from_parts(s: EngineView, event: EventView)
    requires
        well_formed(s),
        s.phase == Phase::Probing || s.phase == Phase::WindowLoop,
    ensures
        well_formed(step(s, event).0),
{
    reveal(step);
    match event {
        EventView::PartsCopied(Ok(report)) => {
            if s.phase == Phase::Probing {
                lemma_after_probe_well_formed(s, report);
            } else {
                lemma_after_window_well_formed(s, report);
            }
        },
        _ => {},
    }
}

proof fn lemma_step_from_a_write(s: EngineView, event: EventView)
    requires
        well_formed(s),
        s.phase == Phase::PropertySync || s.phase == Phase::TagSync || s.phase
            == Phase::InstantCopy || s.phase == Phase::AllPartsReady || s.phase == Phase::Aborting,
    ensures
        well_formed(step(s, event).0),
{
    reveal(step);
}

proof fn lemma_step_from_a_read(s: EngineView, event: EventView)
    requires
        well_formed(s),
        s.phase == Phase::Idle || s.phase == Phase::PrecheckSourceTags || s.phase
            == Phase::SourceRegion || s.phase == Phase::VerifySource || s.phase
            == Phase::VerifyDestination || s.phase == Phase::Finished,
    ensures
        well_formed(step(s, event).0),
{
    reveal(step);
}

/// Every reply leaves a state that the engine may be in.
pub proof fn lemma_step_well_formed(s: EngineView, event: EventView)
    requires
        well_formed(s),
    ensures
        well_formed(step(s, event).0),
{
    match s.phase {
        Phase::SourceHead => lemma_step_from_source_head(s, event),
        Phase::DestinationHead => lemma_step_from_destination_head(s, event),
        Phase::PrecheckDestinationTags | Phase::CopyTags => lemma_step_from_tags(s, event),
        Phase::DestinationRegion => lemma_step_from_destination_region(s, event),
        Phase::Planning => lemma_step_from_planning(s, event),
        Phase::Probing | Phase::WindowLoop => lemma_step_from_parts(s, event),
        Phase::PropertySync | Phase::TagSync | Phase::InstantCopy | Phase::AllPartsReady
        | Phase::Aborting => lemma_step_from_a_write(s, event),
        _ => lemma_step_from_a_read(s, event),
    }
}

} // verus!
