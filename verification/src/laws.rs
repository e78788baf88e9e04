//! What holds of every run of the engine: which request belongs to which
//! phase, that an upload is completed with its parts in order, that an open
//! upload is brought to exactly one end, and that nothing is written where
//! nothing is to be written.

use vstd::prelude::*;
use crate::config::CopyConfigView;
use crate::errors::{CopyErrorView, StoreErrorKind, UploadStage};
use crate::headers::sync_request;
use crate::auto::{adapted_concurrency, clamped_part_size};
use crate::lifecycle::{
    after_probe, after_window, before_upload, begin_copy, begin_upload, concurrency_floor,
    counters_ok,
    during_upload,
    finish_upload, initial, lemma_step_well_formed, next_parts, numbered_from_one,
    on_aborting, on_all_parts_ready, on_planning, on_probing, on_window, planned,
    reconcile_step, retuned, step, tags_of_reply, well_formed, with_copy_tags, with_window_parts,
    EngineView, Phase, UploadState,
};
use crate::limits::{ceil_div, max_int, min_int, S3_MAX_PARTS};
use crate::parts::{dry_run_upload_id, metrics_of, rate_bytes_s, window_parts};
use crate::store::{region_of, WindowReportView};
use crate::object::ObjectHeadView;
use crate::store::{is_store_write, ActionView, EventView};
use crate::strategy::{
    data_matches, metadata_matches, reconciliation, storage_class_matches, tags_match, Strategy,
};
use crate::text::Text;

verus! {

/// Whether a request is the one that a phase waits for the reply to.
pub open spec fn awaited_in(phase: Phase, action: ActionView) -> bool {
    match phase {
        Phase::Idle => false,
        Phase::SourceHead => action is HeadSource,
        Phase::DestinationHead => action is HeadDestination,
        Phase::PrecheckSourceTags => action is GetSourceTags,
        Phase::PrecheckDestinationTags => action is GetDestinationTags,
        Phase::PropertySync => action is CopyObject,
        Phase::TagSync => action is PutObjectTagging,
        Phase::CopyTags => action is GetSourceTags,
        Phase::InstantCopy => action is CopyObject,
        Phase::SourceRegion => action is GetSourceRegion,
        Phase::DestinationRegion => action is GetDestinationRegion,
        Phase::Planning => action is CreateMultipartUpload,
        Phase::Probing => action is CopyParts,
        Phase::WindowLoop => action is CopyParts,
        Phase::AllPartsReady => action is CompleteMultipartUpload,
        Phase::Aborting => action is AbortMultipartUpload,
        Phase::VerifySource => action is HeadSource,
        Phase::VerifyDestination => action is HeadDestination,
        Phase::Finished => action is Finish,
    }
}

/// Whether a request carries what the state that it leaves behind holds: the
/// upload's id, and for a completion the parts copied so far.
pub open spec fn carries_state(s: EngineView, action: ActionView) -> bool {
    match action {
        ActionView::CompleteMultipartUpload { upload_id, parts } => upload_id == s.upload_id
            && parts == s.completed,
        ActionView::AbortMultipartUpload { upload_id } => upload_id == s.upload_id,
        ActionView::CopyParts { upload_id, batch, simulated } => upload_id == s.upload_id
            && simulated == s.config.dry_run && batch.len() == s.window_count,
        _ => true,
    }
}

/// Whether a step's result fits together: the request is the one that the
/// new phase waits for, it carries what the new state holds, and the
/// configuration is the one given.
pub open spec fn fits(config: CopyConfigView, result: (EngineView, ActionView)) -> bool {
    &&& awaited_in(result.0.phase, result.1)
    &&& carries_state(result.0, result.1)
    &&& result.0.config == config
}

proof fn lemma_finish_upload_fits(s: EngineView)
    ensures
        fits(s.config, finish_upload(s)),
{
}

proof fn lemma_next_parts_fits(s: EngineView)
    ensures
        fits(s.config, next_parts(s)),
{
    lemma_finish_upload_fits(s);
}

proof fn lemma_begin_upload_fits(s: EngineView)
    ensures
        fits(s.config, begin_upload(s)),
{
    match s.source {
        None => {},
        Some(source) => {
            let p = planned(s, source.size as int);
            lemma_next_parts_fits(
                EngineView { upload: UploadState::Open, upload_id: dry_run_upload_id(), ..p },
            );
        },
    }
}

proof fn lemma_with_copy_tags_fits(s: EngineView)
    ensures
        fits(s.config, with_copy_tags(s)),
{
    lemma_begin_upload_fits(s);
}

proof fn lemma_begin_copy_fits(s: EngineView)
    ensures
        fits(s.config, begin_copy(s)),
{
    lemma_with_copy_tags_fits(EngineView { source_tags: None, ..s });
}

proof fn lemma_reconcile_step_fits(s: EngineView, destination_tags: Option<Seq<(Text, Text)>>)
    ensures
        fits(s.config, reconcile_step(s, destination_tags)),
{
    lemma_begin_copy_fits(s);
}

proof fn lemma_after_probe_fits(s: EngineView, report: WindowReportView)
    ensures
        fits(s.config, after_probe(s, report)),
{
    match s.source {
        None => {},
        Some(source) => {
            let taken = with_window_parts(s, report);
            let counted = EngineView {
                probes_left: max_int(s.probes_left - 1, 0),
                probes_done: min_int(s.probes_done + 1, usize::MAX as int),
                probe_rate_sum: min_int(
                    s.probe_rate_sum + rate_bytes_s(s.window_bytes, report.part_nanos_total as int),
                    u64::MAX as int,
                ),
                ..taken
            };
            lemma_next_parts_fits(counted);
            lemma_next_parts_fits(retuned(counted, source.size as int));
        },
    }
}

proof fn lemma_after_window_fits(s: EngineView, report: WindowReportView)
    ensures
        fits(s.config, after_window(s, report)),
{
    let taken = with_window_parts(s, report);
    let metrics = metrics_of(
        s.window_bytes,
        report.wall_nanos as int,
        report.part_nanos_total as int,
        s.window_count,
        report.had_retryable_pressure,
    );
    lemma_next_parts_fits(taken);
    lemma_next_parts_fits(
        EngineView {
            target_concurrency: adapted_concurrency(
                s.config.auto_profile,
                s.target_concurrency,
                concurrency_floor(s),
                s.max_concurrency,
                metrics,
            ),
            ..taken
        },
    );
}

proof fn lemma_fits_from_source_head(s: EngineView, event: EventView)
    requires
        s.phase == Phase::SourceHead,
    ensures
        fits(s.config, step(s, event)),
{
    reveal(step);
    match event {
        EventView::Head(Ok(Some(head))) => {
            lemma_begin_copy_fits(EngineView { source: Some(head), ..s });
        },
        _ => {},
    }
}

proof fn lemma_fits_from_destination_head(s: EngineView, event: EventView)
    requires
        s.phase == Phase::DestinationHead,
    ensures
        fits(s.config, step(s, event)),
{
    reveal(step);
    lemma_begin_copy_fits(s);
    match event {
        EventView::Head(Ok(Some(head))) => {
            lemma_reconcile_step_fits(
                EngineView { destination: Some(head), source_tags: None, ..s },
                None,
            );
        },
        _ => {},
    }
}

proof fn lemma_fits_from_tags(s: EngineView, event: EventView)
    requires
        s.phase == Phase::PrecheckDestinationTags || s.phase == Phase::CopyTags,
    ensures
        fits(s.config, step(s, event)),
{
    reveal(step);
    match event {
        EventView::Tags(reply) => match tags_of_reply(reply) {
            Ok(tags) => {
                lemma_reconcile_step_fits(s, tags);
                lemma_with_copy_tags_fits(EngineView { source_tags: tags, ..s });
            },
            Err(_) => {},
        },
        _ => {},
    }
}

proof fn lemma_fits_from_destination_region(s: EngineView, event: EventView)
    requires
        s.phase == Phase::DestinationRegion,
    ensures
        fits(s.config, step(s, event)),
{
    reveal(step);
    match event {
        EventView::Region(reply) => {
            lemma_begin_upload_fits(
                EngineView {
                    same_region: match reply {
                        Ok(constraint) => s.source_region == Some(region_of(constraint)),
                        Err(_) => false,
                    },
                    ..s
                },
            );
        },
        _ => {},
    }
}

proof fn lemma_fits_from_planning(s: EngineView, event: EventView)
    requires
        s.phase == Phase::Planning,
    ensures
        fits(s.config, step(s, event)),
{
    reveal(step);
    match event {
        EventView::UploadCreated(Ok(id)) => {
            lemma_next_parts_fits(EngineView { upload: UploadState::Open, upload_id: id, ..s });
        },
        _ => {},
    }
}

proof fn lemma_fits_from_parts(s: EngineView, event: EventView)
    requires
        s.phase == Phase::Probing || s.phase == Phase::WindowLoop,
    ensures
        fits(s.config, step(s, event)),
{
    reveal(step);
    match event {
        EventView::PartsCopied(Ok(report)) => {
            lemma_after_probe_fits(s, report);
            lemma_after_window_fits(s, report);
        },
        _ => {},
    }
}

proof fn lemma_fits_from_a_write(s: EngineView, event: EventView)
    requires
        s.phase == Phase::PropertySync || s.phase == Phase::TagSync
            || s.phase == Phase::InstantCopy || s.phase == Phase::AllPartsReady
            || s.phase == Phase::Aborting,
    ensures
        fits(s.config, step(s, event)),
{
    reveal(step);
}

proof fn lemma_fits_from_a_read(s: EngineView, event: EventView)
    requires
        s.phase == Phase::Idle || s.phase == Phase::PrecheckSourceTags
            || s.phase == Phase::SourceRegion || s.phase == Phase::VerifySource
            || s.phase == Phase::VerifyDestination || s.phase == Phase::Finished,
    ensures
        fits(s.config, step(s, event)),
{
    reveal(step);
}

/// Every reply leads to the request that the next phase waits for, and leaves
/// the configuration as it is.
pub proof fn lemma_request_matches_phase(s: EngineView, event: EventView)
    ensures
        fits(s.config, step(s, event)),
{
    match s.phase {
        Phase::SourceHead => lemma_fits_from_source_head(s, event),
        Phase::DestinationHead => lemma_fits_from_destination_head(s, event),
        Phase::PrecheckDestinationTags | Phase::CopyTags => lemma_fits_from_tags(s, event),
        Phase::DestinationRegion => lemma_fits_from_destination_region(s, event),
        Phase::Planning => lemma_fits_from_planning(s, event),
        Phase::Probing | Phase::WindowLoop => lemma_fits_from_parts(s, event),
        Phase::PropertySync | Phase::TagSync | Phase::InstantCopy | Phase::AllPartsReady
        | Phase::Aborting => lemma_fits_from_a_write(s, event),
        _ => lemma_fits_from_a_read(s, event),
    }
}

/// Whenever the engine asks for an upload's completion, every byte of the
/// source is copied, and it submits the parts that were copied: at least one,
/// carrying the numbers 1, 2, ... in this order.
pub proof fn lemma_completion_is_ordered(s: EngineView, event: EventView)
    requires
        well_formed(s),
    ensures
        match step(s, event).1 {
            ActionView::CompleteMultipartUpload { upload_id, parts } => {
                let next = step(s, event).0;
                &&& parts.len() >= 1
                &&& numbered_from_one(parts)
                &&& parts.len() == next.next_part_number - 1
                &&& match next.source {
                    Some(source) => next.next_start_byte == source.size,
                    None => false,
                }
            },
            _ => true,
        },
{
    lemma_request_matches_phase(s, event);
    lemma_step_well_formed(s, event);
}

/// An open upload keeps the id that the store gave it: the reply to the
/// upload's creation sets it, and no later reply changes it. So the parts, the
/// completion and the abort of an upload all name the upload that was created.
pub proof fn lemma_open_upload_keeps_its_id(s: EngineView, event: EventView)
    requires
        well_formed(s),
    ensures
        s.upload == UploadState::Open ==> step(s, event).0.upload_id == s.upload_id,
        s.phase == Phase::Planning ==> match event {
            EventView::UploadCreated(Ok(id)) => step(s, event).0.upload_id == id && step(
                s,
                event,
            ).0.upload != UploadState::Unopened,
            _ => step(s, event).0.upload == UploadState::Unopened,
        },
{
    if s.phase == Phase::Planning {
        lemma_step_in_planning(s, event);
        match event {
            EventView::UploadCreated(Ok(id)) => {
                let opened = EngineView { upload: UploadState::Open, upload_id: id, ..s };
                lemma_next_parts_keeps_id(opened);
            },
            _ => {},
        }
    } else if s.upload == UploadState::Open {
        lemma_step_during_upload(s, event);
        match event {
            EventView::PartsCopied(Ok(report)) => {
                lemma_after_parts_keep_id(s, report);
            },
            _ => {},
        }
    }
}

/// What a reply leads to while the upload's creation is out.
proof fn lemma_step_in_planning(s: EngineView, event: EventView)
    requires
        s.phase == Phase::Planning,
    ensures
        step(s, event) == on_planning(s, event),
{
    reveal(step);
}

/// What a reply leads to while the upload is open.
proof fn lemma_step_during_upload(s: EngineView, event: EventView)
    requires
        during_upload(s.phase),
    ensures
        step(s, event) == match s.phase {
            Phase::Probing => on_probing(s, event),
            Phase::WindowLoop => on_window(s, event),
            Phase::AllPartsReady => on_all_parts_ready(s, event),
            _ => on_aborting(s, event),
        },
{
    reveal(step);
}

proof fn lemma_next_parts_keeps_id(s: EngineView)
    ensures
        next_parts(s).0.upload_id == s.upload_id,
        s.upload == UploadState::Open ==> next_parts(s).0.upload != UploadState::Unopened,
{
}

proof fn lemma_after_parts_keep_id(s: EngineView, report: WindowReportView)
    ensures
        after_probe(s, report).0.upload_id == s.upload_id,
        after_window(s, report).0.upload_id == s.upload_id,
{
    let taken = with_window_parts(s, report);
    match s.source {
        None => {},
        Some(source) => {
            let counted = EngineView {
                probes_left: max_int(s.probes_left - 1, 0),
                probes_done: min_int(s.probes_done + 1, usize::MAX as int),
                probe_rate_sum: min_int(
                    s.probe_rate_sum + rate_bytes_s(s.window_bytes, report.part_nanos_total as int),
                    u64::MAX as int,
                ),
                ..taken
            };
            lemma_next_parts_keeps_id(counted);
            lemma_next_parts_keeps_id(retuned(counted, source.size as int));
        },
    }
    let metrics = metrics_of(
        s.window_bytes,
        report.wall_nanos as int,
        report.part_nanos_total as int,
        s.window_count,
        report.had_retryable_pressure,
    );
    lemma_next_parts_keeps_id(taken);
    lemma_next_parts_keeps_id(
        EngineView {
            target_concurrency: adapted_concurrency(
                s.config.auto_profile,
                s.target_concurrency,
                concurrency_floor(s),
                s.max_concurrency,
                metrics,
            ),
            ..taken
        },
    );
}

/// The state after a sequence of replies.
pub open spec fn run(s: EngineView, events: Seq<EventView>) -> EngineView
    decreases events.len(),
{
    if events.len() == 0 {
        s
    } else {
        run(step(s, events[0]).0, events.drop_first())
    }
}

/// The requests that a sequence of replies leads to, one for each reply.
pub open spec fn requests(s: EngineView, events: Seq<EventView>) -> Seq<ActionView>
    decreases events.len(),
{
    if events.len() == 0 {
        Seq::empty()
    } else {
        seq![step(s, events[0]).1] + requests(step(s, events[0]).0, events.drop_first())
    }
}

/// How often a multipart upload was created, completed and aborted.
pub ghost struct Ledger {
    pub creations: nat,
    pub completions: nat,
    pub aborts: nat,
}

/// The ledger with one more request.
pub open spec fn entered(ledger: Ledger, action: ActionView) -> Ledger {
    Ledger {
        creations: if action is CreateMultipartUpload {
            ledger.creations + 1
        } else {
            ledger.creations
        },
        completions: if action is CompleteMultipartUpload {
            ledger.completions + 1
        } else {
            ledger.completions
        },
        aborts: if action is AbortMultipartUpload {
            ledger.aborts + 1
        } else {
            ledger.aborts
        },
    }
}

/// The ledger with a sequence of requests, first to last.
pub open spec fn entered_all(ledger: Ledger, actions: Seq<ActionView>) -> Ledger
    decreases actions.len(),
{
    if actions.len() == 0 {
        ledger
    } else {
        entered_all(entered(ledger, actions[0]), actions.drop_first())
    }
}

/// The ledger of a sequence of requests.
pub open spec fn ledger_of(actions: Seq<ActionView>) -> Ledger {
    entered_all(Ledger { creations: 0, completions: 0, aborts: 0 }, actions)
}

/// What the ledger of a run that writes to the store shows, by the state
/// that the run has reached.
pub open spec fn balanced(s: EngineView, ledger: Ledger) -> bool {
    &&& ledger.creations <= 1
    &&& ledger.completions <= 1
    &&& ledger.aborts <= 1
    &&& (before_upload(s.phase) && s.phase != Phase::Planning ==> ledger.creations == 0)
    &&& (s.phase == Phase::Planning ==> ledger.creations == 1)
    &&& (s.upload == UploadState::Unopened ==> ledger.completions == 0 && ledger.aborts == 0)
    &&& (s.upload != UploadState::Unopened ==> ledger.creations == 1)
    &&& (s.phase == Phase::Probing || s.phase == Phase::WindowLoop ==> ledger.completions == 0
        && ledger.aborts == 0)
    &&& (s.phase == Phase::AllPartsReady ==> ledger.completions == 1 && ledger.aborts == 0)
    &&& (s.phase == Phase::Aborting ==> ledger.aborts == 1)
    &&& (s.upload == UploadState::Completed ==> ledger.completions == 1 && ledger.aborts == 0)
    &&& (s.upload == UploadState::Aborted ==> ledger.aborts == 1)
}

/// Whether a step that starts before the upload stays there, or ends the copy.
pub open spec fn stays_before(s: EngineView, result: (EngineView, ActionView)) -> bool {
    (before_upload(result.0.phase) || result.0.phase == Phase::Finished) && result.0.upload
        == s.upload
}

proof fn lemma_next_parts_course(s: EngineView)
    requires
        s.upload == UploadState::Open,
        !s.config.dry_run,
    ensures
        next_parts(s).0.upload == UploadState::Open,
        during_upload(next_parts(s).0.phase),
{
}

proof fn lemma_begin_upload_course(s: EngineView)
    requires
        s.upload == UploadState::Unopened,
        !s.config.dry_run,
    ensures
        stays_before(s, begin_upload(s)),
        stays_before(s, with_copy_tags(s)),
{
}

proof fn lemma_begin_copy_course(s: EngineView)
    requires
        s.upload == UploadState::Unopened,
        !s.config.dry_run,
    ensures
        stays_before(s, begin_copy(s)),
{
    lemma_begin_upload_course(s);
    lemma_begin_upload_course(EngineView { source_tags: None, ..s });
}

proof fn lemma_reconcile_step_course(s: EngineView, destination_tags: Option<Seq<(Text, Text)>>)
    requires
        s.upload == UploadState::Unopened,
        !s.config.dry_run,
    ensures
        stays_before(s, reconcile_step(s, destination_tags)),
{
    lemma_begin_copy_course(s);
}

proof fn lemma_after_parts_course(s: EngineView, report: WindowReportView)
    requires
        s.upload == UploadState::Open,
        !s.config.dry_run,
    ensures
        after_probe(s, report).0.upload == UploadState::Open,
        during_upload(after_probe(s, report).0.phase),
        after_window(s, report).0.upload == UploadState::Open,
        during_upload(after_window(s, report).0.phase),
{
    let taken = with_window_parts(s, report);
    match s.source {
        None => {},
        Some(source) => {
            let counted = EngineView {
                probes_left: max_int(s.probes_left - 1, 0),
                probes_done: min_int(s.probes_done + 1, usize::MAX as int),
                probe_rate_sum: min_int(
                    s.probe_rate_sum + rate_bytes_s(s.window_bytes, report.part_nanos_total as int),
                    u64::MAX as int,
                ),
                ..taken
            };
            lemma_next_parts_course(counted);
            lemma_next_parts_course(retuned(counted, source.size as int));
        },
    }
    let metrics = metrics_of(
        s.window_bytes,
        report.wall_nanos as int,
        report.part_nanos_total as int,
        s.window_count,
        report.had_retryable_pressure,
    );
    lemma_next_parts_course(taken);
    lemma_next_parts_course(
        EngineView {
            target_concurrency: adapted_concurrency(
                s.config.auto_profile,
                s.target_concurrency,
                concurrency_floor(s),
                s.max_concurrency,
                metrics,
            ),
            ..taken
        },
    );
}

/// The course of a copy that writes to the store: before the upload, a
/// reply leads to another phase before the upload or ends the copy; once the
/// upload is open, it stays open until it is completed or aborted; and once it
/// is completed or aborted, it stays so.
pub open spec fn on_course(s: EngineView, next: EngineView) -> bool {
    &&& (before_upload(s.phase) && s.phase != Phase::Planning ==> (before_upload(next.phase)
        || next.phase == Phase::Finished) && next.upload == s.upload)
    &&& (s.phase == Phase::Planning ==> (next.phase == Phase::Finished && next.upload == s.upload)
        || (next.upload == UploadState::Open && during_upload(next.phase)))
    &&& (s.phase == Phase::Probing || s.phase == Phase::WindowLoop ==> next.upload
        == UploadState::Open && during_upload(next.phase))
    &&& (s.phase == Phase::AllPartsReady ==> next.phase == Phase::Aborting || (next.upload
        == UploadState::Completed && (next.phase == Phase::VerifySource || next.phase
        == Phase::Finished)))
    &&& (s.phase == Phase::Aborting ==> next.phase == Phase::Finished && next.upload
        == UploadState::Aborted)
    &&& (s.phase == Phase::VerifySource || s.phase == Phase::VerifyDestination ==> next.upload
        == s.upload && (next.phase == Phase::VerifyDestination || next.phase == Phase::Finished))
    &&& (s.phase == Phase::Finished ==> next.phase == Phase::Finished && next.upload == s.upload)
}

proof fn lemma_course_from_source_head(s: EngineView, event: EventView)
    requires
        well_formed(s),
        !s.config.dry_run,
        s.phase == Phase::SourceHead,
    ensures
        on_course(s, step(s, event).0),
{
    reveal(step);
    match event {
        EventView::Head(Ok(Some(head))) => {
            lemma_begin_copy_course(EngineView { source: Some(head), ..s });
        },
        _ => {},
    }
}

proof fn lemma_course_from_destination_head(s: EngineView, event: EventView)
    requires
        well_formed(s),
        !s.config.dry_run,
        s.phase == Phase::DestinationHead,
    ensures
        on_course(s, step(s, event).0),
{
    reveal(step);
    lemma_begin_copy_course(s);
    match event {
        EventView::Head(Ok(Some(head))) => {
            lemma_reconcile_step_course(
                EngineView { destination: Some(head), source_tags: None, ..s },
                None,
            );
        },
        _ => {},
    }
}

proof fn lemma_course_from_tags(s: EngineView, event: EventView)
    requires
        well_formed(s),
        !s.config.dry_run,
        s.phase == Phase::PrecheckDestinationTags || s.phase == Phase::CopyTags,
    ensures
        on_course(s, step(s, event).0),
{
    reveal(step);
    match event {
        EventView::Tags(reply) => match tags_of_reply(reply) {
            Ok(tags) => {
                lemma_reconcile_step_course(s, tags);
                lemma_begin_upload_course(EngineView { source_tags: tags, ..s });
            },
            Err(_) => {},
        },
        _ => {},
    }
}

proof fn lemma_course_from_destination_region(s: EngineView, event: EventView)
    requires
        well_formed(s),
        !s.config.dry_run,
        s.phase == Phase::DestinationRegion,
    ensures
        on_course(s, step(s, event).0),
{
    reveal(step);
    match event {
        EventView::Region(reply) => {
            lemma_begin_upload_course(
                EngineView {
                    same_region: match reply {
                        Ok(constraint) => s.source_region == Some(region_of(constraint)),
                        Err(_) => false,
                    },
                    ..s
                },
            );
        },
        _ => {},
    }
}

proof fn lemma_course_from_planning(s: EngineView, event: EventView)
    requires
        well_formed(s),
        !s.config.dry_run,
        s.phase == Phase::Planning,
    ensures
        on_course(s, step(s, event).0),
{
    reveal(step);
    match event {
        EventView::UploadCreated(Ok(id)) => {
            lemma_next_parts_course(EngineView { upload: UploadState::Open, upload_id: id, ..s });
        },
        _ => {},
    }
}

proof fn lemma_course_from_parts(s: EngineView, event: EventView)
    requires
        well_formed(s),
        !s.config.dry_run,
        s.phase == Phase::Probing || s.phase == Phase::WindowLoop,
    ensures
        on_course(s, step(s, event).0),
{
    reveal(step);
    match event {
        EventView::PartsCopied(Ok(report)) => {
            lemma_after_parts_course(s, report);
        },
        _ => {},
    }
}

proof fn lemma_course_from_a_write(s: EngineView, event: EventView)
    requires
        well_formed(s),
        !s.config.dry_run,
        s.phase == Phase::PropertySync || s.phase == Phase::TagSync
            || s.phase == Phase::InstantCopy || s.phase == Phase::AllPartsReady
            || s.phase == Phase::Aborting,
    ensures
        on_course(s, step(s, event).0),
{
    reveal(step);
}

proof fn lemma_course_from_a_read(s: EngineView, event: EventView)
    requires
        well_formed(s),
        !s.config.dry_run,
        s.phase == Phase::Idle || s.phase == Phase::PrecheckSourceTags
            || s.phase == Phase::SourceRegion || s.phase == Phase::VerifySource
            || s.phase == Phase::VerifyDestination || s.phase == Phase::Finished,
    ensures
        on_course(s, step(s, event).0),
{
    reveal(step);
}

/// Every reply keeps a copy that writes to the store on its course.
pub proof fn lemma_step_on_course(s: EngineView, event: EventView)
    requires
        well_formed(s),
        !s.config.dry_run,
    ensures
        on_course(s, step(s, event).0),
{
    match s.phase {
        Phase::SourceHead => lemma_course_from_source_head(s, event),
        Phase::DestinationHead => lemma_course_from_destination_head(s, event),
        Phase::PrecheckDestinationTags | Phase::CopyTags => lemma_course_from_tags(s, event),
        Phase::DestinationRegion => lemma_course_from_destination_region(s, event),
        Phase::Planning => lemma_course_from_planning(s, event),
        Phase::Probing | Phase::WindowLoop => lemma_course_from_parts(s, event),
        Phase::PropertySync | Phase::TagSync | Phase::InstantCopy | Phase::AllPartsReady
        | Phase::Aborting => lemma_course_from_a_write(s, event),
        _ => lemma_course_from_a_read(s, event),
    }
}

/// Every reply keeps the ledger of a copy that writes to the store balanced.
pub proof fn lemma_step_balanced(s: EngineView, event: EventView, ledger: Ledger)
    requires
        well_formed(s),
        !s.config.dry_run,
        balanced(s, ledger),
    ensures
        balanced(step(s, event).0, entered(ledger, step(s, event).1)),
{
    lemma_step_on_course(s, event);
    lemma_step_well_formed(s, event);
    lemma_request_matches_phase(s, event);
}

/// Every run keeps the ledger of a copy that writes to the store balanced.
pub proof fn lemma_run_balanced(s: EngineView, events: Seq<EventView>, ledger: Ledger)
    requires
        well_formed(s),
        !s.config.dry_run,
        balanced(s, ledger),
    ensures
        well_formed(run(s, events)),
        run(s, events).config == s.config,
        balanced(run(s, events), entered_all(ledger, requests(s, events))),
    decreases events.len(),
{
    if events.len() > 0 {
        let next = step(s, events[0]);
        lemma_step_balanced(s, events[0], ledger);
        lemma_step_well_formed(s, events[0]);
        lemma_request_matches_phase(s, events[0]);
        lemma_run_balanced(next.0, events.drop_first(), entered(ledger, next.1));
        let asked = requests(s, events);
        assert(asked[0] == next.1);
        assert(asked.drop_first() =~= requests(next.0, events.drop_first()));
    }
}

/// In every run of a copy that writes to the
/// store, a multipart upload is created at most once; while none is open,
/// none is completed or aborted; a copy that has ended leaves no upload open;
/// a completed upload was completed by exactly one request and never aborted;
/// and an aborted upload was aborted by exactly one request.
pub proof fn lemma_upload_is_terminalized(config: CopyConfigView, events: Seq<EventView>)
    requires
        !config.dry_run,
    ensures
        ({
            let end = run(initial(config), events);
            let asked = ledger_of(requests(initial(config), events));
            &&& asked.creations <= 1
            &&& (end.phase == Phase::Finished ==> end.upload != UploadState::Open)
            &&& (end.upload == UploadState::Unopened ==> asked.completions == 0 && asked.aborts
                == 0)
            &&& (end.upload == UploadState::Completed ==> asked.creations == 1
                && asked.completions == 1 && asked.aborts == 0)
            &&& (end.upload == UploadState::Aborted ==> asked.creations == 1 && asked.aborts == 1
                && asked.completions <= 1)
        }),
{
    lemma_run_balanced(
        initial(config),
        events,
        Ledger { creations: 0, completions: 0, aborts: 0 },
    );
}

proof fn lemma_next_parts_quiet(s: EngineView)
    requires
        s.config.dry_run,
    ensures
        !is_store_write(next_parts(s).1),
        !is_store_write(begin_upload(s).1),
        !is_store_write(with_copy_tags(s).1),
{
    match s.source {
        None => {},
        Some(source) => {
            let p = planned(s, source.size as int);
            let opened = EngineView {
                upload: UploadState::Open,
                upload_id: dry_run_upload_id(),
                ..p
            };
            assert(!is_store_write(next_parts(opened).1));
        },
    }
}

proof fn lemma_begin_copy_quiet(s: EngineView, destination_tags: Option<Seq<(Text, Text)>>)
    requires
        s.config.dry_run,
    ensures
        !is_store_write(begin_copy(s).1),
        !is_store_write(reconcile_step(s, destination_tags).1),
{
    lemma_next_parts_quiet(s);
    lemma_next_parts_quiet(EngineView { source_tags: None, ..s });
}

proof fn lemma_after_parts_quiet(s: EngineView, report: WindowReportView)
    requires
        s.config.dry_run,
    ensures
        !is_store_write(after_probe(s, report).1),
        !is_store_write(after_window(s, report).1),
{
    let taken = with_window_parts(s, report);
    match s.source {
        None => {},
        Some(source) => {
            let counted = EngineView {
                probes_left: max_int(s.probes_left - 1, 0),
                probes_done: min_int(s.probes_done + 1, usize::MAX as int),
                probe_rate_sum: min_int(
                    s.probe_rate_sum + rate_bytes_s(s.window_bytes, report.part_nanos_total as int),
                    u64::MAX as int,
                ),
                ..taken
            };
            lemma_next_parts_quiet(counted);
            lemma_next_parts_quiet(retuned(counted, source.size as int));
        },
    }
    let metrics = metrics_of(
        s.window_bytes,
        report.wall_nanos as int,
        report.part_nanos_total as int,
        s.window_count,
        report.had_retryable_pressure,
    );
    lemma_next_parts_quiet(taken);
    lemma_next_parts_quiet(
        EngineView {
            target_concurrency: adapted_concurrency(
                s.config.auto_profile,
                s.target_concurrency,
                concurrency_floor(s),
                s.max_concurrency,
                metrics,
            ),
            ..taken
        },
    );
}

proof fn lemma_quiet_from_source_head(s: EngineView, event: EventView)
    requires
        s.config.dry_run,
        s.phase == Phase::SourceHead,
    ensures
        !is_store_write(step(s, event).1),
{
    reveal(step);
    match event {
        EventView::Head(Ok(Some(head))) => {
            lemma_begin_copy_quiet(EngineView { source: Some(head), ..s }, None);
        },
        _ => {},
    }
}

proof fn lemma_quiet_from_destination_head(s: EngineView, event: EventView)
    requires
        s.config.dry_run,
        s.phase == Phase::DestinationHead,
    ensures
        !is_store_write(step(s, event).1),
{
    reveal(step);
    lemma_begin_copy_quiet(s, None);
    match event {
        EventView::Head(Ok(Some(head))) => {
            lemma_begin_copy_quiet(
                EngineView { destination: Some(head), source_tags: None, ..s },
                None,
            );
        },
        _ => {},
    }
}

proof fn lemma_quiet_from_tags(s: EngineView, event: EventView)
    requires
        s.config.dry_run,
        s.phase == Phase::PrecheckDestinationTags || s.phase == Phase::CopyTags,
    ensures
        !is_store_write(step(s, event).1),
{
    reveal(step);
    match event {
        EventView::Tags(reply) => match tags_of_reply(reply) {
            Ok(tags) => {
                lemma_begin_copy_quiet(s, tags);
                lemma_next_parts_quiet(EngineView { source_tags: tags, ..s });
            },
            Err(_) => {},
        },
        _ => {},
    }
}

proof fn lemma_quiet_from_destination_region(s: EngineView, event: EventView)
    requires
        s.config.dry_run,
        s.phase == Phase::DestinationRegion,
    ensures
        !is_store_write(step(s, event).1),
{
    reveal(step);
    match event {
        EventView::Region(reply) => {
            lemma_next_parts_quiet(
                EngineView {
                    same_region: match reply {
                        Ok(constraint) => s.source_region == Some(region_of(constraint)),
                        Err(_) => false,
                    },
                    ..s
                },
            );
        },
        _ => {},
    }
}

proof fn lemma_quiet_from_planning(s: EngineView, event: EventView)
    requires
        s.config.dry_run,
        s.phase == Phase::Planning,
    ensures
        !is_store_write(step(s, event).1),
{
    reveal(step);
    match event {
        EventView::UploadCreated(Ok(id)) => {
            lemma_next_parts_quiet(EngineView { upload: UploadState::Open, upload_id: id, ..s });
        },
        _ => {},
    }
}

proof fn lemma_quiet_from_parts(s: EngineView, event: EventView)
    requires
        s.config.dry_run,
        s.phase == Phase::Probing || s.phase == Phase::WindowLoop,
    ensures
        !is_store_write(step(s, event).1),
{
    reveal(step);
    match event {
        EventView::PartsCopied(Ok(report)) => {
            lemma_after_parts_quiet(s, report);
        },
        _ => {},
    }
}

proof fn lemma_quiet_from_a_write(s: EngineView, event: EventView)
    requires
        s.config.dry_run,
        s.phase == Phase::PropertySync || s.phase == Phase::TagSync
            || s.phase == Phase::InstantCopy || s.phase == Phase::AllPartsReady
            || s.phase == Phase::Aborting,
    ensures
        !is_store_write(step(s, event).1),
{
    reveal(step);
}

proof fn lemma_quiet_from_a_read(s: EngineView, event: EventView)
    requires
        s.config.dry_run,
        s.phase == Phase::Idle || s.phase == Phase::PrecheckSourceTags
            || s.phase == Phase::SourceRegion || s.phase == Phase::VerifySource
            || s.phase == Phase::VerifyDestination || s.phase == Phase::Finished,
    ensures
        !is_store_write(step(s, event).1),
{
    reveal(step);
}

/// In a dry run no reply leads to a request that changes what the store holds.
pub proof fn lemma_dry_run_step_writes_nothing(s: EngineView, event: EventView)
    requires
        s.config.dry_run,
    ensures
        !is_store_write(step(s, event).1),
{
    match s.phase {
        Phase::SourceHead => lemma_quiet_from_source_head(s, event),
        Phase::DestinationHead => lemma_quiet_from_destination_head(s, event),
        Phase::PrecheckDestinationTags | Phase::CopyTags => lemma_quiet_from_tags(s, event),
        Phase::DestinationRegion => lemma_quiet_from_destination_region(s, event),
        Phase::Planning => lemma_quiet_from_planning(s, event),
        Phase::Probing | Phase::WindowLoop => lemma_quiet_from_parts(s, event),
        Phase::PropertySync | Phase::TagSync | Phase::InstantCopy | Phase::AllPartsReady
        | Phase::Aborting => lemma_quiet_from_a_write(s, event),
        _ => lemma_quiet_from_a_read(s, event),
    }
}

/// A dry run writes nothing: none of the requests of any run changes what
/// the store holds.
pub proof fn lemma_dry_run_writes_nothing(s: EngineView, events: Seq<EventView>)
    requires
        s.config.dry_run,
    ensures
        forall|i: int|
            0 <= i < requests(s, events).len() ==> !is_store_write(
                #[trigger] requests(s, events)[i],
            ),
    decreases events.len(),
{
    if events.len() > 0 {
        let next = step(s, events[0]);
        lemma_dry_run_step_writes_nothing(s, events[0]);
        lemma_request_matches_phase(s, events[0]);
        lemma_dry_run_writes_nothing(next.0, events.drop_first());
        let asked = requests(s, events);
        let later = requests(next.0, events.drop_first());
        assert forall|i: int| 0 <= i < asked.len() implies !is_store_write(#[trigger] asked[i]) by {
            if i > 0 {
                assert(asked[i] == later[i - 1]);
            }
        }
    }
}

/// The replies of a run that finds the destination in place: both heads,
/// and both tag sets unless tags are skipped.
pub open spec fn replies_of_found_destination(
    config: CopyConfigView,
    source: ObjectHeadView,
    destination: ObjectHeadView,
    source_tags: Option<Seq<(Text, Text)>>,
    destination_tags: Option<Seq<(Text, Text)>>,
) -> Seq<EventView> {
    if config.skip_tags {
        seq![
            EventView::Start,
            EventView::Head(Ok(Some(source))),
            EventView::Head(Ok(Some(destination))),
        ]
    } else {
        seq![
            EventView::Start,
            EventView::Head(Ok(Some(source))),
            EventView::Head(Ok(Some(destination))),
            EventView::Tags(Ok(source_tags)),
            EventView::Tags(Ok(destination_tags)),
        ]
    }
}

/// The first three replies of a run that finds the destination in place
/// lead to the two heads being asked for, and then to the tags or, where
/// tags are skipped, to the decision.
proof fn lemma_heads_are_read(
    config: CopyConfigView,
    source: ObjectHeadView,
    destination: ObjectHeadView,
)
    requires
        !config.force_copy,
        data_matches(source, destination),
    ensures
        ({
            let s0 = initial(config);
            let s1 = EngineView { phase: Phase::SourceHead, ..s0 };
            let s2 = EngineView { source: Some(source), phase: Phase::DestinationHead, ..s0 };
            let found = EngineView {
                source: Some(source),
                destination: Some(destination),
                phase: Phase::DestinationHead,
                ..s0
            };
            &&& step(s0, EventView::Start) == (s1, ActionView::HeadSource)
            &&& step(s1, EventView::Head(Ok(Some(source)))) == (s2, ActionView::HeadDestination)
            &&& step(s2, EventView::Head(Ok(Some(destination)))) == if config.skip_tags {
                reconcile_step(found, None)
            } else {
                (EngineView { phase: Phase::PrecheckSourceTags, ..found }, ActionView::GetSourceTags)
            }
        }),
{
    reveal(step);
}

/// The two tag sets of a run that finds the destination in place lead to
/// the decision.
proof fn lemma_tags_are_read(
    found: EngineView,
    source_tags: Option<Seq<(Text, Text)>>,
    destination_tags: Option<Seq<(Text, Text)>>,
)
    requires
        found.phase == Phase::DestinationHead,
    ensures
        ({
            let s3 = EngineView { phase: Phase::PrecheckSourceTags, ..found };
            let s4 = EngineView {
                source_tags,
                phase: Phase::PrecheckDestinationTags,
                ..found
            };
            &&& step(s3, EventView::Tags(Ok(source_tags))) == (s4, ActionView::GetDestinationTags)
            &&& step(s4, EventView::Tags(Ok(destination_tags))) == reconcile_step(
                s4,
                destination_tags,
            )
        }),
{
    reveal(step);
}

/// A destination that is in line with the source ends the copy with success.
proof fn lemma_skip_ends_the_copy(s: EngineView, destination_tags: Option<Seq<(Text, Text)>>)
    requires
        match (s.source, s.destination) {
            (Some(source), Some(destination)) => tags_match(
                s.config,
                s.source_tags,
                destination_tags,
            ) && storage_class_matches(s.config, source, destination) && metadata_matches(
                s.config,
                source,
                destination,
            ),
            _ => false,
        },
    ensures
        reconcile_step(s, destination_tags) == (
            EngineView { phase: Phase::Finished, ..s },
            ActionView::Finish(Ok(())),
        ),
{
}

/// Where the destination holds the source's data, the tags agree, the
/// storage class is the one that a write would ask for (the source's own
/// where none is configured) and the headers agree, a run that is not forced
/// asks for nothing but the heads and tags, writes nothing, and ends with
/// success. So a second run after any successful one changes nothing.
pub proof fn lemma_identical_destination_is_left_alone(
    config: CopyConfigView,
    source: ObjectHeadView,
    destination: ObjectHeadView,
    source_tags: Option<Seq<(Text, Text)>>,
    destination_tags: Option<Seq<(Text, Text)>>,
)
    requires
        !config.force_copy,
        data_matches(source, destination),
        tags_match(config, source_tags, destination_tags),
        storage_class_matches(config, source, destination),
        metadata_matches(config, source, destination),
    ensures
        ({
            let replies = replies_of_found_destination(
                config,
                source,
                destination,
                source_tags,
                destination_tags,
            );
            let asked = requests(initial(config), replies);
            &&& asked.len() == replies.len()
            &&& asked.last() == ActionView::Finish(Ok(()))
            &&& run(initial(config), replies).phase == Phase::Finished
            &&& run(initial(config), replies).upload == UploadState::Unopened
            &&& forall|i: int| 0 <= i < asked.len() ==> !is_store_write(#[trigger] asked[i])
        }),
{
    let replies = replies_of_found_destination(
        config,
        source,
        destination,
        source_tags,
        destination_tags,
    );
    let s0 = initial(config);
    let found = EngineView {
        source: Some(source),
        destination: Some(destination),
        phase: Phase::DestinationHead,
        ..s0
    };
    lemma_heads_are_read(config, source, destination);
    let s1 = step(s0, replies[0]);
    let s2 = step(s1.0, replies[1]);
    let s3 = step(s2.0, replies[2]);
    let r1 = replies.drop_first();
    let r2 = r1.drop_first();
    let r3 = r2.drop_first();
    assert(r1[0] == replies[1]);
    assert(r2[0] == replies[2]);
    if config.skip_tags {
        lemma_skip_ends_the_copy(found, None);
        assert(s3.1 == ActionView::Finish(Ok(())));
        assert(r3.len() == 0);
        assert(requests(s3.0, r3) =~= Seq::empty());
        assert(requests(s2.0, r2) =~= seq![s3.1]);
        assert(requests(s1.0, r1) =~= seq![s2.1, s3.1]);
        assert(requests(s0, replies) =~= seq![s1.1, s2.1, s3.1]);
        assert(run(s3.0, r3) == s3.0);
        assert(run(s2.0, r2) == s3.0);
        assert(run(s1.0, r1) == s3.0);
        assert(run(s0, replies) == s3.0);
    } else {
        lemma_tags_are_read(found, source_tags, destination_tags);
        let s4 = step(s3.0, replies[3]);
        lemma_skip_ends_the_copy(s4.0, destination_tags);
        let s5 = step(s4.0, replies[4]);
        let r4 = r3.drop_first();
        let r5 = r4.drop_first();
        assert(r3[0] == replies[3]);
        assert(r4[0] == replies[4]);
        assert(s5.1 == ActionView::Finish(Ok(())));
        assert(r5.len() == 0);
        assert(requests(s5.0, r5) =~= Seq::empty());
        assert(requests(s4.0, r4) =~= seq![s5.1]);
        assert(requests(s3.0, r3) =~= seq![s4.1, s5.1]);
        assert(requests(s2.0, r2) =~= seq![s3.1, s4.1, s5.1]);
        assert(requests(s1.0, r1) =~= seq![s2.1, s3.1, s4.1, s5.1]);
        assert(requests(s0, replies) =~= seq![s1.1, s2.1, s3.1, s4.1, s5.1]);
        assert(run(s5.0, r5) == s5.0);
        assert(run(s4.0, r4) == s5.0);
        assert(run(s3.0, r3) == s5.0);
        assert(run(s2.0, r2) == s5.0);
        assert(run(s1.0, r1) == s5.0);
        assert(run(s0, replies) == s5.0);
    }
}

/// What is asked for once it is decided what is left to do on a destination
/// that holds the data.
pub open spec fn reconciled(
    s: EngineView,
    source: ObjectHeadView,
    decision: Option<Strategy>,
    destination_tags: Option<Seq<(Text, Text)>>,
) -> (EngineView, ActionView) {
    let ended = (EngineView { phase: Phase::Finished, ..s }, ActionView::Finish(Ok(())));
    match decision {
        Some(Strategy::Skip) => ended,
        Some(Strategy::PropertySync) => if s.config.dry_run {
            ended
        } else {
            (
                EngineView { phase: Phase::PropertySync, ..s },
                ActionView::CopyObject(
                    sync_request(s.config, source, s.source_tags, destination_tags),
                ),
            )
        },
        Some(Strategy::TagSync) => match s.source_tags {
            Some(tags) => if s.config.dry_run {
                ended
            } else {
                (EngineView { phase: Phase::TagSync, ..s }, ActionView::PutObjectTagging(tags))
            },
            None => begin_copy(s),
        },
        _ => begin_copy(s),
    }
}

/// What the decision over a destination that holds the data leads to, by
/// what is left to do: nothing; one copy request that rewrites the
/// properties; one tagging request with the source's tags; or a full copy.
/// A dry run sends neither of the two writes.
proof fn lemma_reconcile_step_follows_reconciliation(
    s: EngineView,
    source: ObjectHeadView,
    destination: ObjectHeadView,
    destination_tags: Option<Seq<(Text, Text)>>,
)
    requires
        s.source == Some(source),
        s.destination == Some(destination),
    ensures
        reconcile_step(s, destination_tags) == reconciled(
            s,
            source,
            reconciliation(s.config, source, destination, s.source_tags, destination_tags),
            destination_tags,
        ),
{
}

/// A destination that holds the data is reconciled as the strategy says:
/// after the two heads, and the two tag sets unless tags are skipped, the
/// engine asks for exactly what is left to do. Where properties differ on an
/// object of up to 5 GiB, that is one copy request with the source's
/// properties; where only the tags differ on a larger one, one tagging request.
pub proof fn lemma_found_destination_is_reconciled(
    config: CopyConfigView,
    source: ObjectHeadView,
    destination: ObjectHeadView,
    source_tags: Option<Seq<(Text, Text)>>,
    destination_tags: Option<Seq<(Text, Text)>>,
)
    requires
        !config.force_copy,
        data_matches(source, destination),
    ensures
        ({
            let replies = replies_of_found_destination(
                config,
                source,
                destination,
                source_tags,
                destination_tags,
            );
            let asked = requests(initial(config), replies);
            let read_source_tags = if config.skip_tags {
                None
            } else {
                source_tags
            };
            let read_destination_tags = if config.skip_tags {
                None
            } else {
                destination_tags
            };
            let decided = EngineView {
                source: Some(source),
                destination: Some(destination),
                source_tags: read_source_tags,
                phase: if config.skip_tags {
                    Phase::DestinationHead
                } else {
                    Phase::PrecheckDestinationTags
                },
                ..initial(config)
            };
            &&& asked.len() == replies.len()
            &&& asked[0] == ActionView::HeadSource
            &&& asked[1] == ActionView::HeadDestination
            &&& (!config.skip_tags ==> asked[2] == ActionView::GetSourceTags && asked[3]
                == ActionView::GetDestinationTags)
            &&& (run(initial(config), replies), asked.last()) == reconciled(
                decided,
                source,
                reconciliation(
                    config,
                    source,
                    destination,
                    read_source_tags,
                    read_destination_tags,
                ),
                read_destination_tags,
            )
        }),
{
    let replies = replies_of_found_destination(
        config,
        source,
        destination,
        source_tags,
        destination_tags,
    );
    let s0 = initial(config);
    let found = EngineView {
        source: Some(source),
        destination: Some(destination),
        phase: Phase::DestinationHead,
        ..s0
    };
    lemma_heads_are_read(config, source, destination);
    let s1 = step(s0, replies[0]);
    let s2 = step(s1.0, replies[1]);
    let s3 = step(s2.0, replies[2]);
    let r1 = replies.drop_first();
    let r2 = r1.drop_first();
    let r3 = r2.drop_first();
    assert(r1[0] == replies[1]);
    assert(r2[0] == replies[2]);
    if config.skip_tags {
        lemma_reconcile_step_follows_reconciliation(found, source, destination, None);
        assert(r3.len() == 0);
        assert(requests(s3.0, r3) =~= Seq::empty());
        assert(requests(s2.0, r2) =~= seq![s3.1]);
        assert(requests(s1.0, r1) =~= seq![s2.1, s3.1]);
        assert(requests(s0, replies) =~= seq![s1.1, s2.1, s3.1]);
        assert(run(s3.0, r3) == s3.0);
        assert(run(s2.0, r2) == s3.0);
        assert(run(s1.0, r1) == s3.0);
        assert(run(s0, replies) == s3.0);
    } else {
        lemma_tags_are_read(found, source_tags, destination_tags);
        let s4 = step(s3.0, replies[3]);
        lemma_reconcile_step_follows_reconciliation(s4.0, source, destination, destination_tags);
        let s5 = step(s4.0, replies[4]);
        let r4 = r3.drop_first();
        let r5 = r4.drop_first();
        assert(r3[0] == replies[3]);
        assert(r4[0] == replies[4]);
        assert(r5.len() == 0);
        assert(requests(s5.0, r5) =~= Seq::empty());
        assert(requests(s4.0, r4) =~= seq![s5.1]);
        assert(requests(s3.0, r3) =~= seq![s4.1, s5.1]);
        assert(requests(s2.0, r2) =~= seq![s3.1, s4.1, s5.1]);
        assert(requests(s1.0, r1) =~= seq![s2.1, s3.1, s4.1, s5.1]);
        assert(requests(s0, replies) =~= seq![s1.1, s2.1, s3.1, s4.1, s5.1]);
        assert(run(s5.0, r5) == s5.0);
        assert(run(s4.0, r4) == s5.0);
        assert(run(s3.0, r3) == s5.0);
        assert(run(s2.0, r2) == s5.0);
        assert(run(s1.0, r1) == s5.0);
        assert(run(s0, replies) == s5.0);
    }
}

/// A part that fails while the upload is open leads to the upload's abort,
/// and whatever the abort's reply is, the copy ends with the part's error.
pub proof fn lemma_failed_part_aborts_the_upload(
    s: EngineView,
    error: (StoreErrorKind, Text),
    abort_reply: EventView,
)
    requires
        well_formed(s),
        s.phase == Phase::Probing || s.phase == Phase::WindowLoop,
        !s.config.dry_run,
    ensures
        ({
            let failed = step(s, EventView::PartsCopied(Err(error)));
            let ended = step(failed.0, abort_reply);
            &&& failed.1 == ActionView::AbortMultipartUpload { upload_id: s.upload_id }
            &&& failed.0.phase == Phase::Aborting
            &&& ended.1 == ActionView::Finish(
                Err(CopyErrorView::UploadLifecycleFailed(UploadStage::Part, error)),
            )
            &&& ended.0.phase == Phase::Finished
            &&& ended.0.upload == UploadState::Aborted
        }),
{
    let failed = step(s, EventView::PartsCopied(Err(error)));
    lemma_step_during_upload(s, EventView::PartsCopied(Err(error)));
    lemma_step_during_upload(failed.0, abort_reply);
}

/// Whether the parts sent out so far lie on the grid of the part size: they
/// reach as far as whole parts go, and the last of them starts within the
/// object.
pub open spec fn on_grid(s: EngineView, size: int) -> bool {
    let sent = s.next_part_number - 1;
    &&& s.next_start_byte == min_int(sent * s.part_size, size)
    &&& (sent >= 1 ==> (sent - 1) * s.part_size < size)
}

/// Whether a copy with configured part size is laid out as configured: the
/// part size is the configured one, clamped for 10 000 parts, as many parts
/// run at a time as the cap allows, nothing is probed, and the parts sent out
/// lie on the grid.
pub open spec fn laid_out(s: EngineView) -> bool {
    match s.source {
        Some(source) => {
            &&& source.size > 0
            &&& s.probes_left == 0
            &&& s.part_size == clamped_part_size(
                source.size as int,
                s.config.manual_part_size as int,
                S3_MAX_PARTS as int,
            )
            &&& s.target_concurrency == max_int(s.config.concurrency_cap as int, 1)
            &&& on_grid(s, source.size as int)
        },
        None => false,
    }
}

/// What holds of every state of a copy with configured part size: it never
/// probes, and from the upload's creation on it is laid out as configured.
pub open spec fn manual_layout(s: EngineView) -> bool {
    &&& s.probes_left == 0
    &&& s.phase != Phase::Probing
    &&& (s.phase == Phase::Planning || during_upload(s.phase) ==> laid_out(s))
}

/// Whether a window holds at least one part and no more than the
/// concurrency cap allows at a time.
pub open spec fn within_cap(config: CopyConfigView, action: ActionView) -> bool {
    match action {
        ActionView::CopyParts { upload_id, batch, simulated } => 1 <= batch.len() <= max_int(
            config.concurrency_cap as int,
            1,
        ),
        _ => true,
    }
}

proof fn lemma_next_parts_keeps_layout(s: EngineView)
    requires
        counters_ok(s),
        !s.config.auto_enabled,
        laid_out(s),
    ensures
        laid_out(next_parts(s).0),
        next_parts(s).0.phase != Phase::Probing,
        next_parts(s).0.probes_left == 0,
        within_cap(s.config, next_parts(s).1),
{
    let source = s.source->0;
    let size = source.size as int;
    let sent = s.next_part_number - 1;
    if s.next_start_byte < size && s.next_part_number <= S3_MAX_PARTS {
        let parts = window_parts(
            s.next_part_number,
            s.next_start_byte,
            size,
            s.part_size,
            s.target_concurrency,
        );
        crate::parts::lemma_window_extent(
            s.next_part_number,
            s.next_start_byte,
            size,
            s.part_size,
            s.target_concurrency,
        );
        if parts.len() >= 1 {
            crate::parts::lemma_window_end(
                s.next_part_number,
                s.next_start_byte,
                size,
                s.part_size,
                s.target_concurrency,
            );
            let len = parts.len() as int;
            let part_size = s.part_size;
            assert((sent + len) * part_size == sent * part_size + len * part_size && (sent + len
                - 1) * part_size == sent * part_size + (len - 1) * part_size) by (nonlinear_arith);
        }
    }
}

proof fn lemma_begin_upload_keeps_layout(s: EngineView)
    requires
        counters_ok(s),
        !s.config.auto_enabled,
        s.upload == UploadState::Unopened,
        s.probes_left == 0,
    ensures
        manual_layout(begin_upload(s).0),
        manual_layout(with_copy_tags(s).0),
        within_cap(s.config, begin_upload(s).1),
        within_cap(s.config, with_copy_tags(s).1),
{
    match s.source {
        None => {},
        Some(source) => {
            if source.size > 0 {
                let p = planned(s, source.size as int);
                crate::lifecycle::lemma_planned_counters(s, source.size as int);
                assert(0 * p.part_size == 0) by (nonlinear_arith);
                let opened = EngineView {
                    upload: UploadState::Open,
                    upload_id: dry_run_upload_id(),
                    ..p
                };
                assert(laid_out(opened));
                lemma_next_parts_keeps_layout(opened);
            }
        },
    }
}

proof fn lemma_begin_copy_keeps_layout(s: EngineView, destination_tags: Option<Seq<(Text, Text)>>)
    requires
        counters_ok(s),
        !s.config.auto_enabled,
        s.upload == UploadState::Unopened,
        s.probes_left == 0,
    ensures
        manual_layout(begin_copy(s).0),
        manual_layout(reconcile_step(s, destination_tags).0),
        within_cap(s.config, begin_copy(s).1),
        within_cap(s.config, reconcile_step(s, destination_tags).1),
{
    lemma_begin_upload_keeps_layout(s);
    lemma_begin_upload_keeps_layout(EngineView { source_tags: None, ..s });
}

proof fn lemma_after_window_keeps_layout(s: EngineView, report: WindowReportView)
    requires
        well_formed(s),
        !s.config.auto_enabled,
        s.phase == Phase::WindowLoop,
        laid_out(s),
    ensures
        manual_layout(after_window(s, report).0),
        within_cap(s.config, after_window(s, report).1),
{
    if crate::parts::answers_window(report.parts, s.window_first, s.window_count) {
        crate::lifecycle::lemma_taken_counters(s, report);
        let taken = with_window_parts(s, report);
        assert(laid_out(taken));
        lemma_next_parts_keeps_layout(taken);
    }
}

proof fn lemma_layout_from_source_head(s: EngineView, event: EventView)
    requires
        well_formed(s),
        !s.config.auto_enabled,
        manual_layout(s),
        s.phase == Phase::SourceHead,
    ensures
        manual_layout(step(s, event).0),
        within_cap(s.config, step(s, event).1),
{
    reveal(step);
    match event {
        EventView::Head(Ok(Some(head))) => {
            lemma_begin_copy_keeps_layout(EngineView { source: Some(head), ..s }, None);
        },
        _ => {},
    }
}

proof fn lemma_layout_from_destination_head(s: EngineView, event: EventView)
    requires
        well_formed(s),
        !s.config.auto_enabled,
        manual_layout(s),
        s.phase == Phase::DestinationHead,
    ensures
        manual_layout(step(s, event).0),
        within_cap(s.config, step(s, event).1),
{
    reveal(step);
    lemma_begin_copy_keeps_layout(s, None);
    match event {
        EventView::Head(Ok(Some(head))) => {
            lemma_begin_copy_keeps_layout(
                EngineView { destination: Some(head), source_tags: None, ..s },
                None,
            );
        },
        _ => {},
    }
}

proof fn lemma_layout_from_tags(s: EngineView, event: EventView)
    requires
        well_formed(s),
        !s.config.auto_enabled,
        manual_layout(s),
        s.phase == Phase::PrecheckDestinationTags || s.phase == Phase::CopyTags,
    ensures
        manual_layout(step(s, event).0),
        within_cap(s.config, step(s, event).1),
{
    reveal(step);
    match event {
        EventView::Tags(reply) => match tags_of_reply(reply) {
            Ok(tags) => {
                lemma_begin_copy_keeps_layout(s, tags);
                lemma_begin_upload_keeps_layout(EngineView { source_tags: tags, ..s });
            },
            Err(_) => {},
        },
        _ => {},
    }
}

proof fn lemma_layout_from_destination_region(s: EngineView, event: EventView)
    requires
        well_formed(s),
        !s.config.auto_enabled,
        manual_layout(s),
        s.phase == Phase::DestinationRegion,
    ensures
        manual_layout(step(s, event).0),
        within_cap(s.config, step(s, event).1),
{
    reveal(step);
    match event {
        EventView::Region(reply) => {
            lemma_begin_upload_keeps_layout(
                EngineView {
                    same_region: match reply {
                        Ok(constraint) => s.source_region == Some(region_of(constraint)),
                        Err(_) => false,
                    },
                    ..s
                },
            );
        },
        _ => {},
    }
}

proof fn lemma_layout_from_planning(s: EngineView, event: EventView)
    requires
        well_formed(s),
        !s.config.auto_enabled,
        manual_layout(s),
        s.phase == Phase::Planning,
    ensures
        manual_layout(step(s, event).0),
        within_cap(s.config, step(s, event).1),
{
    reveal(step);
    match event {
        EventView::UploadCreated(Ok(id)) => {
            let opened = EngineView { upload: UploadState::Open, upload_id: id, ..s };
            assert(laid_out(opened));
            lemma_next_parts_keeps_layout(opened);
        },
        _ => {},
    }
}

proof fn lemma_layout_from_window(s: EngineView, event: EventView)
    requires
        well_formed(s),
        !s.config.auto_enabled,
        manual_layout(s),
        s.phase == Phase::WindowLoop,
    ensures
        manual_layout(step(s, event).0),
        within_cap(s.config, step(s, event).1),
{
    reveal(step);
    match event {
        EventView::PartsCopied(Ok(report)) => {
            lemma_after_window_keeps_layout(s, report);
        },
        _ => {},
    }
}

proof fn lemma_layout_from_a_write(s: EngineView, event: EventView)
    requires
        well_formed(s),
        !s.config.auto_enabled,
        manual_layout(s),
        s.phase == Phase::PropertySync || s.phase == Phase::TagSync || s.phase
            == Phase::InstantCopy || s.phase == Phase::AllPartsReady || s.phase == Phase::Aborting,
    ensures
        manual_layout(step(s, event).0),
        within_cap(s.config, step(s, event).1),
{
    reveal(step);
}

proof fn lemma_layout_from_a_read(s: EngineView, event: EventView)
    requires
        well_formed(s),
        !s.config.auto_enabled,
        manual_layout(s),
        s.phase == Phase::Idle || s.phase == Phase::PrecheckSourceTags || s.phase
            == Phase::SourceRegion || s.phase == Phase::VerifySource || s.phase
            == Phase::VerifyDestination || s.phase == Phase::Finished,
    ensures
        manual_layout(step(s, event).0),
        within_cap(s.config, step(s, event).1),
{
    reveal(step);
}

/// Every reply keeps a copy with configured part size laid out as configured.
pub proof fn lemma_step_keeps_manual_layout(s: EngineView, event: EventView)
    requires
        well_formed(s),
        !s.config.auto_enabled,
        manual_layout(s),
    ensures
        manual_layout(step(s, event).0),
        within_cap(s.config, step(s, event).1),
{
    match s.phase {
        Phase::SourceHead => lemma_layout_from_source_head(s, event),
        Phase::DestinationHead => lemma_layout_from_destination_head(s, event),
        Phase::PrecheckDestinationTags | Phase::CopyTags => lemma_layout_from_tags(s, event),
        Phase::DestinationRegion => lemma_layout_from_destination_region(s, event),
        Phase::Planning => lemma_layout_from_planning(s, event),
        Phase::WindowLoop => lemma_layout_from_window(s, event),
        Phase::PropertySync | Phase::TagSync | Phase::InstantCopy | Phase::AllPartsReady
        | Phase::Aborting => lemma_layout_from_a_write(s, event),
        _ => lemma_layout_from_a_read(s, event),
    }
}

/// Every state of every run of a copy with configured part size is laid out
/// as configured.
pub proof fn lemma_run_keeps_manual_layout(config: CopyConfigView, events: Seq<EventView>)
    requires
        !config.auto_enabled,
    ensures
        well_formed(run(initial(config), events)),
        manual_layout(run(initial(config), events)),
        run(initial(config), events).config == config,
{
    lemma_run_keeps_layout_from(initial(config), events);
}

proof fn lemma_run_keeps_layout_from(s: EngineView, events: Seq<EventView>)
    requires
        well_formed(s),
        !s.config.auto_enabled,
        manual_layout(s),
    ensures
        well_formed(run(s, events)),
        manual_layout(run(s, events)),
        run(s, events).config == s.config,
    decreases events.len(),
{
    if events.len() > 0 {
        lemma_step_well_formed(s, events[0]);
        lemma_step_keeps_manual_layout(s, events[0]);
        lemma_request_matches_phase(s, events[0]);
        lemma_run_keeps_layout_from(step(s, events[0]).0, events.drop_first());
    }
}

/// The part count of a copy with configured part size: whenever such a copy
/// asks for the upload's completion, it has sent out, and submits, exactly as
/// many parts as the object needs at the configured part size (clamped for
/// 10 000 parts), numbered from 1 in ascending order; and no window holds
/// more parts than the concurrency cap allows.
pub proof fn lemma_manual_part_count(s: EngineView, event: EventView)
    requires
        well_formed(s),
        !s.config.auto_enabled,
        manual_layout(s),
    ensures
        match step(s, event).1 {
            ActionView::CompleteMultipartUpload { upload_id, parts } => {
                let next = step(s, event).0;
                match next.source {
                    Some(source) => {
                        &&& source.size > 0
                        &&& numbered_from_one(parts)
                        &&& parts.len() == ceil_div(
                            source.size as int,
                            clamped_part_size(
                                source.size as int,
                                s.config.manual_part_size as int,
                                S3_MAX_PARTS as int,
                            ),
                        )
                    },
                    None => false,
                }
            },
            _ => true,
        },
        within_cap(s.config, step(s, event).1),
{
    let next = step(s, event).0;
    lemma_step_well_formed(s, event);
    lemma_step_keeps_manual_layout(s, event);
    lemma_request_matches_phase(s, event);
    lemma_completion_is_ordered(s, event);
    match step(s, event).1 {
        ActionView::CompleteMultipartUpload { upload_id, parts } => {
            let size = next.source->0.size as int;
            let sent = next.next_part_number - 1;
            crate::parts::lemma_parts_before_end(size, next.part_size, sent);
            crate::parts::lemma_parts_before_end(size, next.part_size, sent - 1);
        },
        _ => {},
    }
}

} // verus!
