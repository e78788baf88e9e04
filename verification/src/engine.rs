//! The executable copy engine. It is driven with the store's replies, one at
//! a time, and answers each with the next request; it never talks to the
//! store itself.

use vstd::prelude::*;
use crate::auto::{
    adapt_concurrency, build_auto_plan, clamp_part_size_for_limit, optimize_part_size_for_cost,
    tune_part_size_from_probe,
};
use crate::config::CopyConfig;
use crate::errors::{
    outcome_view, CopyError, CopyErrorView, StoreError, StoreErrorKind, UploadStage,
    VerificationFailure,
};
use crate::headers::{build_copy_request, build_sync_request};
use crate::lifecycle;
use crate::lifecycle::{counters_ok, well_formed, EngineView, Phase, UploadState};
use crate::limits::{ceil_div, ceil_div_i64, max_int, S3_MAX_PARTS, S3_MIN_PART_SIZE};
use crate::object::{copy_tags, optional_head, optional_tags, ObjectHead, Tag};
use crate::parts::{
    arrange_parts, duplicate_parts, plan_window, transfer_rate, window_metrics, CompletedPart,
};
use crate::store::{bucket_region, tags_reply_view, Action, Event, WindowReport};
use crate::strategy::{has_matching_data, plan_full_copy, reconcile, Strategy};
use crate::text::{copy_text, optional_text, same_text, text_from};
use crate::verify::verify_copy;

verus! {

/// The state of one copy.
pub struct Engine {
    pub config: CopyConfig,
    pub phase: Phase,
    pub source: Option<ObjectHead>,
    pub destination: Option<ObjectHead>,
    pub source_tags: Option<Vec<Tag>>,
    pub source_region: Option<String>,
    pub same_region: bool,
    pub part_size: i64,
    pub target_concurrency: usize,
    pub max_concurrency: usize,
    pub probes_left: usize,
    pub probes_done: usize,
    pub probe_rate_sum: u64,
    pub upload: UploadState,
    pub upload_id: String,
    pub next_part_number: i32,
    pub next_start_byte: i64,
    pub window_first: i32,
    pub window_count: usize,
    pub window_bytes: u64,
    pub completed: Vec<CompletedPart>,
    pub failure: Option<CopyError>,
}

/// What an optional error is in contracts.
pub open spec fn optional_error(error: Option<CopyError>) -> Option<CopyErrorView> {
    match error {
        Some(e) => Some(e.deep_view()),
        None => None,
    }
}

impl DeepView for Engine {
    type V = EngineView;

    open spec fn deep_view(&self) -> EngineView {
        EngineView {
            config: self.config.deep_view(),
            phase: self.phase,
            source: optional_head(self.source),
            destination: optional_head(self.destination),
            source_tags: optional_tags(self.source_tags),
            source_region: optional_text(self.source_region),
            same_region: self.same_region,
            part_size: self.part_size as int,
            target_concurrency: self.target_concurrency as int,
            max_concurrency: self.max_concurrency as int,
            probes_left: self.probes_left as int,
            probes_done: self.probes_done as int,
            probe_rate_sum: self.probe_rate_sum as int,
            upload: self.upload,
            upload_id: self.upload_id@,
            next_part_number: self.next_part_number as int,
            next_start_byte: self.next_start_byte as int,
            window_first: self.window_first as int,
            window_count: self.window_count as int,
            window_bytes: self.window_bytes as int,
            completed: self.completed.deep_view(),
            failure: optional_error(self.failure),
        }
    }
}

/// How much of a copy lies ahead.
#[derive(Copy, Clone, Debug, PartialEq, Eq, Structural)]
pub struct Outlook {
    pub parts: u64,
    pub bytes: u64,
}

/// The parts and bytes that are in flight or not sent out yet.
pub open spec fn outlook_of(s: EngineView) -> Outlook {
    let unscheduled = match s.source {
        Some(source) => max_int(source.size - s.next_start_byte, 0),
        None => 0,
    };
    Outlook {
        parts: (s.window_count + ceil_div(unscheduled, s.part_size)) as u64,
        bytes: (s.window_bytes + unscheduled) as u64,
    }
}

/// The tags of a tagging read's reply: an object that is not there has none.
fn tags_of(reply: Result<Option<Vec<Tag>>, StoreError>) -> (tags: Result<
    Option<Vec<Tag>>,
    StoreError,
>)
    ensures
        tags_reply_view(tags) == lifecycle::tags_of_reply(tags_reply_view(reply)),
{
    match reply {
        Ok(tags) => Ok(tags),
        Err(e) => {
            if e.kind == StoreErrorKind::NotFound {
                Ok(None)
            } else {
                Err(e)
            }
        },
    }
}

impl Engine {
    /// Whether the state is one that the engine reaches.
    pub open spec fn well_formed(&self) -> bool {
        well_formed(self.deep_view())
    }

    /// An engine that has asked nothing yet.
    pub fn new(config: CopyConfig) -> (engine: Engine)
        ensures
            engine.deep_view() == lifecycle::initial(config.deep_view()),
            engine.well_formed(),
    {
        let engine = Engine {
            config,
            phase: Phase::Idle,
            source: None,
            destination: None,
            source_tags: None,
            source_region: None,
            same_region: false,
            part_size: S3_MIN_PART_SIZE,
            target_concurrency: 1,
            max_concurrency: 1,
            probes_left: 0,
            probes_done: 0,
            probe_rate_sum: 0,
            upload: UploadState::Unopened,
            upload_id: String::new(),
            next_part_number: 1,
            next_start_byte: 0,
            window_first: 1,
            window_count: 0,
            window_bytes: 0,
            completed: Vec::new(),
            failure: None,
        };
        assert(engine.completed.deep_view() =~= Seq::empty());
        engine
    }

    /// Whether the completed parts carry the numbers 1, 2, ... in this order.
    fn has_ordered_parts(&self) -> (ordered: bool)
        ensures
            ordered == lifecycle::numbered_from_one(self.completed.deep_view()),
    {
        let n: usize = self.completed.len();
        let mut i: usize = 0;
        while i < n
            invariant
                i <= n,
                n == self.completed@.len(),
                forall|k: int| 0 <= k < i ==> (#[trigger] self.completed.deep_view()[k]).0 == k + 1,
            decreases n - i,
        {
            if self.completed[i].part_number as i128 != i as i128 + 1 {
                assert(self.completed.deep_view()[i as int].0 != i + 1);
                return false;
            }
            i = i + 1;
        }
        true
    }

    /// Tests at run time whether the state is one that the engine reaches.
    /// An engine that is only moved by `step` always is.
    pub fn is_well_formed(&self) -> (ok: bool)
        ensures
            ok == self.well_formed(),
    {
        let done: u128 = self.completed.len() as u128;
        let in_flight: u128 = self.window_count as u128;
        let floor: usize = if self.max_concurrency < lifecycle::MIN_AUTO_CONCURRENCY {
            self.max_concurrency
        } else {
            lifecycle::MIN_AUTO_CONCURRENCY
        };
        let counters: bool = 1 <= self.next_part_number && self.next_part_number <= 10_001 && 0
            <= self.next_start_byte && self.window_bytes <= i64::MAX as u64 && done + in_flight
            + 1 == self.next_part_number as u128 && self.window_first >= 1
            && self.window_first as u128 == done + 1 && self.has_ordered_parts()
            && S3_MIN_PART_SIZE <= self.part_size && self.part_size
            <= crate::limits::S3_MAX_PART_SIZE && 1 <= self.max_concurrency && floor
            <= self.target_concurrency && self.target_concurrency <= self.max_concurrency;
        if !counters {
            return false;
        }
        let open: bool = self.upload == UploadState::Open;
        let unopened: bool = self.upload == UploadState::Unopened;
        let completed: bool = self.upload == UploadState::Completed;
        match self.phase {
            Phase::Probing | Phase::WindowLoop => {
                open && self.window_count >= 1 && match self.source_size() {
                    Some(size) => self.next_start_byte <= size,
                    None => false,
                }
            },
            Phase::AllPartsReady => {
                open && !self.config.dry_run && self.completed.len() >= 1 && self.window_count == 0
                    && match self.source_size() {
                    Some(size) => self.next_start_byte == size,
                    None => false,
                }
            },
            Phase::Aborting => open && !self.config.dry_run && self.failure.is_some(),
            Phase::VerifySource | Phase::VerifyDestination => completed,
            Phase::Finished => !open,
            _ => unopened && self.window_count == 0 && self.next_start_byte == 0
                && self.completed.len() == 0,
        }
    }

    /// What is still to be copied, the window in flight included.
    pub fn outlook(&self) -> (ahead: Outlook)
        requires
            self.well_formed(),
        ensures
            ahead == outlook_of(self.deep_view()),
    {
        let size: i64 = match self.source_size() {
            Some(n) => n,
            None => 0,
        };
        let unscheduled: i64 = if size > self.next_start_byte {
            size - self.next_start_byte
        } else {
            0
        };
        let later: i64 = ceil_div_i64(unscheduled, self.part_size);
        Outlook {
            parts: self.window_count as u64 + later as u64,
            bytes: self.window_bytes + unscheduled as u64,
        }
    }

    /// Whether the copy has ended.
    pub fn is_finished(&self) -> (finished: bool)
        ensures
            finished == (self.phase == Phase::Finished),
    {
        self.phase == Phase::Finished
    }

    fn finish(&mut self, outcome: Result<(), CopyError>) -> (action: Action)
        ensures
            (final(self).deep_view(), action.deep_view()) == lifecycle::finish(
                old(self).deep_view(),
                outcome_view(outcome),
            ),
    {
        self.phase = Phase::Finished;
        Action::Finish(outcome)
    }

    fn fail(&mut self, error: CopyError) -> (action: Action)
        ensures
            (final(self).deep_view(), action.deep_view()) == lifecycle::fail(
                old(self).deep_view(),
                error.deep_view(),
            ),
    {
        if self.upload == UploadState::Open {
            if self.config.dry_run {
                self.upload = UploadState::Aborted;
                self.finish(Err(error))
            } else {
                self.phase = Phase::Aborting;
                self.failure = Some(error);
                Action::AbortMultipartUpload { upload_id: copy_text(&self.upload_id) }
            }
        } else {
            self.finish(Err(error))
        }
    }

    fn begin_verification(&mut self) -> (action: Action)
        ensures
            (final(self).deep_view(), action.deep_view()) == lifecycle::begin_verification(
                old(self).deep_view(),
            ),
    {
        if !self.config.dry_run && !matches!(self.config.verify, crate::auto::VerifyIntegrity::Off) {
            self.phase = Phase::VerifySource;
            Action::HeadSource
        } else {
            self.finish(Ok(()))
        }
    }

    fn finish_upload(&mut self) -> (action: Action)
        ensures
            (final(self).deep_view(), action.deep_view()) == lifecycle::finish_upload(
                old(self).deep_view(),
            ),
    {
        if self.completed.len() == 0 {
            self.fail(CopyError::UnexpectedEvent)
        } else if self.config.dry_run {
            self.upload = UploadState::Completed;
            self.finish(Ok(()))
        } else {
            self.phase = Phase::AllPartsReady;
            Action::CompleteMultipartUpload {
                upload_id: copy_text(&self.upload_id),
                parts: duplicate_parts(&self.completed),
            }
        }
    }

    /// The size of the source, once its head is known.
    fn source_size(&self) -> (size: Option<i64>)
        ensures
            match size {
                Some(n) => self.deep_view().source is Some && self.deep_view().source->0.size == n,
                None => self.deep_view().source is None,
            },
    {
        match &self.source {
            Some(head) => Some(head.size),
            None => None,
        }
    }

    fn next_parts(&mut self) -> (action: Action)
        requires
            counters_ok(old(self).deep_view()),
        ensures
            (final(self).deep_view(), action.deep_view()) == lifecycle::next_parts(
                old(self).deep_view(),
            ),
    {
        let size: i64 = match self.source_size() {
            Some(n) => n,
            None => {
                return self.fail(CopyError::UnexpectedEvent);
            },
        };
        if self.next_start_byte >= size {
            return self.finish_upload();
        }
        if self.next_part_number > 10_000 {
            return self.fail(CopyError::PartLimitExceeded);
        }
        let probing: bool = self.probes_left > 0;
        let width: usize = if probing { 1 } else { self.target_concurrency };
        let parts = plan_window(
            self.next_part_number,
            self.next_start_byte,
            size,
            self.part_size,
            width,
        );
        if parts.len() == 0 {
            return self.fail(CopyError::UnexpectedEvent);
        }
        let end: i64 = parts[parts.len() - 1].last_byte + 1;
        self.phase = if probing { Phase::Probing } else { Phase::WindowLoop };
        self.window_first = self.next_part_number;
        self.window_count = parts.len();
        self.window_bytes = (end - self.next_start_byte) as u64;
        self.next_part_number = self.next_part_number + parts.len() as i32;
        self.next_start_byte = end;
        Action::CopyParts {
            upload_id: copy_text(&self.upload_id),
            batch: parts,
            simulated: self.config.dry_run,
        }
    }

    /// Sets the parameters of the multipart copy of an object of `size` bytes.
    fn plan(&mut self, size: i64)
        requires
            size > 0,
        ensures
            final(self).deep_view() == lifecycle::planned(old(self).deep_view(), size as int),
            counters_ok(final(self).deep_view()),
    {
        proof {
            lifecycle::lemma_planned_counters(self.deep_view(), size as int);
        }
        self.probes_done = 0;
        self.probe_rate_sum = 0;
        self.next_part_number = 1;
        self.next_start_byte = 0;
        self.window_first = 1;
        self.window_count = 0;
        self.window_bytes = 0;
        self.completed = Vec::new();
        assert(self.completed.deep_view() =~= Seq::empty());
        if self.config.auto_enabled {
            let plan = build_auto_plan(
                self.config.auto_profile,
                size,
                self.same_region,
                self.config.concurrency_cap,
            );
            let part_size = clamp_part_size_for_limit(size, plan.initial_part_size, S3_MAX_PARTS);
            let needed: i64 = ceil_div_i64(size, part_size);
            self.part_size = part_size;
            self.target_concurrency = plan.initial_concurrency;
            self.max_concurrency = plan.max_concurrency;
            self.probes_left = if (plan.probe_parts as i64) <= needed {
                plan.probe_parts
            } else {
                needed as usize
            };
        } else {
            let cap: usize = if self.config.concurrency_cap < 1 {
                1
            } else {
                self.config.concurrency_cap
            };
            self.part_size = clamp_part_size_for_limit(
                size,
                self.config.manual_part_size,
                S3_MAX_PARTS,
            );
            self.target_concurrency = cap;
            self.max_concurrency = cap;
            self.probes_left = 0;
        }
    }

    fn begin_upload(&mut self) -> (action: Action)
        ensures
            (final(self).deep_view(), action.deep_view()) == lifecycle::begin_upload(
                old(self).deep_view(),
            ),
    {
        let size: i64 = match self.source_size() {
            Some(n) => n,
            None => {
                return self.fail(CopyError::UnexpectedEvent);
            },
        };
        if size <= 0 {
            return self.fail(CopyError::EmptySource);
        }
        if self.config.dry_run {
            self.plan(size);
            self.upload = UploadState::Open;
            self.upload_id = text_from("DRY-RUN-UPLOAD-ID");
            self.next_parts()
        } else {
            let request = match &self.source {
                Some(source) => build_copy_request(&self.config, source, &self.source_tags),
                None => {
                    return self.fail(CopyError::UnexpectedEvent);
                },
            };
            self.plan(size);
            self.phase = Phase::Planning;
            Action::CreateMultipartUpload(request)
        }
    }

    fn with_copy_tags(&mut self) -> (action: Action)
        ensures
            (final(self).deep_view(), action.deep_view()) == lifecycle::with_copy_tags(
                old(self).deep_view(),
            ),
    {
        let size: i64 = match self.source_size() {
            Some(n) => n,
            None => {
                return self.fail(CopyError::UnexpectedEvent);
            },
        };
        if self.config.auto_enabled && size < crate::limits::SINGLE_COPY_CEILING {
            if self.config.dry_run {
                self.finish(Ok(()))
            } else {
                let request = match &self.source {
                    Some(source) => build_copy_request(&self.config, source, &self.source_tags),
                    None => {
                        return self.fail(CopyError::UnexpectedEvent);
                    },
                };
                self.phase = Phase::InstantCopy;
                Action::CopyObject(request)
            }
        } else if self.config.auto_enabled {
            self.phase = Phase::SourceRegion;
            Action::GetSourceRegion
        } else {
            self.begin_upload()
        }
    }

    fn begin_copy(&mut self) -> (action: Action)
        ensures
            (final(self).deep_view(), action.deep_view()) == lifecycle::begin_copy(
                old(self).deep_view(),
            ),
    {
        let planned: Option<Result<Strategy, CopyError>> = match &self.source {
            Some(source) => Some(plan_full_copy(&self.config, source)),
            None => None,
        };
        match planned {
            None => self.fail(CopyError::UnexpectedEvent),
            Some(Err(error)) => self.fail(error),
            Some(Ok(_)) => {
                if self.config.skip_tags {
                    self.source_tags = None;
                    self.with_copy_tags()
                } else {
                    self.phase = Phase::CopyTags;
                    Action::GetSourceTags
                }
            },
        }
    }

    fn reconcile_step(&mut self, destination_tags: Option<Vec<Tag>>) -> (action: Action)
        ensures
            (final(self).deep_view(), action.deep_view()) == lifecycle::reconcile_step(
                old(self).deep_view(),
                optional_tags(destination_tags),
            ),
    {
        let decision: Option<Option<Strategy>> = match (&self.source, &self.destination) {
            (Some(source), Some(destination)) => Some(
                reconcile(&self.config, source, destination, &self.source_tags, &destination_tags),
            ),
            _ => None,
        };
        match decision {
            None => self.fail(CopyError::UnexpectedEvent),
            Some(Some(Strategy::Skip)) => self.finish(Ok(())),
            Some(Some(Strategy::PropertySync)) => {
                if self.config.dry_run {
                    self.finish(Ok(()))
                } else {
                    let request = match &self.source {
                        Some(source) => build_sync_request(
                            &self.config,
                            source,
                            &self.source_tags,
                            &destination_tags,
                        ),
                        None => {
                            return self.fail(CopyError::UnexpectedEvent);
                        },
                    };
                    self.phase = Phase::PropertySync;
                    Action::CopyObject(request)
                }
            },
            Some(Some(Strategy::TagSync)) => {
                let tags: Option<Vec<Tag>> = match &self.source_tags {
                    Some(t) => Some(copy_tags(t)),
                    None => None,
                };
                match tags {
                    Some(t) => {
                        if self.config.dry_run {
                            self.finish(Ok(()))
                        } else {
                            self.phase = Phase::TagSync;
                            Action::PutObjectTagging(t)
                        }
                    },
                    None => self.begin_copy(),
                }
            },
            _ => self.begin_copy(),
        }
    }

    /// Tunes the part size for the bytes that remain after the probe.
    fn retune(&mut self, size: i64)
        requires
            counters_ok(old(self).deep_view()),
        ensures
            final(self).deep_view() == lifecycle::retuned(old(self).deep_view(), size as int),
            counters_ok(final(self).deep_view()),
    {
        proof {
            lifecycle::lemma_retuned_counters(self.deep_view(), size as int);
        }
        if self.probes_done > 0 && size > self.next_start_byte {
            let remaining: i64 = size - self.next_start_byte;
            let measured: u64 = self.probe_rate_sum / (self.probes_done as u64);
            let tuned = tune_part_size_from_probe(
                self.config.auto_profile,
                remaining,
                self.part_size,
                measured,
            );
            let raised = optimize_part_size_for_cost(
                remaining,
                tuned,
                self.config.auto_profile,
                self.same_region,
            );
            let used: i64 = (self.next_part_number - 1) as i64;
            let slots: i64 = if S3_MAX_PARTS - used < 1 {
                1
            } else {
                S3_MAX_PARTS - used
            };
            self.part_size = clamp_part_size_for_limit(remaining, raised, slots);
        }
    }

    /// Takes over the parts of the window in flight, in ascending order.
    fn take_window_parts(&mut self, ordered: Vec<CompletedPart>, Ghost(report): Ghost<
        crate::store::WindowReportView,
    >)
        requires
            counters_ok(old(self).deep_view()),
            crate::parts::answers_window(
                report.parts,
                old(self).window_first as int,
                old(self).window_count as int,
            ),
            ordered.deep_view() == crate::parts::arranged(
                report.parts,
                old(self).window_first as int,
                old(self).window_count as int,
            ),
        ensures
            final(self).deep_view() == lifecycle::with_window_parts(old(self).deep_view(), report),
            counters_ok(final(self).deep_view()),
    {
        proof {
            lifecycle::lemma_taken_counters(self.deep_view(), report);
        }
        let ghost before = self.completed.deep_view();
        let ghost added = ordered.deep_view();
        let mut ordered = ordered;
        self.completed.append(&mut ordered);
        assert(self.completed.deep_view() =~= before + added);
        self.window_first = self.window_first + self.window_count as i32;
        self.window_count = 0;
    }

    fn after_probe(&mut self, report: WindowReport) -> (action: Action)
        requires
            counters_ok(old(self).deep_view()),
        ensures
            (final(self).deep_view(), action.deep_view()) == lifecycle::after_probe(
                old(self).deep_view(),
                report.deep_view(),
            ),
    {
        let size: i64 = match self.source_size() {
            Some(n) => n,
            None => {
                return self.fail(CopyError::UnexpectedEvent);
            },
        };
        let ordered = match arrange_parts(&report.parts, self.window_first, self.window_count) {
            Some(ordered) => ordered,
            None => {
                return self.fail(CopyError::UnexpectedEvent);
            },
        };
        let rate: u64 = transfer_rate(self.window_bytes, report.part_nanos_total);
        self.take_window_parts(ordered, Ghost(report.deep_view()));
        self.probes_left = if self.probes_left > 0 {
            self.probes_left - 1
        } else {
            0
        };
        self.probes_done = if self.probes_done < usize::MAX {
            self.probes_done + 1
        } else {
            usize::MAX
        };
        self.probe_rate_sum = if u64::MAX - self.probe_rate_sum < rate {
            u64::MAX
        } else {
            self.probe_rate_sum + rate
        };
        if self.probes_left == 0 {
            self.retune(size);
        }
        self.next_parts()
    }

    fn after_window(&mut self, report: WindowReport) -> (action: Action)
        requires
            counters_ok(old(self).deep_view()),
        ensures
            (final(self).deep_view(), action.deep_view()) == lifecycle::after_window(
                old(self).deep_view(),
                report.deep_view(),
            ),
    {
        let ordered = match arrange_parts(&report.parts, self.window_first, self.window_count) {
            Some(ordered) => ordered,
            None => {
                return self.fail(CopyError::UnexpectedEvent);
            },
        };
        let metrics = window_metrics(
            self.window_bytes,
            report.wall_nanos,
            report.part_nanos_total,
            self.window_count,
            report.had_retryable_pressure,
        );
        self.take_window_parts(ordered, Ghost(report.deep_view()));
        if self.config.auto_enabled {
            let floor: usize = if self.max_concurrency < lifecycle::MIN_AUTO_CONCURRENCY {
                self.max_concurrency
            } else {
                lifecycle::MIN_AUTO_CONCURRENCY
            };
            self.target_concurrency = adapt_concurrency(
                self.config.auto_profile,
                self.target_concurrency,
                floor,
                self.max_concurrency,
                metrics,
            );
        }
        self.next_parts()
    }

    fn on_idle(&mut self, event: Event) -> (action: Action)
        ensures
            (final(self).deep_view(), action.deep_view()) == lifecycle::on_idle(
                old(self).deep_view(),
                event.deep_view(),
            ),
    {
        match event {
            Event::Start => {
                self.phase = Phase::SourceHead;
                Action::HeadSource
            },
            _ => self.fail(CopyError::UnexpectedEvent),
        }
    }

    fn on_source_head(&mut self, event: Event) -> (action: Action)
        ensures
            (final(self).deep_view(), action.deep_view()) == lifecycle::on_source_head(
                old(self).deep_view(),
                event.deep_view(),
            ),
    {
        match event {
            Event::Head(Ok(Some(head))) => {
                self.source = Some(head);
                if self.config.force_copy {
                    self.begin_copy()
                } else {
                    self.phase = Phase::DestinationHead;
                    Action::HeadDestination
                }
            },
            Event::Head(Ok(None)) => self.fail(CopyError::SourceNotFound),
            Event::Head(Err(e)) => {
                if e.kind == StoreErrorKind::NotFound {
                    self.fail(CopyError::SourceNotFound)
                } else {
                    self.fail(CopyError::SourceHeadFailed(e))
                }
            },
            _ => self.fail(CopyError::UnexpectedEvent),
        }
    }

    fn on_destination_head(&mut self, event: Event) -> (action: Action)
        ensures
            (final(self).deep_view(), action.deep_view()) == lifecycle::on_destination_head(
                old(self).deep_view(),
                event.deep_view(),
            ),
    {
        match event {
            Event::Head(Ok(Some(head))) => {
                let matches: Option<bool> = match &self.source {
                    Some(source) => Some(has_matching_data(source, &head)),
                    None => None,
                };
                match matches {
                    None => self.fail(CopyError::UnexpectedEvent),
                    Some(true) => {
                        self.destination = Some(head);
                        self.source_tags = None;
                        if self.config.skip_tags {
                            self.reconcile_step(None)
                        } else {
                            self.phase = Phase::PrecheckSourceTags;
                            Action::GetSourceTags
                        }
                    },
                    Some(false) => self.begin_copy(),
                }
            },
            Event::Head(Ok(None)) => self.begin_copy(),
            Event::Head(Err(e)) => {
                if e.kind == StoreErrorKind::NotFound {
                    self.begin_copy()
                } else {
                    self.fail(CopyError::DestinationHeadFailed(e))
                }
            },
            _ => self.fail(CopyError::UnexpectedEvent),
        }
    }

    fn on_precheck_source_tags(&mut self, event: Event) -> (action: Action)
        ensures
            (final(self).deep_view(), action.deep_view()) == lifecycle::on_precheck_source_tags(
                old(self).deep_view(),
                event.deep_view(),
            ),
    {
        match event {
            Event::Tags(reply) => match tags_of(reply) {
                Ok(tags) => {
                    self.source_tags = tags;
                    self.phase = Phase::PrecheckDestinationTags;
                    Action::GetDestinationTags
                },
                Err(e) => self.fail(CopyError::TagFetchFailed(e)),
            },
            _ => self.fail(CopyError::UnexpectedEvent),
        }
    }

    fn on_precheck_destination_tags(&mut self, event: Event) -> (action: Action)
        ensures
            (final(self).deep_view(), action.deep_view()) == lifecycle::on_precheck_destination_tags(
                old(self).deep_view(),
                event.deep_view(),
            ),
    {
        match event {
            Event::Tags(reply) => match tags_of(reply) {
                Ok(tags) => self.reconcile_step(tags),
                Err(e) => self.fail(CopyError::TagFetchFailed(e)),
            },
            _ => self.fail(CopyError::UnexpectedEvent),
        }
    }

    fn on_copy_written(&mut self, event: Event) -> (action: Action)
        ensures
            (final(self).deep_view(), action.deep_view()) == lifecycle::on_copy_written(
                old(self).deep_view(),
                event.deep_view(),
            ),
    {
        match event {
            Event::Written(Ok(())) => self.finish(Ok(())),
            Event::Written(Err(e)) => self.fail(CopyError::CopyObjectFailed(e)),
            _ => self.fail(CopyError::UnexpectedEvent),
        }
    }

    fn on_tags_written(&mut self, event: Event) -> (action: Action)
        ensures
            (final(self).deep_view(), action.deep_view()) == lifecycle::on_tags_written(
                old(self).deep_view(),
                event.deep_view(),
            ),
    {
        match event {
            Event::Written(Ok(())) => self.finish(Ok(())),
            Event::Written(Err(e)) => self.fail(CopyError::TagSyncFailed(e)),
            _ => self.fail(CopyError::UnexpectedEvent),
        }
    }

    fn on_copy_tags(&mut self, event: Event) -> (action: Action)
        ensures
            (final(self).deep_view(), action.deep_view()) == lifecycle::on_copy_tags(
                old(self).deep_view(),
                event.deep_view(),
            ),
    {
        match event {
            Event::Tags(reply) => match tags_of(reply) {
                Ok(tags) => {
                    self.source_tags = tags;
                    self.with_copy_tags()
                },
                Err(e) => self.fail(CopyError::TagFetchFailed(e)),
            },
            _ => self.fail(CopyError::UnexpectedEvent),
        }
    }

    fn on_source_region(&mut self, event: Event) -> (action: Action)
        ensures
            (final(self).deep_view(), action.deep_view()) == lifecycle::on_source_region(
                old(self).deep_view(),
                event.deep_view(),
            ),
    {
        match event {
            Event::Region(reply) => {
                self.source_region = match reply {
                    Ok(constraint) => Some(bucket_region(&constraint)),
                    Err(_) => None,
                };
                self.phase = Phase::DestinationRegion;
                Action::GetDestinationRegion
            },
            _ => self.fail(CopyError::UnexpectedEvent),
        }
    }

    fn on_destination_region(&mut self, event: Event) -> (action: Action)
        ensures
            (final(self).deep_view(), action.deep_view()) == lifecycle::on_destination_region(
                old(self).deep_view(),
                event.deep_view(),
            ),
    {
        match event {
            Event::Region(reply) => {
                self.same_region = match reply {
                    Ok(constraint) => {
                        let region = bucket_region(&constraint);
                        match &self.source_region {
                            Some(source_region) => same_text(
                                source_region.as_str(),
                                region.as_str(),
                            ),
                            None => false,
                        }
                    },
                    Err(_) => false,
                };
                self.begin_upload()
            },
            _ => self.fail(CopyError::UnexpectedEvent),
        }
    }

    fn on_planning(&mut self, event: Event) -> (action: Action)
        requires
            counters_ok(old(self).deep_view()),
        ensures
            (final(self).deep_view(), action.deep_view()) == lifecycle::on_planning(
                old(self).deep_view(),
                event.deep_view(),
            ),
    {
        match event {
            Event::UploadCreated(Ok(id)) => {
                self.upload = UploadState::Open;
                self.upload_id = id;
                self.next_parts()
            },
            Event::UploadCreated(Err(e)) => self.fail(
                CopyError::UploadLifecycleFailed(UploadStage::Initiate, e),
            ),
            _ => self.fail(CopyError::UnexpectedEvent),
        }
    }

    fn on_probing(&mut self, event: Event) -> (action: Action)
        requires
            counters_ok(old(self).deep_view()),
        ensures
            (final(self).deep_view(), action.deep_view()) == lifecycle::on_probing(
                old(self).deep_view(),
                event.deep_view(),
            ),
    {
        match event {
            Event::PartsCopied(Ok(report)) => self.after_probe(report),
            Event::PartsCopied(Err(e)) => self.fail(
                CopyError::UploadLifecycleFailed(UploadStage::Part, e),
            ),
            _ => self.fail(CopyError::UnexpectedEvent),
        }
    }

    fn on_window(&mut self, event: Event) -> (action: Action)
        requires
            counters_ok(old(self).deep_view()),
        ensures
            (final(self).deep_view(), action.deep_view()) == lifecycle::on_window(
                old(self).deep_view(),
                event.deep_view(),
            ),
    {
        match event {
            Event::PartsCopied(Ok(report)) => self.after_window(report),
            Event::PartsCopied(Err(e)) => self.fail(
                CopyError::UploadLifecycleFailed(UploadStage::Part, e),
            ),
            _ => self.fail(CopyError::UnexpectedEvent),
        }
    }

    fn on_all_parts_ready(&mut self, event: Event) -> (action: Action)
        ensures
            (final(self).deep_view(), action.deep_view()) == lifecycle::on_all_parts_ready(
                old(self).deep_view(),
                event.deep_view(),
            ),
    {
        match event {
            Event::Written(Ok(())) => {
                self.upload = UploadState::Completed;
                self.begin_verification()
            },
            Event::Written(Err(e)) => self.fail(
                CopyError::UploadLifecycleFailed(UploadStage::Complete, e),
            ),
            _ => self.fail(CopyError::UnexpectedEvent),
        }
    }

    fn on_aborting(&mut self, event: Event) -> (action: Action)
        ensures
            (final(self).deep_view(), action.deep_view()) == lifecycle::on_aborting(
                old(self).deep_view(),
                event.deep_view(),
            ),
    {
        // Best effort: whatever the abort's reply is, the first error stands.
        let error = match self.failure.take() {
            Some(error) => error,
            None => CopyError::UnexpectedEvent,
        };
        self.upload = UploadState::Aborted;
        self.finish(Err(error))
    }

    fn on_verify_source(&mut self, event: Event) -> (action: Action)
        ensures
            (final(self).deep_view(), action.deep_view()) == lifecycle::on_verify_source(
                old(self).deep_view(),
                event.deep_view(),
            ),
    {
        match event {
            Event::Head(Ok(Some(head))) => {
                self.source = Some(head);
                self.phase = Phase::VerifyDestination;
                Action::HeadDestination
            },
            Event::Head(_) => self.fail(
                CopyError::VerificationFailed(VerificationFailure::HeadUnavailable),
            ),
            _ => self.fail(CopyError::UnexpectedEvent),
        }
    }

    fn on_verify_destination(&mut self, event: Event) -> (action: Action)
        ensures
            (final(self).deep_view(), action.deep_view()) == lifecycle::on_verify_destination(
                old(self).deep_view(),
                event.deep_view(),
            ),
    {
        match event {
            Event::Head(Ok(Some(head))) => {
                let verdict: Option<Result<(), VerificationFailure>> = match &self.source {
                    Some(source) => Some(verify_copy(self.config.verify, source, &head)),
                    None => None,
                };
                match verdict {
                    None => self.fail(CopyError::UnexpectedEvent),
                    Some(Ok(())) => self.finish(Ok(())),
                    Some(Err(failure)) => self.fail(CopyError::VerificationFailed(failure)),
                }
            },
            Event::Head(_) => self.fail(
                CopyError::VerificationFailed(VerificationFailure::HeadUnavailable),
            ),
            _ => self.fail(CopyError::UnexpectedEvent),
        }
    }

    /// Takes the store's reply to the last request and gives the next
    /// request. The first call takes `Event::Start`; after `Action::Finish`
    /// the copy is over.
    pub fn step(&mut self, event: Event) -> (action: Action)
        requires
            old(self).well_formed(),
        ensures
            (final(self).deep_view(), action.deep_view()) == lifecycle::step(
                old(self).deep_view(),
                event.deep_view(),
            ),
            final(self).well_formed(),
    {
        proof {
            reveal(lifecycle::step);
            lifecycle::lemma_step_well_formed(self.deep_view(), event.deep_view());
        }
        match self.phase {
            Phase::Idle => self.on_idle(event),
            Phase::SourceHead => self.on_source_head(event),
            Phase::DestinationHead => self.on_destination_head(event),
            Phase::PrecheckSourceTags => self.on_precheck_source_tags(event),
            Phase::PrecheckDestinationTags => self.on_precheck_destination_tags(event),
            Phase::PropertySync => self.on_copy_written(event),
            Phase::TagSync => self.on_tags_written(event),
            Phase::CopyTags => self.on_copy_tags(event),
            Phase::InstantCopy => self.on_copy_written(event),
            Phase::SourceRegion => self.on_source_region(event),
            Phase::DestinationRegion => self.on_destination_region(event),
            Phase::Planning => self.on_planning(event),
            Phase::Probing => self.on_probing(event),
            Phase::WindowLoop => self.on_window(event),
            Phase::AllPartsReady => self.on_all_parts_ready(event),
            Phase::Aborting => self.on_aborting(event),
            Phase::VerifySource => self.on_verify_source(event),
            Phase::VerifyDestination => self.on_verify_destination(event),
            Phase::Finished => self.finish(Err(CopyError::UnexpectedEvent)),
        }
    }
}

} // verus!
