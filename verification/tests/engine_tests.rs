use s3_largecopy::args::Args;
use s3_largecopy::auto::{AutoProfile, VerifyIntegrity};
use s3_largecopy::config::CopyConfig;
use s3_largecopy::engine::{Engine, Outlook};
use s3_largecopy::errors::{
    CopyError, StoreError, StoreErrorKind, UploadStage, VerificationFailure,
};
use s3_largecopy::headers::WriteRequest;
use s3_largecopy::lifecycle::{Phase, UploadState};
use s3_largecopy::object::{MetadataEntry, ObjectHead, Tag};
use s3_largecopy::parts::{CompletedPart, PartSpec};
use s3_largecopy::store::{Action, Event, WindowReport};

const MIB: i64 = 1024 * 1024;
const GIB: i64 = 1024 * MIB;
const TIB: i64 = 1024 * GIB;

fn args() -> Args {
    Args {
        source_bucket: "src-bucket".to_string(),
        source_key: "src-key".to_string(),
        dest_bucket: "dst-bucket".to_string(),
        dest_key: "dst-key".to_string(),
        region: None,
        dest_region: None,
        profile: None,
        part_size: None,
        concurrency: None,
        storage_class: None,
        full_control: false,
        auto: false,
        auto_profile: AutoProfile::Balanced,
        no_metadata: false,
        no_tags: false,
        no_storage_class: false,
        no_acl: false,
        quiet: true,
        dry_run: false,
        force_copy: false,
        verify_integrity: VerifyIntegrity::Etag,
        checksum_algorithm: None,
        sse: None,
        sse_kms_key_id: None,
        estimate: false,
    }
}

fn config_of(change: fn(&mut Args)) -> CopyConfig {
    let mut a = args();
    change(&mut a);
    CopyConfig::from_args(&a).expect("the options are within the limits")
}

fn head(size: i64, etag: &str) -> ObjectHead {
    ObjectHead::bare(size, etag.to_string())
}

fn tag(key: &str, value: &str) -> Tag {
    Tag { key: key.to_string(), value: value.to_string() }
}

fn failure(kind: StoreErrorKind, message: &str) -> StoreError {
    StoreError { kind, message: message.to_string() }
}

/// A store that lives in memory and keeps a list of what it was asked.
struct FakeStore {
    source: Option<ObjectHead>,
    destination: Option<ObjectHead>,
    source_tags: Option<Vec<Tag>>,
    destination_tags: Option<Vec<Tag>>,
    source_region: Result<Option<String>, StoreError>,
    destination_region: Result<Option<String>, StoreError>,
    failing_part: Option<i32>,
    failing_create: bool,
    failing_complete: bool,
    failing_abort: bool,
    failing_copy: bool,
    reversed_windows: bool,
    nanos_per_part: u64,
    asked: Vec<String>,
    windows: Vec<Vec<PartSpec>>,
    simulated_windows: usize,
    copies: Vec<WriteRequest>,
    created: Vec<WriteRequest>,
    tagged: Vec<Vec<Tag>>,
    submitted: Option<Vec<CompletedPart>>,
    aborted: Vec<String>,
    open_upload: Option<WriteRequest>,
}

impl FakeStore {
    fn holding(source: ObjectHead) -> FakeStore {
        FakeStore {
            source: Some(source),
            destination: None,
            source_tags: Some(Vec::new()),
            destination_tags: None,
            source_region: Ok(None),
            destination_region: Ok(None),
            failing_part: None,
            failing_create: false,
            failing_complete: false,
            failing_abort: false,
            failing_copy: false,
            reversed_windows: false,
            nanos_per_part: 10_000_000_000,
            asked: Vec::new(),
            windows: Vec::new(),
            simulated_windows: 0,
            copies: Vec::new(),
            created: Vec::new(),
            tagged: Vec::new(),
            submitted: None,
            aborted: Vec::new(),
            open_upload: None,
        }
    }

    fn published(&self, request: &WriteRequest, etag: &str) -> ObjectHead {
        let source = self.source.clone().expect("a write needs a source");
        let mut object = ObjectHead::bare(source.size, etag.to_string());
        object.headers = request.headers.standard.clone();
        object.storage_class = request.headers.storage_class.clone();
        object.metadata = request.headers.metadata.clone();
        object.metadata.push(MetadataEntry {
            key: "source-etag".to_string(),
            value: request.headers.source_etag.clone(),
        });
        object
    }

    fn answer(&mut self, action: Action) -> Option<Event> {
        match action {
            Action::HeadSource => {
                self.asked.push("head-source".to_string());
                Some(Event::Head(Ok(self.source.clone())))
            }
            Action::HeadDestination => {
                self.asked.push("head-destination".to_string());
                Some(Event::Head(Ok(self.destination.clone())))
            }
            Action::GetSourceTags => {
                self.asked.push("get-source-tags".to_string());
                Some(Event::Tags(Ok(self.source_tags.clone())))
            }
            Action::GetDestinationTags => {
                self.asked.push("get-destination-tags".to_string());
                Some(Event::Tags(Ok(self.destination_tags.clone())))
            }
            Action::GetSourceRegion => {
                self.asked.push("get-source-region".to_string());
                Some(Event::Region(self.source_region.clone()))
            }
            Action::GetDestinationRegion => {
                self.asked.push("get-destination-region".to_string());
                Some(Event::Region(self.destination_region.clone()))
            }
            Action::CopyObject(request) => {
                self.asked.push("copy-object".to_string());
                if self.failing_copy {
                    return Some(Event::Written(Err(failure(StoreErrorKind::AccessDenied, "denied"))));
                }
                self.destination = Some(self.published(&request, "\"copied\""));
                if request.tagging.is_some() {
                    self.destination_tags = self.source_tags.clone();
                }
                self.copies.push(request);
                Some(Event::Written(Ok(())))
            }
            Action::PutObjectTagging(tags) => {
                self.asked.push("put-object-tagging".to_string());
                self.destination_tags = Some(tags.clone());
                self.tagged.push(tags);
                Some(Event::Written(Ok(())))
            }
            Action::CreateMultipartUpload(request) => {
                self.asked.push("create-multipart-upload".to_string());
                if self.failing_create {
                    return Some(Event::UploadCreated(Err(failure(
                        StoreErrorKind::Transient,
                        "try later",
                    ))));
                }
                self.created.push(request.clone());
                self.open_upload = Some(request);
                Some(Event::UploadCreated(Ok("upload-1".to_string())))
            }
            Action::CopyParts { upload_id, batch, simulated } => {
                self.asked.push("copy-parts".to_string());
                if simulated {
                    self.simulated_windows += 1;
                    assert_eq!(upload_id, "DRY-RUN-UPLOAD-ID");
                } else {
                    assert_eq!(upload_id, "upload-1");
                }
                let mut parts = Vec::new();
                for spec in &batch {
                    if self.failing_part == Some(spec.part_number) {
                        self.windows.push(batch.clone());
                        return Some(Event::PartsCopied(Err(failure(
                            StoreErrorKind::Other,
                            "part refused",
                        ))));
                    }
                    parts.push(if simulated {
                        CompletedPart::dry_run(spec.part_number)
                    } else {
                        CompletedPart {
                            part_number: spec.part_number,
                            etag: format!("etag-{}", spec.part_number),
                        }
                    });
                }
                if self.reversed_windows {
                    parts.reverse();
                }
                let report = WindowReport {
                    parts,
                    wall_nanos: self.nanos_per_part,
                    part_nanos_total: self.nanos_per_part * batch.len() as u64,
                    had_retryable_pressure: false,
                };
                self.windows.push(batch);
                Some(Event::PartsCopied(Ok(report)))
            }
            Action::CompleteMultipartUpload { upload_id, parts } => {
                self.asked.push("complete-multipart-upload".to_string());
                assert_eq!(upload_id, "upload-1");
                self.submitted = Some(parts);
                if self.failing_complete {
                    return Some(Event::Written(Err(failure(StoreErrorKind::Other, "no"))));
                }
                let request = self.open_upload.take().expect("an upload is open");
                self.destination = Some(self.published(&request, "\"multipart-2\""));
                Some(Event::Written(Ok(())))
            }
            Action::AbortMultipartUpload { upload_id } => {
                self.asked.push("abort-multipart-upload".to_string());
                self.aborted.push(upload_id);
                self.open_upload = None;
                if self.failing_abort {
                    Some(Event::Written(Err(failure(StoreErrorKind::Other, "abort refused"))))
                } else {
                    Some(Event::Written(Ok(())))
                }
            }
            Action::Finish(_) => None,
        }
    }

    fn count(&self, name: &str) -> usize {
        self.asked.iter().filter(|asked| asked.as_str() == name).count()
    }

    fn writes(&self) -> usize {
        self.count("copy-object")
            + self.count("put-object-tagging")
            + self.count("create-multipart-upload")
            + self.count("complete-multipart-upload")
            + self.count("abort-multipart-upload")
            + (self.count("copy-parts") - self.simulated_windows)
    }
}

/// Drives an engine against the store until the copy has ended.
fn copy(config: CopyConfig, store: &mut FakeStore) -> (Result<(), CopyError>, Engine) {
    let mut engine = Engine::new(config);
    let mut event = Event::Start;
    loop {
        match engine.step(event) {
            Action::Finish(outcome) => {
                assert!(engine.is_finished());
                return (outcome, engine);
            }
            action => {
                event = store.answer(action).expect("every request has a reply");
            }
        }
    }
}

/// Small object, same region, auto mode, no destination: one copy request.
#[test]
fn small_same_region_auto_copy_is_one_request() {
    let mut store = FakeStore::holding(head(GIB, "\"e\""));
    store.source_tags = Some(vec![tag("k1", "v1"), tag("k2", "v2")]);
    let (outcome, engine) = copy(config_of(|a| a.auto = true), &mut store);
    assert_eq!(outcome, Ok(()));
    assert_eq!(
        store.asked,
        vec!["head-source", "head-destination", "get-source-tags", "copy-object"]
    );
    assert_eq!(store.copies.len(), 1);
    assert_eq!(store.copies[0].tagging.as_deref(), Some("k1=v1&k2=v2"));
    assert_eq!(store.copies[0].headers.source_etag, "e");
    assert_eq!(engine.upload, UploadState::Unopened);
    assert_eq!(store.count("create-multipart-upload"), 0);
}

/// Large object, manual 256 MiB parts, concurrency 64, other region: 8192 parts in order.
#[test]
fn large_cross_region_manual_copy_is_multipart() {
    let mut store = FakeStore::holding(head(2 * TIB, "\"e-1\""));
    store.reversed_windows = true;
    let (outcome, engine) = copy(
        config_of(|a| {
            a.part_size = Some(256);
            a.concurrency = Some(64);
        }),
        &mut store,
    );
    assert_eq!(outcome, Ok(()));
    assert_eq!(store.count("create-multipart-upload"), 1);
    assert_eq!(store.count("complete-multipart-upload"), 1);
    assert_eq!(store.count("abort-multipart-upload"), 0);
    assert_eq!(store.count("copy-parts"), 128);
    let copied: usize = store.windows.iter().map(|window| window.len()).sum();
    assert!(copied <= 8192);
    assert_eq!(copied, 8192);
    assert!(store.windows.iter().all(|window| window.len() <= 64));
    let submitted = store.submitted.clone().expect("the upload was completed");
    assert_eq!(submitted.len(), 8192);
    for (i, part) in submitted.iter().enumerate() {
        assert_eq!(part.part_number, i as i32 + 1);
        assert_eq!(part.etag, format!("etag-{}", i + 1));
    }
    // The parts cover the object without a gap.
    let mut next = 0;
    for spec in store.windows.iter().flatten() {
        assert_eq!(spec.first_byte, next);
        next = spec.last_byte + 1;
    }
    assert_eq!(next, 2 * TIB);
    // Verified by the recorded source entity tag: the destination's own differs.
    assert_eq!(store.asked[store.asked.len() - 2..], ["head-source", "head-destination"]);
    assert_eq!(engine.upload, UploadState::Completed);
    assert_eq!(engine.phase, Phase::Finished);
}

/// Identical destination: nothing is written.
#[test]
fn identical_destination_is_skipped_without_writes() {
    let mut store = FakeStore::holding(head(10 * GIB, "\"e\""));
    store.destination = Some(head(10 * GIB, "\"e\""));
    store.source_tags = Some(vec![tag("k", "v")]);
    store.destination_tags = Some(vec![tag("k", "v")]);
    let (outcome, _) = copy(config_of(|_| {}), &mut store);
    assert_eq!(outcome, Ok(()));
    assert_eq!(
        store.asked,
        vec!["head-source", "head-destination", "get-source-tags", "get-destination-tags"]
    );
    assert_eq!(store.writes(), 0);
}

/// A second run after a first that copied writes nothing.
#[test]
fn second_run_writes_nothing() {
    let mut store = FakeStore::holding(head(6 * GIB, "\"e\""));
    store.source_tags = Some(vec![tag("k", "v")]);
    let (first, _) = copy(config_of(|a| a.part_size = Some(1024)), &mut store);
    assert_eq!(first, Ok(()));
    assert!(store.writes() > 0);
    // The tags travel with the upload's creation.
    store.destination_tags = store.source_tags.clone();
    store.asked.clear();
    store.windows.clear();
    let (second, _) = copy(config_of(|a| a.part_size = Some(1024)), &mut store);
    assert_eq!(second, Ok(()));
    assert_eq!(store.writes(), 0);
}

/// Data in place, a tag differs, up to 5 GiB: one copy request that replaces the properties.
#[test]
fn property_sync_is_one_copy_request() {
    let mut store = FakeStore::holding(head(2 * GIB, "\"e\""));
    store.destination = Some(head(2 * GIB, "\"e\""));
    store.source_tags = Some(vec![tag("k", "new")]);
    store.destination_tags = Some(vec![tag("k", "old")]);
    let (outcome, engine) = copy(config_of(|_| {}), &mut store);
    assert_eq!(outcome, Ok(()));
    assert_eq!(store.count("copy-object"), 1);
    assert_eq!(store.writes(), 1);
    assert_eq!(store.copies[0].tagging.as_deref(), Some("k=new"));
    assert_eq!(engine.upload, UploadState::Unopened);

    // A header differs, the tags agree: the tags are left out of the request.
    let mut with_header = head(2 * GIB, "\"e\"");
    with_header.headers.content_type = Some("text/csv".to_string());
    let mut store = FakeStore::holding(with_header);
    store.destination = Some(head(2 * GIB, "\"e\""));
    store.destination_tags = Some(Vec::new());
    let (outcome, _) = copy(config_of(|_| {}), &mut store);
    assert_eq!(outcome, Ok(()));
    assert_eq!(store.writes(), 1);
    assert_eq!(store.copies[0].tagging, None);
    assert_eq!(store.copies[0].headers.standard.content_type.as_deref(), Some("text/csv"));
}

/// Data in place, only the tags differ, above 5 GiB: one tagging request.
#[test]
fn tag_sync_is_one_tagging_request() {
    let mut store = FakeStore::holding(head(10 * GIB, "\"e\""));
    store.destination = Some(head(10 * GIB, "\"e\""));
    store.source_tags = Some(vec![tag("k", "new")]);
    store.destination_tags = Some(vec![tag("k", "old")]);
    let (outcome, _) = copy(config_of(|_| {}), &mut store);
    assert_eq!(outcome, Ok(()));
    assert_eq!(store.count("put-object-tagging"), 1);
    assert_eq!(store.writes(), 1);
    assert_eq!(store.tagged, vec![vec![tag("k", "new")]]);
}

/// A part fails: the upload is aborted and the part's error comes back.
#[test]
fn failed_part_aborts_the_upload() {
    let mut store = FakeStore::holding(head(10 * GIB, "\"e\""));
    store.failing_part = Some(70);
    store.failing_abort = true;
    let (outcome, engine) = copy(
        config_of(|a| {
            a.part_size = Some(64);
            a.concurrency = Some(32);
        }),
        &mut store,
    );
    assert_eq!(
        outcome,
        Err(CopyError::UploadLifecycleFailed(
            UploadStage::Part,
            failure(StoreErrorKind::Other, "part refused")
        ))
    );
    assert_eq!(store.aborted, vec!["upload-1"]);
    assert_eq!(store.count("complete-multipart-upload"), 0);
    assert_eq!(store.count("copy-parts"), 3);
    assert_eq!(store.destination, None);
    assert_eq!(engine.upload, UploadState::Aborted);
    assert_eq!(
        outcome.unwrap_err().message(),
        "Failed to upload part: part refused"
    );
}

/// A completion that fails is followed by an abort.
#[test]
fn failed_completion_aborts_the_upload() {
    let mut store = FakeStore::holding(head(10 * GIB, "\"e\""));
    store.failing_complete = true;
    let (outcome, engine) = copy(config_of(|a| a.part_size = Some(1024)), &mut store);
    assert_eq!(
        outcome,
        Err(CopyError::UploadLifecycleFailed(UploadStage::Complete, failure(StoreErrorKind::Other, "no")))
    );
    assert_eq!(store.count("complete-multipart-upload"), 1);
    assert_eq!(store.count("abort-multipart-upload"), 1);
    assert_eq!(engine.upload, UploadState::Aborted);
}

/// An upload that cannot be created leaves nothing to abort.
#[test]
fn failed_creation_ends_the_copy() {
    let mut store = FakeStore::holding(head(10 * GIB, "\"e\""));
    store.failing_create = true;
    let (outcome, engine) = copy(config_of(|_| {}), &mut store);
    assert_eq!(
        outcome,
        Err(CopyError::UploadLifecycleFailed(
            UploadStage::Initiate,
            failure(StoreErrorKind::Transient, "try later")
        ))
    );
    assert_eq!(store.count("abort-multipart-upload"), 0);
    assert_eq!(store.count("copy-parts"), 0);
    assert_eq!(engine.upload, UploadState::Unopened);
}

/// A dry run walks through the whole upload and writes nothing.
#[test]
fn multipart_lifecycle_dry_run_succeeds() {
    let mut store = FakeStore::holding(head(10 * GIB, "\"src-etag\""));
    let (outcome, engine) = copy(
        config_of(|a| {
            a.dry_run = true;
            a.part_size = Some(1024);
        }),
        &mut store,
    );
    assert_eq!(outcome, Ok(()));
    assert_eq!(engine.upload_id, "DRY-RUN-UPLOAD-ID");
    assert_eq!(engine.upload, UploadState::Completed);
    assert_eq!(store.writes(), 0);
    assert_eq!(store.simulated_windows, 1);
    assert_eq!(store.windows[0].len(), 10);
    assert_eq!(engine.completed.len(), 10);
    assert!(engine.completed.iter().all(|part| part.etag == "dry-run-etag"));
    // No verification after a dry run.
    assert_eq!(store.asked, vec!["head-source", "head-destination", "get-source-tags", "copy-parts"]);
}

#[test]
fn dry_run_writes_nothing_on_any_path() {
    // Instant copy.
    let mut store = FakeStore::holding(head(GIB, "\"e\""));
    let (outcome, _) = copy(
        config_of(|a| {
            a.dry_run = true;
            a.auto = true;
        }),
        &mut store,
    );
    assert_eq!(outcome, Ok(()));
    assert_eq!(store.writes(), 0);
    // Property sync.
    let mut store = FakeStore::holding(head(GIB, "\"e\""));
    store.destination = Some(head(GIB, "\"e\""));
    store.destination_tags = Some(vec![tag("old", "tag")]);
    let (outcome, _) = copy(config_of(|a| a.dry_run = true), &mut store);
    assert_eq!(outcome, Ok(()));
    assert_eq!(store.writes(), 0);
    // Tag sync.
    let mut store = FakeStore::holding(head(10 * GIB, "\"e\""));
    store.destination = Some(head(10 * GIB, "\"e\""));
    store.destination_tags = Some(vec![tag("old", "tag")]);
    let (outcome, _) = copy(config_of(|a| a.dry_run = true), &mut store);
    assert_eq!(outcome, Ok(()));
    assert_eq!(store.writes(), 0);
    // A failing simulated part.
    let mut store = FakeStore::holding(head(10 * GIB, "\"e\""));
    store.failing_part = Some(1);
    let (outcome, engine) = copy(config_of(|a| a.dry_run = true), &mut store);
    assert!(outcome.is_err());
    assert_eq!(store.writes(), 0);
    assert_eq!(engine.upload, UploadState::Aborted);
}

#[test]
fn missing_or_empty_source_is_an_error() {
    let mut store = FakeStore::holding(head(1, ""));
    store.source = None;
    let (outcome, _) = copy(config_of(|_| {}), &mut store);
    assert_eq!(outcome, Err(CopyError::SourceNotFound));
    assert_eq!(store.asked, vec!["head-source"]);

    let mut store = FakeStore::holding(head(0, "\"e\""));
    let (outcome, _) = copy(config_of(|_| {}), &mut store);
    assert_eq!(outcome, Err(CopyError::EmptySource));
    assert_eq!(store.writes(), 0);
}

#[test]
fn store_errors_are_surfaced() {
    let config = config_of(|_| {});
    let mut engine = Engine::new(config);
    assert_eq!(engine.step(Event::Start), Action::HeadSource);
    assert_eq!(
        engine.step(Event::Head(Err(failure(StoreErrorKind::AccessDenied, "no access")))),
        Action::Finish(Err(CopyError::SourceHeadFailed(failure(
            StoreErrorKind::AccessDenied,
            "no access"
        ))))
    );

    // Source not found, as an error of the store.
    let mut engine = Engine::new(config_of(|_| {}));
    engine.step(Event::Start);
    assert_eq!(
        engine.step(Event::Head(Err(failure(StoreErrorKind::NotFound, "404")))),
        Action::Finish(Err(CopyError::SourceNotFound))
    );

    // Destination head: not found is no error, anything else is.
    let mut engine = Engine::new(config_of(|_| {}));
    engine.step(Event::Start);
    engine.step(Event::Head(Ok(Some(head(GIB, "\"e\"")))));
    assert_eq!(
        engine.step(Event::Head(Err(failure(StoreErrorKind::NotFound, "404")))),
        Action::GetSourceTags
    );
    let mut engine = Engine::new(config_of(|_| {}));
    engine.step(Event::Start);
    engine.step(Event::Head(Ok(Some(head(GIB, "\"e\"")))));
    assert_eq!(
        engine.step(Event::Head(Err(failure(StoreErrorKind::Transient, "503")))),
        Action::Finish(Err(CopyError::DestinationHeadFailed(failure(
            StoreErrorKind::Transient,
            "503"
        ))))
    );

    // Tags: not found means no tags, anything else is an error.
    let mut engine = Engine::new(config_of(|_| {}));
    engine.step(Event::Start);
    engine.step(Event::Head(Ok(Some(head(GIB, "\"e\"")))));
    engine.step(Event::Head(Ok(None)));
    assert!(matches!(
        engine.step(Event::Tags(Err(failure(StoreErrorKind::NotFound, "gone")))),
        Action::CreateMultipartUpload(_)
    ));
    let mut engine = Engine::new(config_of(|_| {}));
    engine.step(Event::Start);
    engine.step(Event::Head(Ok(Some(head(GIB, "\"e\"")))));
    engine.step(Event::Head(Ok(None)));
    assert_eq!(
        engine.step(Event::Tags(Err(failure(StoreErrorKind::Other, "boom")))),
        Action::Finish(Err(CopyError::TagFetchFailed(failure(StoreErrorKind::Other, "boom"))))
    );
}

#[test]
fn a_reply_that_does_not_answer_is_refused() {
    let mut engine = Engine::new(config_of(|_| {}));
    assert_eq!(
        engine.step(Event::Written(Ok(()))),
        Action::Finish(Err(CopyError::UnexpectedEvent))
    );
    assert_eq!(engine.step(Event::Start), Action::Finish(Err(CopyError::UnexpectedEvent)));

    // Within an open upload the upload is aborted first.
    let mut engine = Engine::new(config_of(|_| {}));
    engine.step(Event::Start);
    engine.step(Event::Head(Ok(Some(head(10 * GIB, "\"e\"")))));
    engine.step(Event::Head(Ok(None)));
    engine.step(Event::Tags(Ok(None)));
    assert!(matches!(
        engine.step(Event::UploadCreated(Ok("id-9".to_string()))),
        Action::CopyParts { .. }
    ));
    // Parts of another window.
    let wrong = WindowReport {
        parts: vec![CompletedPart { part_number: 999, etag: "x".to_string() }],
        wall_nanos: 1,
        part_nanos_total: 1,
        had_retryable_pressure: false,
    };
    assert_eq!(
        engine.step(Event::PartsCopied(Ok(wrong))),
        Action::AbortMultipartUpload { upload_id: "id-9".to_string() }
    );
    assert_eq!(engine.phase, Phase::Aborting);
    assert_eq!(
        engine.step(Event::Written(Ok(()))),
        Action::Finish(Err(CopyError::UnexpectedEvent))
    );
    assert_eq!(engine.upload, UploadState::Aborted);
}

#[test]
fn forced_copy_does_not_look_at_the_destination() {
    let mut store = FakeStore::holding(head(GIB, "\"e\""));
    store.destination = Some(head(GIB, "\"e\""));
    let (outcome, _) = copy(
        config_of(|a| {
            a.force_copy = true;
            a.auto = true;
            a.no_tags = true;
        }),
        &mut store,
    );
    assert_eq!(outcome, Ok(()));
    assert_eq!(store.asked, vec!["head-source", "copy-object"]);
    assert_eq!(store.copies[0].tagging, None);
}

#[test]
fn manual_small_object_uses_the_multipart_path() {
    let mut store = FakeStore::holding(head(GIB, "\"e\""));
    let (outcome, _) = copy(config_of(|_| {}), &mut store);
    assert_eq!(outcome, Ok(()));
    assert_eq!(store.count("copy-object"), 0);
    assert_eq!(store.count("create-multipart-upload"), 1);
    assert_eq!(store.submitted.as_ref().map(|parts| parts.len()), Some(4));
}

#[test]
fn auto_mode_probes_then_tunes_and_adapts() {
    let mut store = FakeStore::holding(head(200 * GIB, "\"e\""));
    store.source_region = Ok(Some("EU".to_string()));
    store.destination_region = Ok(Some("eu-west-1".to_string()));
    // A part takes 100 ms: the probe measures far above 1200 MiB/s, and windows count as fast.
    store.nanos_per_part = 100_000_000;
    let (outcome, engine) = copy(config_of(|a| a.auto = true), &mut store);
    assert_eq!(outcome, Ok(()));
    assert!(engine.same_region);
    // Balanced, same region: four probe parts of 256 MiB, one at a time.
    for window in &store.windows[..4] {
        assert_eq!(window.len(), 1);
        assert_eq!(window[0].last_byte - window[0].first_byte + 1, 256 * MIB);
    }
    // Then the part size is doubled, and the windows start at 24 parts and grow by 4 up to 50.
    assert_eq!(engine.part_size, 512 * MIB);
    let widths: Vec<usize> = store.windows[4..].iter().map(|window| window.len()).collect();
    assert_eq!(widths[..8], [24, 28, 32, 36, 40, 44, 48, 50]);
    assert_eq!(engine.max_concurrency, 50);
    assert_eq!(store.windows[4][0].last_byte - store.windows[4][0].first_byte + 1, 512 * MIB);
    let submitted = store.submitted.clone().unwrap();
    assert_eq!(submitted.len(), 4 + (200 * 1024 - 4 * 256) / 512);
    for (i, part) in submitted.iter().enumerate() {
        assert_eq!(part.part_number, i as i32 + 1);
    }
}

#[test]
fn regions_that_cannot_be_had_count_as_different() {
    let mut store = FakeStore::holding(head(200 * GIB, "\"e\""));
    store.source_region = Err(failure(StoreErrorKind::AccessDenied, "no"));
    let (outcome, engine) = copy(config_of(|a| a.auto = true), &mut store);
    assert_eq!(outcome, Ok(()));
    assert!(!engine.same_region);
    // Balanced, cross-region: 16 parts to begin with, no more than 40.
    assert_eq!(engine.max_concurrency, 40);
    assert_eq!(store.windows[4].len(), 16);
}

#[test]
fn verification_failure_is_reported() {
    let mut store = FakeStore::holding(head(10 * GIB, "\"e\""));
    let config = config_of(|a| a.part_size = Some(1024));
    let mut engine = Engine::new(config);
    let mut event = Event::Start;
    let outcome = loop {
        match engine.step(event) {
            Action::Finish(outcome) => break outcome,
            Action::HeadDestination if engine.phase == Phase::VerifyDestination => {
                // The destination came out one byte short.
                event = Event::Head(Ok(Some(head(10 * GIB - 1, "\"e\""))));
            }
            action => event = store.answer(action).unwrap(),
        }
    };
    assert_eq!(
        outcome,
        Err(CopyError::VerificationFailed(VerificationFailure::SizeMismatch {
            source_size: 10 * GIB,
            destination_size: 10 * GIB - 1
        }))
    );
    assert_eq!(engine.upload, UploadState::Completed);
    assert_eq!(store.count("abort-multipart-upload"), 0);
}

#[test]
fn verification_can_be_switched_off() {
    let mut store = FakeStore::holding(head(10 * GIB, "\"e\""));
    let (outcome, _) = copy(
        config_of(|a| {
            a.verify_integrity = VerifyIntegrity::Off;
            a.part_size = Some(1024);
        }),
        &mut store,
    );
    assert_eq!(outcome, Ok(()));
    assert_eq!(store.asked.last().map(String::as_str), Some("complete-multipart-upload"));
}

#[test]
fn an_object_that_needs_too_many_parts_is_refused() {
    // 60 000 GiB do not fit into 10 000 parts of 5 GiB.
    let mut store = FakeStore::holding(head(60_000 * GIB, "\"e\""));
    let (outcome, engine) = copy(
        config_of(|a| {
            a.part_size = Some(5120);
            a.concurrency = Some(1000);
        }),
        &mut store,
    );
    assert_eq!(outcome, Err(CopyError::PartLimitExceeded));
    assert_eq!(store.count("copy-parts"), 10);
    assert_eq!(store.aborted, vec!["upload-1"]);
    assert_eq!(engine.upload, UploadState::Aborted);
}

#[test]
fn every_state_of_a_run_is_well_formed() {
    let mut store = FakeStore::holding(head(10 * GIB, "\"e\""));
    let mut engine = Engine::new(config_of(|a| {
        a.auto = true;
        a.auto_profile = AutoProfile::CostEfficient;
    }));
    assert!(engine.is_well_formed());
    let mut event = Event::Start;
    loop {
        let action = engine.step(event);
        assert!(engine.is_well_formed());
        match store.answer(action) {
            Some(reply) => event = reply,
            None => break,
        }
    }
    assert!(engine.is_finished());
    // A state that no run reaches is told apart.
    engine.next_part_number = 0;
    assert!(!engine.is_well_formed());
}

#[test]
fn outlook_counts_what_lies_ahead() {
    let mut engine = Engine::new(config_of(|a| {
        a.part_size = Some(1024);
        a.concurrency = Some(4);
    }));
    assert_eq!(engine.outlook(), Outlook { parts: 0, bytes: 0 });
    engine.step(Event::Start);
    engine.step(Event::Head(Ok(Some(head(10 * GIB + 5, "\"e\"")))));
    engine.step(Event::Head(Ok(None)));
    engine.step(Event::Tags(Ok(None)));
    // Nothing is sent out yet: eleven parts lie ahead.
    assert_eq!(engine.outlook(), Outlook { parts: 11, bytes: 10 * GIB as u64 + 5 });
    let action = engine.step(Event::UploadCreated(Ok("id".to_string())));
    assert!(matches!(action, Action::CopyParts { .. }));
    // Four are in flight now, seven are to come.
    assert_eq!(engine.outlook(), Outlook { parts: 11, bytes: 10 * GIB as u64 + 5 });
    let parts = (1..=4)
        .map(|n| CompletedPart { part_number: n, etag: format!("e{}", n) })
        .collect();
    engine.step(Event::PartsCopied(Ok(WindowReport {
        parts,
        wall_nanos: 1,
        part_nanos_total: 4,
        had_retryable_pressure: false,
    })));
    assert_eq!(engine.outlook(), Outlook { parts: 7, bytes: 6 * GIB as u64 + 5 });
}

#[test]
fn failed_writes_of_one_request_are_reported() {
    // Instant copy.
    let mut store = FakeStore::holding(head(GIB, "\"e\""));
    store.failing_copy = true;
    let (outcome, engine) = copy(config_of(|a| a.auto = true), &mut store);
    assert_eq!(
        outcome,
        Err(CopyError::CopyObjectFailed(failure(StoreErrorKind::AccessDenied, "denied")))
    );
    assert_eq!(engine.upload, UploadState::Unopened);
    assert_eq!(store.count("abort-multipart-upload"), 0);

    // Property sync.
    let mut store = FakeStore::holding(head(GIB, "\"e\""));
    store.destination = Some(head(GIB, "\"e\""));
    store.destination_tags = Some(vec![tag("old", "tag")]);
    store.failing_copy = true;
    let (outcome, _) = copy(config_of(|_| {}), &mut store);
    assert_eq!(
        outcome,
        Err(CopyError::CopyObjectFailed(failure(StoreErrorKind::AccessDenied, "denied")))
    );

    // Tag sync.
    let mut engine = Engine::new(config_of(|_| {}));
    engine.step(Event::Start);
    engine.step(Event::Head(Ok(Some(head(10 * GIB, "\"e\"")))));
    engine.step(Event::Head(Ok(Some(head(10 * GIB, "\"e\"")))));
    engine.step(Event::Tags(Ok(Some(vec![tag("k", "new")]))));
    assert_eq!(
        engine.step(Event::Tags(Ok(Some(vec![tag("k", "old")])))),
        Action::PutObjectTagging(vec![tag("k", "new")])
    );
    assert_eq!(
        engine.step(Event::Written(Err(failure(StoreErrorKind::Other, "tagging refused")))),
        Action::Finish(Err(CopyError::TagSyncFailed(failure(StoreErrorKind::Other, "tagging refused"))))
    );
}

#[test]
fn heads_that_cannot_be_had_fail_the_verification() {
    for missing_source in [true, false] {
        let mut store = FakeStore::holding(head(10 * GIB, "\"e\""));
        let mut engine = Engine::new(config_of(|a| a.part_size = Some(1024)));
        let mut event = Event::Start;
        let outcome = loop {
            match engine.step(event) {
                Action::Finish(outcome) => break outcome,
                Action::HeadSource if engine.phase == Phase::VerifySource && missing_source => {
                    event = Event::Head(Ok(None));
                }
                Action::HeadDestination if engine.phase == Phase::VerifyDestination => {
                    event = Event::Head(Err(failure(StoreErrorKind::Transient, "503")));
                }
                action => event = store.answer(action).unwrap(),
            }
        };
        assert_eq!(
            outcome,
            Err(CopyError::VerificationFailed(VerificationFailure::HeadUnavailable))
        );
        assert_eq!(engine.upload, UploadState::Completed);
    }
}

#[test]
fn every_error_has_its_message() {
    let store_error = failure(StoreErrorKind::Other, "boom");
    let cases = vec![
        (CopyError::SourceNotFound, "Source object not found"),
        (CopyError::SourceHeadFailed(store_error.clone()), "Failed to get source metadata: boom"),
        (CopyError::EmptySource, "Source object is empty"),
        (
            CopyError::DestinationHeadFailed(store_error.clone()),
            "Failed to get destination metadata: boom",
        ),
        (CopyError::TagFetchFailed(store_error.clone()), "Failed to get tagging: boom"),
        (CopyError::CopyObjectFailed(store_error.clone()), "Failed to copy object: boom"),
        (CopyError::TagSyncFailed(store_error.clone()), "Failed to sync tags: boom"),
        (
            CopyError::UploadLifecycleFailed(UploadStage::Initiate, store_error.clone()),
            "Failed to initiate multipart upload: boom",
        ),
        (
            CopyError::UploadLifecycleFailed(UploadStage::Part, store_error.clone()),
            "Failed to upload part: boom",
        ),
        (
            CopyError::UploadLifecycleFailed(UploadStage::Complete, store_error.clone()),
            "Failed to complete multipart upload: boom",
        ),
        (
            CopyError::UploadLifecycleFailed(UploadStage::Abort, store_error.clone()),
            "Failed to abort multipart upload: boom",
        ),
        (CopyError::PartLimitExceeded, "Object needs more than 10000 parts"),
        (
            CopyError::VerificationFailed(VerificationFailure::ChecksumUnavailable),
            "Checksum verification requested but checksum headers are not available. Use --checksum-algorithm during copy.",
        ),
        (CopyError::UnexpectedEvent, "The store's reply does not answer the request"),
    ];
    for (error, message) in cases {
        assert_eq!(error.message(), message);
    }
}

/// A second run over an object in a set storage class writes nothing.
#[test]
fn second_run_over_a_set_storage_class_writes_nothing() {
    for size in [2 * GIB, 10 * GIB] {
        let mut source = head(size, "\"e\"");
        source.storage_class = Some("GLACIER".to_string());
        source.headers.content_type = Some("text/plain".to_string());
        let mut store = FakeStore::holding(source);
        store.source_tags = Some(vec![tag("k", "v")]);
        let (first, _) = copy(config_of(|a| a.part_size = Some(1024)), &mut store);
        assert_eq!(first, Ok(()));
        assert!(store.writes() > 0);
        assert_eq!(
            store.destination.as_ref().and_then(|object| object.storage_class.clone()).as_deref(),
            Some("GLACIER")
        );
        // The tags travel with the upload's creation.
        store.destination_tags = store.source_tags.clone();
        store.asked.clear();
        store.windows.clear();
        let (second, engine) = copy(config_of(|a| a.part_size = Some(1024)), &mut store);
        assert_eq!(second, Ok(()));
        assert_eq!(store.writes(), 0);
        assert_eq!(
            store.asked,
            vec!["head-source", "head-destination", "get-source-tags", "get-destination-tags"]
        );
        assert_eq!(engine.upload, UploadState::Unopened);
    }
}

/// Identical objects of 10 GiB in a set storage class: nothing is written.
#[test]
fn identical_destination_in_a_set_class_is_skipped() {
    let mut object = head(10 * GIB, "\"e\"");
    object.storage_class = Some("STANDARD_IA".to_string());
    let mut store = FakeStore::holding(object.clone());
    store.destination = Some(object);
    store.source_tags = Some(vec![tag("k", "v")]);
    store.destination_tags = Some(vec![tag("k", "v")]);
    let (outcome, _) = copy(config_of(|_| {}), &mut store);
    assert_eq!(outcome, Ok(()));
    assert_eq!(store.writes(), 0);
}

#[test]
fn manual_copies_send_as_many_parts_as_the_object_needs() {
    let cases: [(i64, i64, usize, usize); 5] = [
        (10 * GIB, 1024, 4, 10),
        (10 * GIB + 1, 1024, 4, 11),
        (GIB, 5, 1000, 205),
        (7 * MIB, 5, 3, 2),
        (1, 256, 50, 1),
    ];
    for (size, part_size_mb, concurrency, parts) in cases {
        let mut store = FakeStore::holding(head(size, "\"e\""));
        let mut a = args();
        a.part_size = Some(part_size_mb);
        a.concurrency = Some(concurrency);
        let (outcome, engine) = copy(CopyConfig::from_args(&a).unwrap(), &mut store);
        assert_eq!(outcome, Ok(()));
        let sent: usize = store.windows.iter().map(|window| window.len()).sum();
        assert_eq!(sent, parts);
        assert_eq!(store.submitted.as_ref().map(|submitted| submitted.len()), Some(parts));
        assert!(store.windows.iter().all(|window| 1 <= window.len() && window.len() <= concurrency));
        assert_eq!(engine.part_size, part_size_mb * MIB);
        // Every part but the last has the configured size.
        let specs: Vec<&PartSpec> = store.windows.iter().flatten().collect();
        for spec in &specs[..specs.len() - 1] {
            assert_eq!(spec.last_byte - spec.first_byte + 1, part_size_mb * MIB);
        }
        assert_eq!(specs[specs.len() - 1].last_byte, size - 1);
    }
}
