use s3_largecopy::args::Args;
use s3_largecopy::auto::{AutoProfile, VerifyIntegrity};
use s3_largecopy::config::{retry_max_attempts, CopyConfig};
use s3_largecopy::errors::{CopyError, LimitKind};
use s3_largecopy::object::{MetadataEntry, ObjectHead, Tag};
use s3_largecopy::strategy::{
    has_matching_data, has_matching_etag, plan_full_copy, reconcile, records_source_etag,
    select_strategy, Strategy,
};

const GIB: i64 = 1024 * 1024 * 1024;

fn args() -> Args {
    Args {
        source_bucket: "src-bucket".to_string(),
        source_key: "src-key".to_string(),
        dest_bucket: "dst-bucket".to_string(),
        dest_key: "dst-key".to_string(),
        region: None,
        dest_region: None,
        profile: None,
        part_size: None,
        concurrency: None,
        storage_class: None,
        full_control: false,
        auto: false,
        auto_profile: AutoProfile::Balanced,
        no_metadata: false,
        no_tags: false,
        no_storage_class: false,
        no_acl: false,
        quiet: true,
        dry_run: false,
        force_copy: false,
        verify_integrity: VerifyIntegrity::Etag,
        checksum_algorithm: None,
        sse: None,
        sse_kms_key_id: None,
        estimate: false,
    }
}

fn config() -> CopyConfig {
    CopyConfig::from_args(&args()).expect("the defaults are within the limits")
}

fn head(size: i64, etag: &str) -> ObjectHead {
    ObjectHead::bare(size, etag.to_string())
}

fn tag(key: &str, value: &str) -> Tag {
    Tag { key: key.to_string(), value: value.to_string() }
}

#[test]
fn defaults_become_the_configuration() {
    let config = config();
    assert_eq!(config.manual_part_size, 256 * 1024 * 1024);
    assert_eq!(config.concurrency_cap, 50);
    assert_eq!(config.source.bucket, "src-bucket");
    assert_eq!(config.destination.key, "dst-key");
    assert_eq!(config.verify, VerifyIntegrity::Etag);
    assert!(!config.auto_enabled);
}

#[test]
fn limits_are_enforced() {
    for (part_size, ok) in [(4, false), (5, true), (5120, true), (5121, false), (-1, false)] {
        let mut a = args();
        a.part_size = Some(part_size);
        let result = CopyConfig::from_args(&a);
        if ok {
            assert_eq!(result.unwrap().manual_part_size, part_size * 1024 * 1024);
        } else {
            assert_eq!(result.unwrap_err(), CopyError::LimitExceeded(LimitKind::PartSize));
        }
    }
    for (concurrency, ok) in [(0, false), (1, true), (1000, true), (1001, false)] {
        let mut a = args();
        a.concurrency = Some(concurrency);
        let result = CopyConfig::from_args(&a);
        if ok {
            assert_eq!(result.unwrap().concurrency_cap, concurrency);
        } else {
            assert_eq!(result.unwrap_err(), CopyError::LimitExceeded(LimitKind::Concurrency));
        }
    }
    let mut both = args();
    both.part_size = Some(1);
    both.concurrency = Some(0);
    let err = CopyConfig::from_args(&both).unwrap_err();
    assert_eq!(err, CopyError::LimitExceeded(LimitKind::PartSize));
    assert_eq!(err.message(), "Part size must be between 5 and 5120 MB");
    assert_eq!(
        CopyError::LimitExceeded(LimitKind::Concurrency).message(),
        "Concurrency must be between 1 and 1000"
    );
}

#[test]
fn retry_attempts_by_mode_and_profile() {
    assert_eq!(retry_max_attempts(false, AutoProfile::Aggressive), 5);
    assert_eq!(retry_max_attempts(true, AutoProfile::Aggressive), 10);
    assert_eq!(retry_max_attempts(true, AutoProfile::Balanced), 8);
    assert_eq!(retry_max_attempts(true, AutoProfile::Conservative), 6);
    assert_eq!(retry_max_attempts(true, AutoProfile::CostEfficient), 6);
}

#[test]
fn data_matches_by_size_and_etag() {
    let source = head(10, "\"abc\"");
    assert!(has_matching_data(&source, &head(10, "\"abc\"")));
    assert!(!has_matching_data(&source, &head(11, "\"abc\"")));
    assert!(!has_matching_data(&source, &head(10, "\"abd\"")));
    assert!(has_matching_etag(&source, &head(99, "\"abc\"")));
}

#[test]
fn metadata_keys_must_be_unique() {
    let mut object = head(1, "");
    assert!(object.is_well_formed());
    object.metadata.push(MetadataEntry { key: "a".to_string(), value: "1".to_string() });
    object.metadata.push(MetadataEntry { key: "b".to_string(), value: "1".to_string() });
    assert!(object.is_well_formed());
    object.metadata.push(MetadataEntry { key: "a".to_string(), value: "2".to_string() });
    assert!(!object.is_well_formed());
}

#[test]
fn recorded_etag_is_compared_without_quotes() {
    let mut destination = head(10, "\"other-2\"");
    assert!(!records_source_etag(&destination, "\"abc\""));
    destination
        .metadata
        .push(MetadataEntry { key: "unrelated".to_string(), value: "abc".to_string() });
    assert!(!records_source_etag(&destination, "\"abc\""));
    destination
        .metadata
        .push(MetadataEntry { key: "source-etag".to_string(), value: "abc".to_string() });
    assert!(records_source_etag(&destination, "\"abc\""));
    assert!(records_source_etag(&destination, "abc"));
    assert!(records_source_etag(&destination, "\"\"abc\"\""));
    assert!(!records_source_etag(&destination, "\"abcd\""));
    assert!(has_matching_data(&head(10, "\"abc\""), &destination));
    assert_eq!(destination.recorded_source_etag().as_deref(), Some("abc"));
}

#[test]
fn identical_destination_is_skipped() {
    let source = head(10 * GIB, "\"e\"");
    let destination = Some(head(10 * GIB, "\"e\""));
    let tags = Some(vec![tag("k", "v")]);
    assert_eq!(
        select_strategy(&config(), &source, &destination, &tags, &tags.clone()),
        Ok(Strategy::Skip)
    );
    // An empty object that is in place is skipped too.
    assert_eq!(
        select_strategy(&config(), &head(0, "\"e\""), &Some(head(0, "\"e\"")), &None, &None),
        Ok(Strategy::Skip)
    );
}

#[test]
fn differing_properties_are_synced_up_to_five_gib() {
    let source = head(2 * GIB, "\"e\"");
    let destination = Some(head(2 * GIB, "\"e\""));
    let ours = Some(vec![tag("k", "v")]);
    let theirs = Some(vec![tag("k", "w")]);
    assert_eq!(
        select_strategy(&config(), &source, &destination, &ours, &theirs),
        Ok(Strategy::PropertySync)
    );
    let at_ceiling = head(5 * GIB, "\"e\"");
    assert_eq!(
        select_strategy(&config(), &at_ceiling, &Some(head(5 * GIB, "\"e\"")), &ours, &theirs),
        Ok(Strategy::PropertySync)
    );
    let mut with_header = head(2 * GIB, "\"e\"");
    with_header.headers.content_type = Some("text/plain".to_string());
    assert_eq!(
        select_strategy(&config(), &with_header, &destination, &ours, &ours.clone()),
        Ok(Strategy::PropertySync)
    );
}

#[test]
fn only_tags_differ_above_five_gib() {
    let source = head(10 * GIB, "\"e\"");
    let destination = Some(head(10 * GIB, "\"e\""));
    let ours = Some(vec![tag("k", "v")]);
    let theirs = Some(vec![tag("k", "w")]);
    assert_eq!(
        select_strategy(&config(), &source, &destination, &ours, &theirs),
        Ok(Strategy::TagSync)
    );
    // The order of the tags counts.
    let two = Some(vec![tag("a", "1"), tag("b", "2")]);
    let swapped = Some(vec![tag("b", "2"), tag("a", "1")]);
    assert_eq!(
        select_strategy(&config(), &source, &destination, &two, &swapped),
        Ok(Strategy::TagSync)
    );
    // Without tags to write, the object is copied in full.
    assert_eq!(
        select_strategy(&config(), &source, &destination, &None, &theirs),
        Ok(Strategy::MultipartCopy)
    );
}

#[test]
fn headers_or_class_differ_above_five_gib() {
    let mut source = head(10 * GIB, "\"e\"");
    source.headers.cache_control = Some("no-cache".to_string());
    let destination = Some(head(10 * GIB, "\"e\""));
    assert_eq!(
        select_strategy(&config(), &source, &destination, &None, &None),
        Ok(Strategy::MultipartCopy)
    );
    let mut wants_class = config();
    wants_class.storage_class_override = Some("GLACIER_IR".to_string());
    assert_eq!(
        select_strategy(&wants_class, &head(10 * GIB, "\"e\""), &destination, &None, &None),
        Ok(Strategy::MultipartCopy)
    );
    wants_class.skip_storage_class = true;
    assert_eq!(
        select_strategy(&wants_class, &head(10 * GIB, "\"e\""), &destination, &None, &None),
        Ok(Strategy::Skip)
    );
}

#[test]
fn equal_storage_classes_match() {
    // Both objects are in the same class, and no other class is asked for.
    let mut source = head(10 * GIB, "\"e\"");
    source.storage_class = Some("GLACIER".to_string());
    let mut same = head(10 * GIB, "\"e\"");
    same.storage_class = Some("GLACIER".to_string());
    assert_eq!(
        select_strategy(&config(), &source, &Some(same.clone()), &None, &None),
        Ok(Strategy::Skip)
    );
    let mut small = head(GIB, "\"e\"");
    small.storage_class = Some("GLACIER".to_string());
    let mut small_same = head(GIB, "\"e\"");
    small_same.storage_class = Some("GLACIER".to_string());
    assert_eq!(
        select_strategy(&config(), &small, &Some(small_same), &None, &None),
        Ok(Strategy::Skip)
    );
    // The destination is in another class than the source: the class is written.
    assert_eq!(
        select_strategy(&config(), &source, &Some(head(10 * GIB, "\"e\"")), &None, &None),
        Ok(Strategy::MultipartCopy)
    );
    assert_eq!(
        select_strategy(&config(), &small, &Some(head(GIB, "\"e\"")), &None, &None),
        Ok(Strategy::PropertySync)
    );
    // Another class is asked for: the source's does not count.
    let mut wants_class = config();
    wants_class.storage_class_override = Some("STANDARD_IA".to_string());
    assert_eq!(
        select_strategy(&wants_class, &source, &Some(same.clone()), &None, &None),
        Ok(Strategy::MultipartCopy)
    );
    let mut other = head(10 * GIB, "\"e\"");
    other.storage_class = Some("STANDARD_IA".to_string());
    assert_eq!(
        select_strategy(&wants_class, &source, &Some(other.clone()), &None, &None),
        Ok(Strategy::Skip)
    );
    // The class is left alone: nothing is compared.
    let mut leaving = config();
    leaving.skip_storage_class = true;
    assert_eq!(
        select_strategy(&leaving, &source, &Some(other), &None, &None),
        Ok(Strategy::Skip)
    );
}

#[test]
fn skipped_properties_are_not_compared() {
    let mut source = head(10 * GIB, "\"e\"");
    source.headers.content_language = Some("en".to_string());
    source.expires = Some("Mon, 16 Dec 2019 23:48:18 GMT".to_string());
    let destination = head(10 * GIB, "\"e\"");
    let mut c = config();
    c.skip_metadata = true;
    c.skip_tags = true;
    assert_eq!(
        reconcile(&c, &source, &destination, &Some(vec![tag("k", "v")]), &None),
        Some(Strategy::Skip)
    );
    c.skip_metadata = false;
    assert_eq!(reconcile(&c, &source, &destination, &None, &None), None);
}

#[test]
fn full_copy_by_mode_and_size() {
    let mut c = config();
    assert_eq!(plan_full_copy(&c, &head(0, "")), Err(CopyError::EmptySource));
    assert_eq!(plan_full_copy(&c, &head(1, "")), Ok(Strategy::MultipartCopy));
    c.auto_enabled = true;
    assert_eq!(plan_full_copy(&c, &head(0, "")), Err(CopyError::EmptySource));
    assert_eq!(plan_full_copy(&c, &head(GIB, "")), Ok(Strategy::InstantCopy));
    assert_eq!(plan_full_copy(&c, &head(5 * GIB - 1, "")), Ok(Strategy::InstantCopy));
    assert_eq!(plan_full_copy(&c, &head(5 * GIB, "")), Ok(Strategy::MultipartCopy));
}

#[test]
fn forced_or_absent_or_different_destination_is_copied() {
    let source = head(10 * GIB, "\"e\"");
    let same = Some(head(10 * GIB, "\"e\""));
    let mut forced = config();
    forced.force_copy = true;
    assert_eq!(select_strategy(&forced, &source, &same, &None, &None), Ok(Strategy::MultipartCopy));
    assert_eq!(
        select_strategy(&config(), &source, &None, &None, &None),
        Ok(Strategy::MultipartCopy)
    );
    assert_eq!(
        select_strategy(&config(), &source, &Some(head(10 * GIB, "\"f\"")), &None, &None),
        Ok(Strategy::MultipartCopy)
    );
    assert_eq!(
        select_strategy(&config(), &head(0, "\"e\""), &None, &None, &None),
        Err(CopyError::EmptySource)
    );
    assert_eq!(CopyError::EmptySource.message(), "Source object is empty");
}
