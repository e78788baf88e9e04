use s3_largecopy::args::Args;
use s3_largecopy::auto::{AutoProfile, VerifyIntegrity};
use s3_largecopy::config::CopyConfig;
use s3_largecopy::errors::{classify_error_code, StoreErrorKind};
use s3_largecopy::headers::{
    build_copy_request, build_sync_request, destination_headers, destination_headers_with,
    parse_expires, serialize_tags, tagging_for_copy, tagging_for_sync, HttpInstant,
};
use s3_largecopy::object::{same_tags, untracked_metadata, MetadataEntry, ObjectHead, Tag};
use s3_largecopy::store::bucket_region;
use s3_largecopy::text::{push_decimal, push_signed_decimal, same_text, trim_quotes};

fn config() -> CopyConfig {
    CopyConfig::from_args(&Args {
        source_bucket: "src-bucket".to_string(),
        source_key: "src-key".to_string(),
        dest_bucket: "dst-bucket".to_string(),
        dest_key: "dst-key".to_string(),
        region: None,
        dest_region: None,
        profile: None,
        part_size: None,
        concurrency: None,
        storage_class: None,
        full_control: false,
        auto: false,
        auto_profile: AutoProfile::Balanced,
        no_metadata: false,
        no_tags: false,
        no_storage_class: false,
        no_acl: false,
        quiet: true,
        dry_run: false,
        force_copy: false,
        verify_integrity: VerifyIntegrity::Etag,
        checksum_algorithm: None,
        sse: None,
        sse_kms_key_id: None,
        estimate: false,
    })
    .unwrap()
}

fn tag(key: &str, value: &str) -> Tag {
    Tag { key: key.to_string(), value: value.to_string() }
}

fn entry(key: &str, value: &str) -> MetadataEntry {
    MetadataEntry { key: key.to_string(), value: value.to_string() }
}

fn rich_source() -> ObjectHead {
    let mut source = ObjectHead::bare(42, "\"abc-3\"".to_string());
    source.storage_class = Some("STANDARD_IA".to_string());
    source.headers.cache_control = Some("max-age=60".to_string());
    source.headers.content_type = Some("application/json".to_string());
    source.headers.content_disposition = Some("attachment".to_string());
    source.headers.content_encoding = Some("gzip".to_string());
    source.headers.content_language = Some("de".to_string());
    source.headers.website_redirect_location = Some("/elsewhere".to_string());
    source.expires = Some("Mon, 16 Dec 2019 23:48:18 GMT".to_string());
    source.metadata.push(entry("owner", "team-a"));
    source.metadata.push(entry("source-etag", "stale"));
    source.metadata.push(entry("purpose", "test"));
    source
}

#[test]
fn quotes_are_trimmed_from_both_ends() {
    assert_eq!(trim_quotes("\"abc\""), "abc");
    assert_eq!(trim_quotes("abc"), "abc");
    assert_eq!(trim_quotes("\"\"a\"b\"\"\""), "a\"b");
    assert_eq!(trim_quotes("\"\"\""), "");
    assert_eq!(trim_quotes(""), "");
    assert_eq!(trim_quotes("\"ü-1\""), "ü-1");
}

#[test]
fn texts_are_compared_by_content() {
    assert!(same_text("a-b", "a-b"));
    assert!(!same_text("a-b", "a-c"));
    assert!(!same_text("", "a"));
}

#[test]
fn numbers_are_rendered_in_decimal() {
    let mut out = String::from("n=");
    push_decimal(&mut out, 0);
    out.push(',');
    push_decimal(&mut out, 7);
    out.push(',');
    push_decimal(&mut out, 1234567890);
    out.push(',');
    push_decimal(&mut out, u64::MAX);
    out.push(',');
    push_signed_decimal(&mut out, -45);
    assert_eq!(out, "n=0,7,1234567890,18446744073709551615,-45");
}

#[test]
fn http_dates_are_parsed_by_the_date_library() {
    assert_eq!(
        parse_expires(&Some("Mon, 16 Dec 2019 23:48:18 GMT".to_string())),
        Some(HttpInstant { seconds: 1576540098, subsecond_nanos: 0 })
    );
    assert_eq!(
        parse_expires(&Some("Mon, 16 Dec 2019 23:48:18.123 GMT".to_string())),
        Some(HttpInstant { seconds: 1576540098, subsecond_nanos: 123_000_000 })
    );
    assert_eq!(
        parse_expires(&Some("Thu, 01 Jan 1970 00:00:00 GMT".to_string())),
        Some(HttpInstant { seconds: 0, subsecond_nanos: 0 })
    );
    assert_eq!(parse_expires(&Some("2019-12-16T23:48:18Z".to_string())), None);
    assert_eq!(parse_expires(&Some("tomorrow".to_string())), None);
    assert_eq!(parse_expires(&Some(String::new())), None);
    assert_eq!(parse_expires(&None), None);
}

#[test]
fn headers_carry_the_sources_properties() {
    let headers = destination_headers(&config(), &rich_source());
    assert_eq!(headers.source_etag, "abc-3");
    assert_eq!(headers.standard, rich_source().headers);
    assert_eq!(headers.expires, Some(HttpInstant { seconds: 1576540098, subsecond_nanos: 0 }));
    assert_eq!(headers.metadata, vec![entry("owner", "team-a"), entry("purpose", "test")]);
    assert_eq!(headers.storage_class.as_deref(), Some("STANDARD_IA"));
    assert!(!headers.bucket_owner_full_control);
    assert_eq!(headers.checksum_algorithm, None);
    assert_eq!(headers.sse, None);
    assert_eq!(headers.sse_kms_key_id, None);
}

#[test]
fn an_expiry_that_is_no_date_is_left_out() {
    let mut source = rich_source();
    source.expires = Some("never".to_string());
    assert_eq!(destination_headers(&config(), &source).expires, None);
    let given = Some(HttpInstant { seconds: 5, subsecond_nanos: 6 });
    assert_eq!(destination_headers_with(&config(), &source, given).expires, given);
}

#[test]
fn skipped_properties_are_left_out() {
    let mut c = config();
    c.skip_metadata = true;
    c.skip_storage_class = true;
    let headers = destination_headers(&c, &rich_source());
    assert_eq!(headers.source_etag, "abc-3");
    assert_eq!(headers.standard, ObjectHead::bare(0, String::new()).headers);
    assert_eq!(headers.expires, None);
    assert!(headers.metadata.is_empty());
    assert_eq!(headers.storage_class, None);
}

#[test]
fn configured_properties_are_written() {
    let mut c = config();
    c.storage_class_override = Some("GLACIER_IR".to_string());
    c.skip_storage_class = true;
    c.full_control_acl = true;
    c.checksum_algorithm = Some("SHA256".to_string());
    c.sse = Some("aws:kms".to_string());
    c.sse_kms_key_id = Some("alias/key".to_string());
    let headers = destination_headers(&c, &rich_source());
    assert_eq!(headers.storage_class.as_deref(), Some("GLACIER_IR"));
    assert!(headers.bucket_owner_full_control);
    assert_eq!(headers.checksum_algorithm.as_deref(), Some("SHA256"));
    assert_eq!(headers.sse.as_deref(), Some("aws:kms"));
    assert_eq!(headers.sse_kms_key_id.as_deref(), Some("alias/key"));
    c.skip_acl = true;
    assert!(!destination_headers(&c, &rich_source()).bucket_owner_full_control);
}

#[test]
fn tracking_key_is_filtered_from_metadata() {
    let kept = untracked_metadata(&rich_source().metadata);
    assert_eq!(kept, vec![entry("owner", "team-a"), entry("purpose", "test")]);
    assert!(untracked_metadata(&vec![entry("source-etag", "x")]).is_empty());
}

#[test]
fn tags_are_serialized_in_order() {
    assert_eq!(serialize_tags(&vec![]), "");
    assert_eq!(serialize_tags(&vec![tag("k1", "v1")]), "k1=v1");
    assert_eq!(
        serialize_tags(&vec![tag("k1", "v1"), tag("k2", "v2"), tag("k3", "")]),
        "k1=v1&k2=v2&k3="
    );
    assert!(same_tags(&vec![tag("a", "b")], &vec![tag("a", "b")]));
    assert!(!same_tags(&vec![tag("a", "b")], &vec![tag("a", "c")]));
    assert!(!same_tags(&vec![tag("a", "b")], &vec![]));
}

#[test]
fn tagging_of_a_full_copy() {
    let c = config();
    assert_eq!(tagging_for_copy(&c, &None), None);
    assert_eq!(tagging_for_copy(&c, &Some(vec![])), None);
    assert_eq!(tagging_for_copy(&c, &Some(vec![tag("a", "b")])).as_deref(), Some("a=b"));
    let mut skipping = config();
    skipping.skip_tags = true;
    assert_eq!(tagging_for_copy(&skipping, &Some(vec![tag("a", "b")])), None);
    let request = build_copy_request(&c, &rich_source(), &Some(vec![tag("a", "b")]));
    assert_eq!(request.tagging.as_deref(), Some("a=b"));
    assert_eq!(request.headers, destination_headers(&c, &rich_source()));
}

#[test]
fn tagging_of_a_property_sync() {
    let c = config();
    let ours = Some(vec![tag("a", "b")]);
    let theirs = Some(vec![tag("a", "c")]);
    assert_eq!(tagging_for_sync(&c, &ours, &theirs).as_deref(), Some("a=b"));
    assert_eq!(tagging_for_sync(&c, &ours, &ours.clone()), None);
    assert_eq!(tagging_for_sync(&c, &None, &theirs), None);
    // An empty tag set clears the destination's tags.
    assert_eq!(tagging_for_sync(&c, &Some(vec![]), &theirs).as_deref(), Some(""));
    let mut skipping = config();
    skipping.skip_tags = true;
    assert_eq!(tagging_for_sync(&skipping, &ours, &theirs), None);
    let request = build_sync_request(&c, &rich_source(), &ours, &theirs);
    assert_eq!(request.tagging.as_deref(), Some("a=b"));
}

#[test]
fn location_constraints_name_regions() {
    assert_eq!(bucket_region(&None), "us-east-1");
    assert_eq!(bucket_region(&Some(String::new())), "us-east-1");
    assert_eq!(bucket_region(&Some("EU".to_string())), "eu-west-1");
    assert_eq!(bucket_region(&Some("eu-central-1".to_string())), "eu-central-1");
}

#[test]
fn error_codes_are_classified() {
    let kind = |code: &str| classify_error_code(&Some(code.to_string()));
    assert_eq!(kind("NotFound"), StoreErrorKind::NotFound);
    assert_eq!(kind("NoSuchKey"), StoreErrorKind::NotFound);
    assert_eq!(kind("NoSuchBucket"), StoreErrorKind::NotFound);
    assert_eq!(kind("NoSuchUpload"), StoreErrorKind::NotFound);
    assert_eq!(kind("AccessDenied"), StoreErrorKind::AccessDenied);
    assert_eq!(kind("SlowDown"), StoreErrorKind::Transient);
    assert_eq!(kind("RequestTimeout"), StoreErrorKind::Transient);
    assert_eq!(kind("InternalError"), StoreErrorKind::Transient);
    assert_eq!(kind("ServiceUnavailable"), StoreErrorKind::Transient);
    assert_eq!(kind("InvalidRequest"), StoreErrorKind::Other);
    assert_eq!(kind("accessdenied"), StoreErrorKind::Other);
    assert_eq!(classify_error_code(&None), StoreErrorKind::Other);
}
