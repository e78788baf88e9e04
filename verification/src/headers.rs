//! What a write to the destination carries: the headers taken over from the
//! source, the entity tag recorded for later runs, and the serialized tags.

use vstd::prelude::*;
use vstd::string::StringExecFns;
use crate::config::{CopyConfig, CopyConfigView};
use crate::object::{
    has_unique_keys, metadata_without, no_headers, optional_tags, same_optional_tags, tracking_key,
    untracked_metadata, MetadataEntry, ObjectHead, ObjectHeadView, StandardHeaders,
    StandardHeadersView, Tag,
};
use crate::text::{copy_optional_text, optional_text, trim_quotes, unquoted, Text};

verus! {

/// A point in time: seconds since the Unix epoch and the nanoseconds past them.
#[derive(Copy, Clone, Debug, PartialEq, Eq, Structural)]
pub struct HttpInstant {
    pub seconds: i64,
    pub subsecond_nanos: u32,
}

/// What the date library's HTTP-date parser returns for a text: the instant
/// that it reads from it, as seconds since the Unix epoch and nanoseconds, or
/// `None` where it rejects the text.
pub uninterp spec fn http_date_instant(text: Seq<char>) -> Option<(i64, u32)>;

/// `aws_smithy_types::DateTime::from_str` with `Format::HttpDate`: the parsed
/// instant's seconds and sub-second nanoseconds, or `None` where the parser
/// rejects the text. The parser reads nothing but its argument. The
/// nanoseconds of a `DateTime` stay below one second.
#[verifier::external_body]
fn parse_http_date(text: &str) -> (instant: Option<(i64, u32)>)
    ensures
        instant == http_date_instant(text@),
        instant matches Some(parsed) ==> parsed.1 < 1_000_000_000,
{
    match aws_smithy_types::DateTime::from_str(text, aws_smithy_types::date_time::Format::HttpDate) {
        Ok(parsed) => Some((parsed.secs(), parsed.subsec_nanos())),
        Err(_) => None,
    }
}

/// A parsed date as an instant.
pub open spec fn instant_of(parsed: Option<(i64, u32)>) -> Option<HttpInstant> {
    match parsed {
        Some(p) => Some(HttpInstant { seconds: p.0, subsecond_nanos: p.1 }),
        None => None,
    }
}

/// The instant of an optional `Expires` header.
pub open spec fn expiry_of(header: Option<Text>) -> Option<HttpInstant> {
    match header {
        Some(text) => instant_of(http_date_instant(text)),
        None => None,
    }
}

/// The instant that an `Expires` header denotes, if it is an HTTP date.
pub fn parse_expires(header: &Option<String>) -> (instant: Option<HttpInstant>)
    ensures
        instant == expiry_of(optional_text(*header)),
        instant matches Some(at) ==> at.subsecond_nanos < 1_000_000_000,
{
    match header {
        Some(text) => match parse_http_date(text.as_str()) {
            Some(parsed) => Some(HttpInstant { seconds: parsed.0, subsecond_nanos: parsed.1 }),
            None => None,
        },
        None => None,
    }
}

/// The headers of a write to the destination.
#[derive(Clone, Debug, PartialEq, Eq)]
pub struct DestinationHeaders {
    /// Recorded under the metadata key `source-etag`.
    pub source_etag: String,
    pub standard: StandardHeaders,
    pub expires: Option<HttpInstant>,
    /// Custom metadata, without any `source-etag` entry of the source.
    pub metadata: Vec<MetadataEntry>,
    pub storage_class: Option<String>,
    pub bucket_owner_full_control: bool,
    pub checksum_algorithm: Option<String>,
    pub sse: Option<String>,
    pub sse_kms_key_id: Option<String>,
}

/// The headers of a write in contracts.
pub ghost struct DestinationHeadersView {
    pub source_etag: Text,
    pub standard: StandardHeadersView,
    pub expires: Option<HttpInstant>,
    pub metadata: Seq<(Text, Text)>,
    pub storage_class: Option<Text>,
    pub bucket_owner_full_control: bool,
    pub checksum_algorithm: Option<Text>,
    pub sse: Option<Text>,
    pub sse_kms_key_id: Option<Text>,
}

impl DeepView for DestinationHeaders {
    type V = DestinationHeadersView;

    open spec fn deep_view(&self) -> DestinationHeadersView {
        DestinationHeadersView {
            source_etag: self.source_etag@,
            standard: self.standard.deep_view(),
            expires: self.expires,
            metadata: self.metadata.deep_view(),
            storage_class: optional_text(self.storage_class),
            bucket_owner_full_control: self.bucket_owner_full_control,
            checksum_algorithm: optional_text(self.checksum_algorithm),
            sse: optional_text(self.sse),
            sse_kms_key_id: optional_text(self.sse_kms_key_id),
        }
    }
}

/// A write that publishes or rewrites the destination: its headers, and the
/// serialized tags where tags are written with it (replacing what is there).
#[derive(Clone, Debug, PartialEq, Eq)]
pub struct WriteRequest {
    pub headers: DestinationHeaders,
    pub tagging: Option<String>,
}

/// A write in contracts.
pub ghost struct WriteRequestView {
    pub headers: DestinationHeadersView,
    pub tagging: Option<Text>,
}

impl DeepView for WriteRequest {
    type V = WriteRequestView;

    open spec fn deep_view(&self) -> WriteRequestView {
        WriteRequestView {
            headers: self.headers.deep_view(),
            tagging: optional_text(self.tagging),
        }
    }
}

/// The storage class that a write asks for: the override, else the source's
/// unless the storage class is left alone.
pub open spec fn written_storage_class(config: CopyConfigView, source: ObjectHeadView) -> Option<
    Text,
> {
    if config.storage_class_override is Some {
        config.storage_class_override
    } else if !config.skip_storage_class {
        source.storage_class
    } else {
        None
    }
}

/// The headers of a write, with the given instant for `Expires`.
pub open spec fn headers_with(
    config: CopyConfigView,
    source: ObjectHeadView,
    expires: Option<HttpInstant>,
) -> DestinationHeadersView {
    DestinationHeadersView {
        source_etag: unquoted(source.etag),
        standard: if config.skip_metadata {
            no_headers()
        } else {
            source.headers
        },
        expires: if config.skip_metadata {
            None
        } else {
            expires
        },
        metadata: if config.skip_metadata {
            Seq::empty()
        } else {
            metadata_without(source.metadata, tracking_key())
        },
        storage_class: written_storage_class(config, source),
        bucket_owner_full_control: config.full_control_acl && !config.skip_acl,
        checksum_algorithm: config.checksum_algorithm,
        sse: config.sse,
        sse_kms_key_id: config.sse_kms_key_id,
    }
}

/// The headers of a write: the source's entity tag without its quotes; the
/// source's standard headers, parsed expiry and custom metadata unless
/// metadata is skipped; the storage class; the ACL; and the configured
/// checksum algorithm and encryption.
pub open spec fn headers_of(config: CopyConfigView, source: ObjectHeadView) -> DestinationHeadersView {
    headers_with(config, source, expiry_of(source.expires))
}

/// Tags as the store takes them in a header: `k1=v1&k2=v2`.
pub open spec fn serialized_tags(tags: Seq<(Text, Text)>) -> Text
    decreases tags.len(),
{
    if tags.len() == 0 {
        Seq::empty()
    } else if tags.len() == 1 {
        tags[0].0 + seq!['='] + tags[0].1
    } else {
        serialized_tags(tags.drop_last()) + seq!['&'] + tags.last().0 + seq!['='] + tags.last().1
    }
}

/// The tags that a full copy writes: the source's, unless tags are skipped
/// or there are none.
pub open spec fn copy_tagging(config: CopyConfigView, source_tags: Option<Seq<(Text, Text)>>) -> Option<
    Text,
> {
    match source_tags {
        Some(tags) => if !config.skip_tags && tags.len() > 0 {
            Some(serialized_tags(tags))
        } else {
            None
        },
        None => None,
    }
}

/// The tags that a property sync writes: the source's, where the tag sets
/// differ and tags are not skipped. An empty tag set clears the destination's.
pub open spec fn sync_tagging(
    config: CopyConfigView,
    source_tags: Option<Seq<(Text, Text)>>,
    destination_tags: Option<Seq<(Text, Text)>>,
) -> Option<Text> {
    match source_tags {
        Some(tags) => if !config.skip_tags && source_tags != destination_tags {
            Some(serialized_tags(tags))
        } else {
            None
        },
        None => None,
    }
}

/// The write that copies an object in full.
pub open spec fn copy_request(
    config: CopyConfigView,
    source: ObjectHeadView,
    source_tags: Option<Seq<(Text, Text)>>,
) -> WriteRequestView {
    WriteRequestView {
        headers: headers_of(config, source),
        tagging: copy_tagging(config, source_tags),
    }
}

/// The write that brings the properties of a destination in line.
pub open spec fn sync_request(
    config: CopyConfigView,
    source: ObjectHeadView,
    source_tags: Option<Seq<(Text, Text)>>,
    destination_tags: Option<Seq<(Text, Text)>>,
) -> WriteRequestView {
    WriteRequestView {
        headers: headers_of(config, source),
        tagging: sync_tagging(config, source_tags, destination_tags),
    }
}

impl StandardHeaders {
    /// A copy of the headers.
    pub fn duplicate(&self) -> (copy: StandardHeaders)
        ensures
            copy.deep_view() == self.deep_view(),
    {
        StandardHeaders {
            cache_control: copy_optional_text(&self.cache_control),
            content_type: copy_optional_text(&self.content_type),
            content_disposition: copy_optional_text(&self.content_disposition),
            content_encoding: copy_optional_text(&self.content_encoding),
            content_language: copy_optional_text(&self.content_language),
            website_redirect_location: copy_optional_text(&self.website_redirect_location),
        }
    }
}

/// Builds the headers of a write, given the instant that the source's
/// `Expires` header denotes.
pub fn destination_headers_with(
    config: &CopyConfig,
    source: &ObjectHead,
    expires: Option<HttpInstant>,
) -> (headers: DestinationHeaders)
    ensures
        headers.deep_view() == headers_with(config.deep_view(), source.deep_view(), expires),
        source.well_formed() ==> has_unique_keys(headers.metadata.deep_view()),
{
    let storage_class = if config.storage_class_override.is_some() {
        copy_optional_text(&config.storage_class_override)
    } else if !config.skip_storage_class {
        copy_optional_text(&source.storage_class)
    } else {
        None
    };
    let metadata: Vec<MetadataEntry> = if config.skip_metadata {
        Vec::new()
    } else {
        untracked_metadata(&source.metadata)
    };
    let headers = DestinationHeaders {
        source_etag: trim_quotes(source.etag.as_str()),
        standard: if config.skip_metadata {
            StandardHeaders::empty()
        } else {
            source.headers.duplicate()
        },
        expires: if config.skip_metadata {
            None
        } else {
            expires
        },
        metadata,
        storage_class,
        bucket_owner_full_control: config.full_control_acl && !config.skip_acl,
        checksum_algorithm: copy_optional_text(&config.checksum_algorithm),
        sse: copy_optional_text(&config.sse),
        sse_kms_key_id: copy_optional_text(&config.sse_kms_key_id),
    };
    assert(headers.metadata.deep_view() =~= headers_with(
        config.deep_view(),
        source.deep_view(),
        expires,
    ).metadata);
    headers
}

/// Builds the headers of a write to the destination.
pub fn destination_headers(config: &CopyConfig, source: &ObjectHead) -> (headers: DestinationHeaders)
    ensures
        headers.deep_view() == headers_of(config.deep_view(), source.deep_view()),
{
    let expires = parse_expires(&source.expires);
    destination_headers_with(config, source, expires)
}

/// Serializes tags as `k1=v1&k2=v2`, in their order.
pub fn serialize_tags(tags: &Vec<Tag>) -> (text: String)
    ensures
        text@ == serialized_tags(tags.deep_view()),
{
    let mut text = String::new();
    let n: usize = tags.len();
    let mut i: usize = 0;
    let ghost all = tags.deep_view();
    assert(all.take(0).len() == 0);
    while i < n
        invariant
            i <= n,
            n == tags@.len(),
            all == tags.deep_view(),
            text@ == serialized_tags(all.take(i as int)),
        decreases n - i,
    {
        proof {
            reveal_strlit("&");
            reveal_strlit("=");
            assert(all.take(i + 1).drop_last() =~= all.take(i as int));
            assert(all.take(i + 1).last() == all[i as int]);
            assert(all[i as int] == (tags@[i as int].key@, tags@[i as int].value@));
        }
        let ghost before = text@;
        if i > 0 {
            text.append("&");
        }
        text.append(tags[i].key.as_str());
        text.append("=");
        text.append(tags[i].value.as_str());
        proof {
            let pair = all[i as int];
            if i == 0 {
                assert(before =~= Seq::<char>::empty());
                assert(text@ =~= pair.0 + seq!['='] + pair.1);
                assert(all.take(1)[0] == pair);
            } else {
                assert(text@ =~= before + seq!['&'] + pair.0 + seq!['='] + pair.1);
            }
        }
        i = i + 1;
    }
    assert(all.take(n as int) =~= all);
    text
}

/// The serialized tags that a full copy writes.
pub fn tagging_for_copy(config: &CopyConfig, source_tags: &Option<Vec<Tag>>) -> (tagging: Option<
    String,
>)
    ensures
        optional_text(tagging) == copy_tagging(config.deep_view(), optional_tags(*source_tags)),
{
    match source_tags {
        Some(tags) => {
            if !config.skip_tags && tags.len() > 0 {
                Some(serialize_tags(tags))
            } else {
                None
            }
        },
        None => None,
    }
}

/// The serialized tags that a property sync writes.
pub fn tagging_for_sync(
    config: &CopyConfig,
    source_tags: &Option<Vec<Tag>>,
    destination_tags: &Option<Vec<Tag>>,
) -> (tagging: Option<String>)
    ensures
        optional_text(tagging) == sync_tagging(
            config.deep_view(),
            optional_tags(*source_tags),
            optional_tags(*destination_tags),
        ),
{
    match source_tags {
        Some(tags) => {
            if !config.skip_tags && !same_optional_tags(source_tags, destination_tags) {
                Some(serialize_tags(tags))
            } else {
                None
            }
        },
        None => None,
    }
}

/// Builds the write that copies an object in full.
pub fn build_copy_request(
    config: &CopyConfig,
    source: &ObjectHead,
    source_tags: &Option<Vec<Tag>>,
) -> (request: WriteRequest)
    ensures
        request.deep_view() == copy_request(
            config.deep_view(),
            source.deep_view(),
            optional_tags(*source_tags),
        ),
{
    WriteRequest {
        headers: destination_headers(config, source),
        tagging: tagging_for_copy(config, source_tags),
    }
}

/// Builds the write that brings the properties of a destination in line.
pub fn build_sync_request(
    config: &CopyConfig,
    source: &ObjectHead,
    source_tags: &Option<Vec<Tag>>,
    destination_tags: &Option<Vec<Tag>>,
) -> (request: WriteRequest)
    ensures
        request.deep_view() == sync_request(
            config.deep_view(),
            source.deep_view(),
            optional_tags(*source_tags),
            optional_tags(*destination_tags),
        ),
{
    WriteRequest {
        headers: destination_headers(config, source),
        tagging: tagging_for_sync(config, source_tags, destination_tags),
    }
}

} // verus!
