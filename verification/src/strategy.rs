//! The strategy selector: whether the destination already holds the data, and
//! what is then left to do.

use vstd::prelude::*;
use crate::config::{CopyConfig, CopyConfigView};
use crate::errors::{CopyError, CopyErrorView};
use crate::headers::{headers_of, written_storage_class};
use crate::limits::SINGLE_COPY_CEILING;
use crate::object::{
    metadata_value, optional_head, optional_tags, same_optional_tags, tracking_key, ObjectHead,
    ObjectHeadView, Tag,
};
use crate::text::{same_optional_text, same_text, trim_quotes, unquoted, Text};

verus! {

/// How one copy is carried out.
#[derive(Copy, Clone, Debug, PartialEq, Eq, Structural)]
pub enum Strategy {
    /// The destination is identical in data and properties: nothing is written.
    Skip,
    /// The data is there, properties differ: one copy request rewrites them.
    PropertySync,
    /// The data is there and only the tags differ: one tagging request.
    TagSync,
    /// One copy request publishes the object.
    InstantCopy,
    /// A multipart upload publishes the object.
    MultipartCopy,
}

/// Whether the destination records the given entity tag as its source's,
/// quotes around either left aside.
pub open spec fn etag_recorded(destination: ObjectHeadView, source_etag: Text) -> bool {
    match metadata_value(destination.metadata, tracking_key()) {
        Some(recorded) => unquoted(recorded) == unquoted(source_etag),
        None => false,
    }
}

/// Whether the destination's entity tag speaks for the source's data: it is
/// the source's own, or the destination records the source's.
pub open spec fn etag_matches(source: ObjectHeadView, destination: ObjectHeadView) -> bool {
    destination.etag == source.etag || etag_recorded(destination, source.etag)
}

/// Whether the destination already holds the source's data.
pub open spec fn data_matches(source: ObjectHeadView, destination: ObjectHeadView) -> bool {
    destination.size == source.size && etag_matches(source, destination)
}

/// Whether the tag sets agree, or tags are left alone.
pub open spec fn tags_match(
    config: CopyConfigView,
    source_tags: Option<Seq<(Text, Text)>>,
    destination_tags: Option<Seq<(Text, Text)>>,
) -> bool {
    config.skip_tags || source_tags == destination_tags
}

/// Whether the destination has the storage class that a write would ask
/// for (the override, else the source's), or the storage class is left alone.
pub open spec fn storage_class_matches(
    config: CopyConfigView,
    source: ObjectHeadView,
    destination: ObjectHeadView,
) -> bool {
    config.skip_storage_class || destination.storage_class == written_storage_class(config, source)
}

/// Whether the standard headers agree, or metadata is left alone.
pub open spec fn metadata_matches(
    config: CopyConfigView,
    source: ObjectHeadView,
    destination: ObjectHeadView,
) -> bool {
    config.skip_metadata || (destination.headers == source.headers && destination.expires
        == source.expires)
}

/// What is left to do where the destination already holds the data; `None`
/// where the object has to be copied in full after all.
pub open spec fn reconciliation(
    config: CopyConfigView,
    source: ObjectHeadView,
    destination: ObjectHeadView,
    source_tags: Option<Seq<(Text, Text)>>,
    destination_tags: Option<Seq<(Text, Text)>>,
) -> Option<Strategy> {
    let tags = tags_match(config, source_tags, destination_tags);
    let class = storage_class_matches(config, source, destination);
    let metadata = metadata_matches(config, source, destination);
    if tags && class && metadata {
        Some(Strategy::Skip)
    } else if source.size <= SINGLE_COPY_CEILING {
        Some(Strategy::PropertySync)
    } else if !tags && class && metadata && source_tags is Some {
        Some(Strategy::TagSync)
    } else {
        None
    }
}

/// How an object is copied in full: not at all if it is empty, with one
/// request in auto mode under 5 GiB, else in parts.
pub open spec fn full_copy(config: CopyConfigView, source: ObjectHeadView) -> Result<
    Strategy,
    CopyErrorView,
> {
    if source.size <= 0 {
        Err(CopyErrorView::EmptySource)
    } else if config.auto_enabled && source.size < SINGLE_COPY_CEILING {
        Ok(Strategy::InstantCopy)
    } else {
        Ok(Strategy::MultipartCopy)
    }
}

/// Whether the destination is looked at in more detail: it exists, holds the
/// data, and the copy is not forced.
pub open spec fn reconcilable(
    config: CopyConfigView,
    source: ObjectHeadView,
    destination: Option<ObjectHeadView>,
) -> bool {
    !config.force_copy && match destination {
        Some(d) => data_matches(source, d),
        None => false,
    }
}

/// The strategy for a copy, from the two heads and the two tag sets.
pub open spec fn chosen_strategy(
    config: CopyConfigView,
    source: ObjectHeadView,
    destination: Option<ObjectHeadView>,
    source_tags: Option<Seq<(Text, Text)>>,
    destination_tags: Option<Seq<(Text, Text)>>,
) -> Result<Strategy, CopyErrorView> {
    if reconcilable(config, source, destination) {
        match reconciliation(config, source, destination->0, source_tags, destination_tags) {
            Some(strategy) => Ok(strategy),
            None => full_copy(config, source),
        }
    } else {
        full_copy(config, source)
    }
}

/// What a chosen strategy, or the error in its place, is in contracts.
pub open spec fn choice_view(choice: Result<Strategy, CopyError>) -> Result<Strategy, CopyErrorView> {
    match choice {
        Ok(strategy) => Ok(strategy),
        Err(e) => Err(e.deep_view()),
    }
}

/// Whether the destination records `source_etag` as the entity tag of the
/// object it was copied from.
pub fn records_source_etag(destination: &ObjectHead, source_etag: &str) -> (recorded: bool)
    ensures
        recorded == etag_recorded(destination.deep_view(), source_etag@),
{
    match destination.recorded_source_etag() {
        Some(value) => {
            let left = trim_quotes(value.as_str());
            let right = trim_quotes(source_etag);
            same_text(left.as_str(), right.as_str())
        },
        None => false,
    }
}

/// Whether the destination's entity tag is the source's, or records it.
pub fn has_matching_etag(source: &ObjectHead, destination: &ObjectHead) -> (matches: bool)
    ensures
        matches == etag_matches(source.deep_view(), destination.deep_view()),
{
    same_text(destination.etag.as_str(), source.etag.as_str()) || records_source_etag(
        destination,
        source.etag.as_str(),
    )
}

/// Whether the destination already holds the source's data: same size, and
/// an entity tag that speaks for the source.
pub fn has_matching_data(source: &ObjectHead, destination: &ObjectHead) -> (matches: bool)
    ensures
        matches == data_matches(source.deep_view(), destination.deep_view()),
{
    destination.size == source.size && has_matching_etag(source, destination)
}

/// What is left to do on a destination that already holds the data.
pub fn reconcile(
    config: &CopyConfig,
    source: &ObjectHead,
    destination: &ObjectHead,
    source_tags: &Option<Vec<Tag>>,
    destination_tags: &Option<Vec<Tag>>,
) -> (strategy: Option<Strategy>)
    ensures
        strategy == reconciliation(
            config.deep_view(),
            source.deep_view(),
            destination.deep_view(),
            optional_tags(*source_tags),
            optional_tags(*destination_tags),
        ),
{
    let tags = config.skip_tags || same_optional_tags(source_tags, destination_tags);
    let class = config.skip_storage_class || if config.storage_class_override.is_some() {
        same_optional_text(&destination.storage_class, &config.storage_class_override)
    } else {
        same_optional_text(&destination.storage_class, &source.storage_class)
    };
    let metadata = config.skip_metadata || (destination.headers.same_as(&source.headers)
        && same_optional_text(&destination.expires, &source.expires));
    if tags && class && metadata {
        Some(Strategy::Skip)
    } else if source.size <= SINGLE_COPY_CEILING {
        Some(Strategy::PropertySync)
    } else if !tags && class && metadata && source_tags.is_some() {
        Some(Strategy::TagSync)
    } else {
        None
    }
}

/// How an object is copied in full.
pub fn plan_full_copy(config: &CopyConfig, source: &ObjectHead) -> (strategy: Result<
    Strategy,
    CopyError,
>)
    ensures
        choice_view(strategy) == full_copy(config.deep_view(), source.deep_view()),
{
    if source.size <= 0 {
        Err(CopyError::EmptySource)
    } else if config.auto_enabled && source.size < SINGLE_COPY_CEILING {
        Ok(Strategy::InstantCopy)
    } else {
        Ok(Strategy::MultipartCopy)
    }
}

/// The strategy for a copy. The tag sets matter only where the destination
/// exists and holds the data, and the copy is not forced.
pub fn select_strategy(
    config: &CopyConfig,
    source: &ObjectHead,
    destination: &Option<ObjectHead>,
    source_tags: &Option<Vec<Tag>>,
    destination_tags: &Option<Vec<Tag>>,
) -> (strategy: Result<Strategy, CopyError>)
    ensures
        choice_view(strategy) == chosen_strategy(
            config.deep_view(),
            source.deep_view(),
            optional_head(*destination),
            optional_tags(*source_tags),
            optional_tags(*destination_tags),
        ),
{
    if !config.force_copy {
        match destination {
            Some(found) => {
                if has_matching_data(source, found) {
                    match reconcile(config, source, found, source_tags, destination_tags) {
                        Some(strategy) => {
                            return Ok(strategy);
                        },
                        None => {},
                    }
                }
            },
            None => {},
        }
    }
    plan_full_copy(config, source)
}

/// A destination that holds the data, with equal tags, the storage class
/// that a write would ask for (the source's own where none is configured)
/// and equal headers, is left untouched, whatever the object's size, unless
/// the copy is forced.
pub proof fn lemma_identical_destination_is_skipped(
    config: CopyConfigView,
    source: ObjectHeadView,
    destination: ObjectHeadView,
    source_tags: Option<Seq<(Text, Text)>>,
    destination_tags: Option<Seq<(Text, Text)>>,
)
    requires
        !config.force_copy,
        data_matches(source, destination),
        tags_match(config, source_tags, destination_tags),
        storage_class_matches(config, source, destination),
        metadata_matches(config, source, destination),
    ensures
        chosen_strategy(config, source, Some(destination), source_tags, destination_tags) == Ok::<
            Strategy,
            CopyErrorView,
        >(Strategy::Skip),
{
}

/// A full copy is made with one request exactly in auto
/// mode and under 5 GiB.
pub proof fn lemma_instant_copy_gate(config: CopyConfigView, source: ObjectHeadView)
    requires
        source.size > 0,
    ensures
        (full_copy(config, source) == Ok::<Strategy, CopyErrorView>(Strategy::InstantCopy)) == (
        config.auto_enabled && source.size < SINGLE_COPY_CEILING),
{
}

/// What a copy records is found again: a destination whose metadata holds
/// the source's entity tag without its quotes under the tracking key, as
/// every write of the engine records it, is taken to hold the source's data
/// as long as the sizes agree, whatever entity tag the store gave it.
pub proof fn lemma_recorded_etag_is_recognized(source: ObjectHeadView, destination: ObjectHeadView)
    requires
        destination.size == source.size,
        exists|i: int|
            0 <= i < destination.metadata.len() && (#[trigger] destination.metadata[i]).0
                == tracking_key(),
        forall|i: int|
            0 <= i < destination.metadata.len() && (#[trigger] destination.metadata[i]).0
                == tracking_key() ==> destination.metadata[i].1 == unquoted(source.etag),
    ensures
        etag_recorded(destination, source.etag),
        data_matches(source, destination),
{
    crate::object::lemma_only_value_is_found(
        destination.metadata,
        tracking_key(),
        unquoted(source.etag),
    );
    crate::text::lemma_unquoted_is_stable(source.etag);
}

/// Equal storage classes match where no other class is configured, and the
/// class that a write asks for matches in any case: so what one run writes,
/// the next run finds in place.
pub proof fn lemma_written_storage_class_matches(
    config: CopyConfigView,
    source: ObjectHeadView,
    destination: ObjectHeadView,
)
    ensures
        config.storage_class_override is None && destination.storage_class == source.storage_class
            ==> storage_class_matches(config, source, destination),
        destination.storage_class == headers_of(config, source).storage_class
            ==> storage_class_matches(config, source, destination),
{
}

} // verus!
