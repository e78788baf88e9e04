//! What the engine knows of a stored object: where it is, what a HEAD request
//! tells of it, and its tags.

use vstd::prelude::*;
use crate::text::{copy_text, optional_text, same_optional_text, same_text, Text};

verus! {

/// A stored object's address.
#[derive(Clone, Debug, PartialEq, Eq)]
pub struct ObjectRef {
    pub bucket: String,
    pub key: String,
}

/// One tag of an object.
#[derive(Clone, Debug, PartialEq, Eq)]
pub struct Tag {
    pub key: String,
    pub value: String,
}

impl DeepView for Tag {
    type V = (Text, Text);

    open spec fn deep_view(&self) -> (Text, Text) {
        (self.key@, self.value@)
    }
}

/// One entry of an object's user-defined metadata.
#[derive(Clone, Debug, PartialEq, Eq)]
pub struct MetadataEntry {
    pub key: String,
    pub value: String,
}

impl DeepView for MetadataEntry {
    type V = (Text, Text);

    open spec fn deep_view(&self) -> (Text, Text) {
        (self.key@, self.value@)
    }
}

/// The standard text headers that a copy carries over.
#[derive(Clone, Debug, PartialEq, Eq)]
pub struct StandardHeaders {
    pub cache_control: Option<String>,
    pub content_type: Option<String>,
    pub content_disposition: Option<String>,
    pub content_encoding: Option<String>,
    pub content_language: Option<String>,
    pub website_redirect_location: Option<String>,
}

/// The standard headers in contracts.
pub ghost struct StandardHeadersView {
    pub cache_control: Option<Text>,
    pub content_type: Option<Text>,
    pub content_disposition: Option<Text>,
    pub content_encoding: Option<Text>,
    pub content_language: Option<Text>,
    pub website_redirect_location: Option<Text>,
}

impl DeepView for StandardHeaders {
    type V = StandardHeadersView;

    open spec fn deep_view(&self) -> StandardHeadersView {
        StandardHeadersView {
            cache_control: optional_text(self.cache_control),
            content_type: optional_text(self.content_type),
            content_disposition: optional_text(self.content_disposition),
            content_encoding: optional_text(self.content_encoding),
            content_language: optional_text(self.content_language),
            website_redirect_location: optional_text(self.website_redirect_location),
        }
    }
}

/// The checksums that a HEAD request may advertise, one per algorithm.
#[derive(Clone, Debug, PartialEq, Eq)]
pub struct Checksums {
    pub crc32: Option<String>,
    pub crc32c: Option<String>,
    pub sha1: Option<String>,
    pub sha256: Option<String>,
}

/// The checksums in contracts.
pub ghost struct ChecksumsView {
    pub crc32: Option<Text>,
    pub crc32c: Option<Text>,
    pub sha1: Option<Text>,
    pub sha256: Option<Text>,
}

impl DeepView for Checksums {
    type V = ChecksumsView;

    open spec fn deep_view(&self) -> ChecksumsView {
        ChecksumsView {
            crc32: optional_text(self.crc32),
            crc32c: optional_text(self.crc32c),
            sha1: optional_text(self.sha1),
            sha256: optional_text(self.sha256),
        }
    }
}

/// What a HEAD request tells of an object. An object without an entity tag
/// has the empty text for it; one without a length has size 0. `expires` is
/// the header as the store sent it. The user-defined metadata is a list of
/// entries in which no key occurs twice (`well_formed`), so that a key has one
/// value whatever the order of the entries.
#[derive(Clone, Debug, PartialEq, Eq)]
pub struct ObjectHead {
    pub size: i64,
    pub etag: String,
    pub storage_class: Option<String>,
    pub headers: StandardHeaders,
    pub expires: Option<String>,
    pub metadata: Vec<MetadataEntry>,
    pub checksums: Checksums,
}

/// An object's head in contracts.
pub ghost struct ObjectHeadView {
    pub size: i64,
    pub etag: Text,
    pub storage_class: Option<Text>,
    pub headers: StandardHeadersView,
    pub expires: Option<Text>,
    pub metadata: Seq<(Text, Text)>,
    pub checksums: ChecksumsView,
}

impl DeepView for ObjectHead {
    type V = ObjectHeadView;

    open spec fn deep_view(&self) -> ObjectHeadView {
        ObjectHeadView {
            size: self.size,
            etag: self.etag@,
            storage_class: optional_text(self.storage_class),
            headers: self.headers.deep_view(),
            expires: optional_text(self.expires),
            metadata: self.metadata.deep_view(),
            checksums: self.checksums.deep_view(),
        }
    }
}

/// What an optional head is in contracts.
pub open spec fn optional_head(head: Option<ObjectHead>) -> Option<ObjectHeadView> {
    match head {
        Some(h) => Some(h.deep_view()),
        None => None,
    }
}

/// What an optional tag set is in contracts.
pub open spec fn optional_tags(tags: Option<Vec<Tag>>) -> Option<Seq<(Text, Text)>> {
    match tags {
        Some(t) => Some(t.deep_view()),
        None => None,
    }
}

/// The metadata key under which a copy records its source's entity tag.
pub open spec fn tracking_key() -> Text {
    "source-etag"@
}

/// The value of the first entry with the given key.
pub open spec fn metadata_value(entries: Seq<(Text, Text)>, key: Text) -> Option<Text>
    decreases entries.len(),
{
    if entries.len() == 0 {
        None
    } else if entries[0].0 == key {
        Some(entries[0].1)
    } else {
        metadata_value(entries.drop_first(), key)
    }
}

/// The entries whose key is not the given one, in their order.
pub open spec fn metadata_without(entries: Seq<(Text, Text)>, key: Text) -> Seq<(Text, Text)>
    decreases entries.len(),
{
    if entries.len() == 0 {
        Seq::empty()
    } else if entries.last().0 == key {
        metadata_without(entries.drop_last(), key)
    } else {
        metadata_without(entries.drop_last(), key).push(entries.last())
    }
}

/// No entry that `metadata_without` keeps has the key that it drops.
pub proof fn lemma_metadata_without_has_no_key(entries: Seq<(Text, Text)>, key: Text)
    ensures
        forall|i: int|
            0 <= i < metadata_without(entries, key).len() ==> (#[trigger] metadata_without(
                entries,
                key,
            )[i]).0 != key,
        metadata_value(metadata_without(entries, key), key) is None,
    decreases entries.len(),
{
    if entries.len() > 0 {
        lemma_metadata_without_has_no_key(entries.drop_last(), key);
    }
    lemma_absent_key_has_no_value(metadata_without(entries, key), key);
}

/// A key that no entry has gives no value.
pub proof fn lemma_absent_key_has_no_value(entries: Seq<(Text, Text)>, key: Text)
    requires
        forall|i: int| 0 <= i < entries.len() ==> (#[trigger] entries[i]).0 != key,
    ensures
        metadata_value(entries, key) is None,
    decreases entries.len(),
{
    if entries.len() > 0 {
        assert(entries[0].0 != key);
        let rest = entries.drop_first();
        assert forall|i: int| 0 <= i < rest.len() implies (#[trigger] rest[i]).0 != key by {
            assert(rest[i] == entries[i + 1]);
        }
        lemma_absent_key_has_no_value(rest, key);
    }
}

/// No standard header at all.
pub open spec fn no_headers() -> StandardHeadersView {
    StandardHeadersView {
        cache_control: None,
        content_type: None,
        content_disposition: None,
        content_encoding: None,
        content_language: None,
        website_redirect_location: None,
    }
}

/// No checksum at all.
pub open spec fn no_checksums() -> ChecksumsView {
    ChecksumsView { crc32: None, crc32c: None, sha1: None, sha256: None }
}

/// A key whose entries all hold the same value gives that value.
pub proof fn lemma_only_value_is_found(entries: Seq<(Text, Text)>, key: Text, value: Text)
    requires
        exists|i: int| 0 <= i < entries.len() && (#[trigger] entries[i]).0 == key,
        forall|i: int|
            0 <= i < entries.len() && (#[trigger] entries[i]).0 == key ==> entries[i].1 == value,
    ensures
        metadata_value(entries, key) == Some(value),
    decreases entries.len(),
{
    if entries[0].0 != key {
        let rest = entries.drop_first();
        let found = choose|i: int| 0 <= i < entries.len() && (#[trigger] entries[i]).0 == key;
        assert(rest[found - 1] == entries[found]);
        assert forall|i: int| 0 <= i < rest.len() && (#[trigger] rest[i]).0 == key implies rest[i].1
            == value by {
            assert(rest[i] == entries[i + 1]);
        }
        lemma_only_value_is_found(rest, key, value);
    }
}

/// Whether no key occurs twice among the entries.
pub open spec fn has_unique_keys(entries: Seq<(Text, Text)>) -> bool {
    forall|i: int, j: int|
        0 <= i < j < entries.len() ==> (#[trigger] entries[i]).0 != (#[trigger] entries[j]).0
}

/// Among entries with unique keys, a key gives the value of its entry,
/// wherever the entry stands.
pub proof fn lemma_unique_key_has_its_value(entries: Seq<(Text, Text)>, i: int)
    requires
        has_unique_keys(entries),
        0 <= i < entries.len(),
    ensures
        metadata_value(entries, entries[i].0) == Some(entries[i].1),
{
    assert forall|j: int|
        0 <= j < entries.len() && (#[trigger] entries[j]).0 == entries[i].0 implies entries[j].1
        == entries[i].1 by {
        if j < i {
            assert(entries[j].0 != entries[i].0);
        } else if i < j {
            assert(entries[i].0 != entries[j].0);
        }
    }
    lemma_only_value_is_found(entries, entries[i].0, entries[i].1);
}

/// Every entry that `metadata_without` keeps is one of the entries given.
pub proof fn lemma_metadata_without_keeps_entries(entries: Seq<(Text, Text)>, key: Text)
    ensures
        forall|i: int|
            0 <= i < metadata_without(entries, key).len() ==> entries.contains(
                #[trigger] metadata_without(entries, key)[i],
            ),
    decreases entries.len(),
{
    if entries.len() > 0 {
        let rest = entries.drop_last();
        lemma_metadata_without_keeps_entries(rest, key);
        let kept = metadata_without(entries, key);
        assert forall|i: int| 0 <= i < kept.len() implies entries.contains(#[trigger] kept[i]) by {
            if i < metadata_without(rest, key).len() {
                let entry = metadata_without(rest, key)[i];
                assert(rest.contains(entry));
                let j = choose|j: int| 0 <= j < rest.len() && rest[j] == entry;
                assert(entries[j] == entry);
            } else {
                assert(kept[i] == entries.last());
                assert(entries[entries.len() - 1] == kept[i]);
            }
        }
    }
}

/// Leaving out a key keeps the keys of the other entries unique.
pub proof fn lemma_metadata_without_keeps_keys_unique(entries: Seq<(Text, Text)>, key: Text)
    requires
        has_unique_keys(entries),
    ensures
        has_unique_keys(metadata_without(entries, key)),
    decreases entries.len(),
{
    if entries.len() > 0 {
        let rest = entries.drop_last();
        assert(has_unique_keys(rest)) by {
            assert forall|i: int, j: int| 0 <= i < j < rest.len() implies (#[trigger] rest[i]).0 != (
            #[trigger] rest[j]).0 by {
                assert(rest[i] == entries[i] && rest[j] == entries[j]);
            }
        }
        lemma_metadata_without_keeps_keys_unique(rest, key);
        lemma_metadata_without_keeps_entries(rest, key);
        let before = metadata_without(rest, key);
        let kept = metadata_without(entries, key);
        assert forall|i: int, j: int| 0 <= i < j < kept.len() implies (#[trigger] kept[i]).0 != (
        #[trigger] kept[j]).0 by {
            if j < before.len() {
                assert(kept[i] == before[i] && kept[j] == before[j]);
            } else {
                assert(kept[i] == before[i]);
                assert(rest.contains(before[i]));
                let at = choose|at: int| 0 <= at < rest.len() && rest[at] == before[i];
                assert(entries[at] == before[i]);
                assert(entries[at].0 != entries[entries.len() - 1].0);
            }
        }
    }
}

impl StandardHeaders {
    /// No header at all.
    pub fn empty() -> (headers: Self)
        ensures
            headers.deep_view() == no_headers(),
    {
        StandardHeaders {
            cache_control: None,
            content_type: None,
            content_disposition: None,
            content_encoding: None,
            content_language: None,
            website_redirect_location: None,
        }
    }

    /// Whether two objects have the same standard headers.
    pub fn same_as(&self, other: &StandardHeaders) -> (same: bool)
        ensures
            same == (self.deep_view() == other.deep_view()),
    {
        same_optional_text(&self.cache_control, &other.cache_control) && same_optional_text(
            &self.content_type,
            &other.content_type,
        ) && same_optional_text(&self.content_disposition, &other.content_disposition)
            && same_optional_text(&self.content_encoding, &other.content_encoding)
            && same_optional_text(&self.content_language, &other.content_language)
            && same_optional_text(
            &self.website_redirect_location,
            &other.website_redirect_location,
        )
    }
}

impl Checksums {
    /// No checksum at all.
    pub fn none() -> (checksums: Self)
        ensures
            checksums.deep_view() == no_checksums(),
    {
        Checksums { crc32: None, crc32c: None, sha1: None, sha256: None }
    }
}

impl ObjectHead {
    /// Whether no key occurs twice in the user-defined metadata.
    pub open spec fn well_formed(&self) -> bool {
        has_unique_keys(self.metadata.deep_view())
    }

    /// Tests at run time whether no key occurs twice in the metadata.
    pub fn is_well_formed(&self) -> (ok: bool)
        ensures
            ok == self.well_formed(),
    {
        let n: usize = self.metadata.len();
        let ghost entries = self.metadata.deep_view();
        let mut j: usize = 0;
        while j < n
            invariant
                j <= n,
                n == self.metadata@.len(),
                entries == self.metadata.deep_view(),
                forall|a: int, b: int|
                    0 <= a < b < j ==> (#[trigger] entries[a]).0 != (#[trigger] entries[b]).0,
            decreases n - j,
        {
            let mut i: usize = 0;
            while i < j
                invariant
                    i <= j,
                    j < n,
                    n == self.metadata@.len(),
                    entries == self.metadata.deep_view(),
                    forall|a: int| 0 <= a < i ==> (#[trigger] entries[a]).0 != entries[j as int].0,
                decreases j - i,
            {
                if same_text(self.metadata[i].key.as_str(), self.metadata[j].key.as_str()) {
                    assert(entries[i as int].0 == entries[j as int].0);
                    return false;
                }
                i = i + 1;
            }
            j = j + 1;
        }
        true
    }

    /// The head of an object of which only size and entity tag are known.
    pub fn bare(size: i64, etag: String) -> (head: Self)
        ensures
            head.size == size,
            head.etag@ == etag@,
            head.storage_class is None,
            head.headers.deep_view() == no_headers(),
            head.expires is None,
            head.metadata@.len() == 0,
            head.well_formed(),
            head.checksums.deep_view() == no_checksums(),
    {
        ObjectHead {
            size,
            etag,
            storage_class: None,
            headers: StandardHeaders::empty(),
            expires: None,
            metadata: Vec::new(),
            checksums: Checksums::none(),
        }
    }

    /// The source entity tag that an earlier copy recorded on this object.
    pub fn recorded_source_etag(&self) -> (recorded: Option<String>)
        ensures
            optional_text(recorded) == metadata_value(self.metadata.deep_view(), tracking_key()),
    {
        let n: usize = self.metadata.len();
        let mut i: usize = 0;
        let ghost entries = self.metadata.deep_view();
        assert(entries.subrange(0, n as int) =~= entries);
        while i < n
            invariant
                i <= n,
                n == self.metadata@.len(),
                entries == self.metadata.deep_view(),
                metadata_value(entries, tracking_key()) == metadata_value(
                    entries.subrange(i as int, n as int),
                    tracking_key(),
                ),
            decreases n - i,
        {
            let ghost rest = entries.subrange(i as int, n as int);
            assert(rest[0] == entries[i as int]);
            assert(rest.drop_first() =~= entries.subrange(i + 1, n as int));
            if same_text(self.metadata[i].key.as_str(), "source-etag") {
                return Some(copy_text(&self.metadata[i].value));
            }
            i = i + 1;
        }
        None
    }
}

/// Copies the entries whose key is not the tracking key.
pub fn untracked_metadata(entries: &Vec<MetadataEntry>) -> (kept: Vec<MetadataEntry>)
    ensures
        kept.deep_view() == metadata_without(entries.deep_view(), tracking_key()),
        has_unique_keys(entries.deep_view()) ==> has_unique_keys(kept.deep_view()),
{
    proof {
        if has_unique_keys(entries.deep_view()) {
            lemma_metadata_without_keeps_keys_unique(entries.deep_view(), tracking_key());
        }
    }
    let mut kept: Vec<MetadataEntry> = Vec::new();
    let n: usize = entries.len();
    let mut i: usize = 0;
    let ghost all = entries.deep_view();
    assert(kept.deep_view() =~= metadata_without(all.take(0), tracking_key()));
    while i < n
        invariant
            i <= n,
            n == entries@.len(),
            all == entries.deep_view(),
            kept.deep_view() == metadata_without(all.take(i as int), tracking_key()),
        decreases n - i,
    {
        let ghost before = kept.deep_view();
        assert(all.take(i + 1).drop_last() =~= all.take(i as int));
        assert(all.take(i + 1).last() == all[i as int]);
        if !same_text(entries[i].key.as_str(), "source-etag") {
            let entry = MetadataEntry {
                key: copy_text(&entries[i].key),
                value: copy_text(&entries[i].value),
            };
            kept.push(entry);
            assert(kept.deep_view() =~= before.push(all[i as int]));
        }
        i = i + 1;
    }
    assert(all.take(n as int) =~= all);
    kept
}

/// Whether two tag sets hold the same tags in the same order.
pub fn same_tags(left: &Vec<Tag>, right: &Vec<Tag>) -> (same: bool)
    ensures
        same == (left.deep_view() == right.deep_view()),
{
    if left.len() != right.len() {
        assert(left.deep_view().len() != right.deep_view().len());
        return false;
    }
    let n: usize = left.len();
    let mut i: usize = 0;
    while i < n
        invariant
            i <= n,
            n == left@.len(),
            n == right@.len(),
            forall|j: int| 0 <= j < i ==> left.deep_view()[j] == right.deep_view()[j],
        decreases n - i,
    {
        if !same_text(left[i].key.as_str(), right[i].key.as_str()) || !same_text(
            left[i].value.as_str(),
            right[i].value.as_str(),
        ) {
            assert(left.deep_view()[i as int] != right.deep_view()[i as int]);
            return false;
        }
        i = i + 1;
    }
    assert(left.deep_view() =~= right.deep_view());
    true
}

/// Whether two optional tag sets are both absent or hold the same tags.
pub fn same_optional_tags(left: &Option<Vec<Tag>>, right: &Option<Vec<Tag>>) -> (same: bool)
    ensures
        same == (optional_tags(*left) == optional_tags(*right)),
{
    match (left, right) {
        (Some(l), Some(r)) => same_tags(l, r),
        (None, None) => true,
        _ => false,
    }
}

/// Copies a tag set.
pub fn copy_tags(tags: &Vec<Tag>) -> (copy: Vec<Tag>)
    ensures
        copy.deep_view() == tags.deep_view(),
{
    let mut copy: Vec<Tag> = Vec::new();
    let n: usize = tags.len();
    let mut i: usize = 0;
    while i < n
        invariant
            i <= n,
            n == tags@.len(),
            copy@.len() == i,
            forall|j: int| 0 <= j < i ==> copy.deep_view()[j] == tags.deep_view()[j],
        decreases n - i,
    {
        copy.push(Tag { key: copy_text(&tags[i].key), value: copy_text(&tags[i].value) });
        i = i + 1;
    }
    assert(copy.deep_view() =~= tags.deep_view());
    copy
}

} // verus!
