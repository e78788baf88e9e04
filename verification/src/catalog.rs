//! The names under which the provider's price list files its entries: where
//! a region is, and which volume type, storage class and request group a
//! storage class of the store falls under.

use vstd::prelude::*;
use vstd::string::StringExecFns;
use crate::text::{same_text, text_from, Text};

verus! {

/// The price list's location of a region; an unknown region counts as
/// US East (N. Virginia).
pub open spec fn location_of(region: Text) -> Text {
    if region == "us-east-1"@ {
        "US East (N. Virginia)"@
    } else if region == "us-east-2"@ {
        "US East (Ohio)"@
    } else if region == "us-west-1"@ {
        "US West (N. California)"@
    } else if region == "us-west-2"@ {
        "US West (Oregon)"@
    } else if region == "af-south-1"@ {
        "Africa (Cape Town)"@
    } else if region == "ap-east-1"@ {
        "Asia Pacific (Hong Kong)"@
    } else if region == "ap-east-2"@ {
        "Asia Pacific (Taipei)"@
    } else if region == "ap-south-1"@ {
        "Asia Pacific (Mumbai)"@
    } else if region == "ap-south-2"@ {
        "Asia Pacific (Hyderabad)"@
    } else if region == "ap-northeast-3"@ {
        "Asia Pacific (Osaka)"@
    } else if region == "ap-northeast-2"@ {
        "Asia Pacific (Seoul)"@
    } else if region == "ap-southeast-1"@ {
        "Asia Pacific (Singapore)"@
    } else if region == "ap-southeast-2"@ {
        "Asia Pacific (Sydney)"@
    } else if region == "ap-southeast-3"@ {
        "Asia Pacific (Jakarta)"@
    } else if region == "ap-southeast-4"@ {
        "Asia Pacific (Melbourne)"@
    } else if region == "ap-southeast-5"@ {
        "Asia Pacific (Malaysia)"@
    } else if region == "ap-southeast-6"@ {
        "Asia Pacific (New Zealand)"@
    } else if region == "ap-southeast-7"@ {
        "Asia Pacific (Thailand)"@
    } else if region == "ap-northeast-1"@ {
        "Asia Pacific (Tokyo)"@
    } else if region == "ca-central-1"@ {
        "Canada (Central)"@
    } else if region == "ca-west-1"@ {
        "Canada West (Calgary)"@
    } else if region == "eu-central-1"@ {
        "EU (Frankfurt)"@
    } else if region == "eu-central-2"@ {
        "Europe (Zurich)"@
    } else if region == "eu-west-1"@ {
        "EU (Ireland)"@
    } else if region == "eu-west-2"@ {
        "EU (London)"@
    } else if region == "eu-west-3"@ {
        "EU (Paris)"@
    } else if region == "eu-north-1"@ {
        "EU (Stockholm)"@
    } else if region == "eu-south-1"@ {
        "EU (Milan)"@
    } else if region == "eu-south-2"@ {
        "Europe (Spain)"@
    } else if region == "il-central-1"@ {
        "Israel (Tel Aviv)"@
    } else if region == "me-central-1"@ {
        "Middle East (UAE)"@
    } else if region == "me-south-1"@ {
        "Middle East (Bahrain)"@
    } else if region == "mx-central-1"@ {
        "Mexico (Central)"@
    } else if region == "sa-east-1"@ {
        "South America (Sao Paulo)"@
    } else {
        "US East (N. Virginia)"@
    }
}

/// Maps a region id to the location name that the price list uses.
pub fn region_to_location(region: &str) -> (name: &'static str)
    ensures
        name@ == location_of(region@),
{
    if same_text(region, "us-east-1") {
        "US East (N. Virginia)"
    } else if same_text(region, "us-east-2") {
        "US East (Ohio)"
    } else if same_text(region, "us-west-1") {
        "US West (N. California)"
    } else if same_text(region, "us-west-2") {
        "US West (Oregon)"
    } else if same_text(region, "af-south-1") {
        "Africa (Cape Town)"
    } else if same_text(region, "ap-east-1") {
        "Asia Pacific (Hong Kong)"
    } else if same_text(region, "ap-east-2") {
        "Asia Pacific (Taipei)"
    } else if same_text(region, "ap-south-1") {
        "Asia Pacific (Mumbai)"
    } else if same_text(region, "ap-south-2") {
        "Asia Pacific (Hyderabad)"
    } else if same_text(region, "ap-northeast-3") {
        "Asia Pacific (Osaka)"
    } else if same_text(region, "ap-northeast-2") {
        "Asia Pacific (Seoul)"
    } else if same_text(region, "ap-southeast-1") {
        "Asia Pacific (Singapore)"
    } else if same_text(region, "ap-southeast-2") {
        "Asia Pacific (Sydney)"
    } else if same_text(region, "ap-southeast-3") {
        "Asia Pacific (Jakarta)"
    } else if same_text(region, "ap-southeast-4") {
        "Asia Pacific (Melbourne)"
    } else if same_text(region, "ap-southeast-5") {
        "Asia Pacific (Malaysia)"
    } else if same_text(region, "ap-southeast-6") {
        "Asia Pacific (New Zealand)"
    } else if same_text(region, "ap-southeast-7") {
        "Asia Pacific (Thailand)"
    } else if same_text(region, "ap-northeast-1") {
        "Asia Pacific (Tokyo)"
    } else if same_text(region, "ca-central-1") {
        "Canada (Central)"
    } else if same_text(region, "ca-west-1") {
        "Canada West (Calgary)"
    } else if same_text(region, "eu-central-1") {
        "EU (Frankfurt)"
    } else if same_text(region, "eu-central-2") {
        "Europe (Zurich)"
    } else if same_text(region, "eu-west-1") {
        "EU (Ireland)"
    } else if same_text(region, "eu-west-2") {
        "EU (London)"
    } else if same_text(region, "eu-west-3") {
        "EU (Paris)"
    } else if same_text(region, "eu-north-1") {
        "EU (Stockholm)"
    } else if same_text(region, "eu-south-1") {
        "EU (Milan)"
    } else if same_text(region, "eu-south-2") {
        "Europe (Spain)"
    } else if same_text(region, "il-central-1") {
        "Israel (Tel Aviv)"
    } else if same_text(region, "me-central-1") {
        "Middle East (UAE)"
    } else if same_text(region, "me-south-1") {
        "Middle East (Bahrain)"
    } else if same_text(region, "mx-central-1") {
        "Mexico (Central)"
    } else if same_text(region, "sa-east-1") {
        "South America (Sao Paulo)"
    } else {
        "US East (N. Virginia)"
    }
}

/// The price list's volume type of a storage class; an unknown class
/// counts as Standard.
pub open spec fn volume_type_of(storage_class: Text) -> Text {
    if storage_class == "STANDARD"@ {
        "Standard"@
    } else if storage_class == "STANDARD_IA"@ {
        "Standard - Infrequent Access"@
    } else if storage_class == "ONEZONE_IA"@ {
        "One Zone - Infrequent Access"@
    } else if storage_class == "INTELLIGENT_TIERING"@ {
        "Intelligent-Tiering"@
    } else if storage_class == "GLACIER"@ || storage_class == "GLACIER_FLEXIBLE_RETRIEVAL"@ {
        "Amazon Glacier"@
    } else if storage_class == "DEEP_ARCHIVE"@ {
        "Glacier Deep Archive"@
    } else if storage_class == "GLACIER_IR"@ || storage_class == "GLACIER_INSTANT_RETRIEVAL"@ {
        "Glacier Instant Retrieval"@
    } else if storage_class == "EXPRESS_ONEZONE"@ {
        "Express One Zone"@
    } else if storage_class == "REDUCED_REDUNDANCY"@ {
        "Reduced Redundancy"@
    } else {
        "Standard"@
    }
}

/// Maps a storage class to the volume type that the price list uses.
pub fn storage_class_to_volume_type(storage_class: &str) -> (name: &'static str)
    ensures
        name@ == volume_type_of(storage_class@),
{
    if same_text(storage_class, "STANDARD") {
        "Standard"
    } else if same_text(storage_class, "STANDARD_IA") {
        "Standard - Infrequent Access"
    } else if same_text(storage_class, "ONEZONE_IA") {
        "One Zone - Infrequent Access"
    } else if same_text(storage_class, "INTELLIGENT_TIERING") {
        "Intelligent-Tiering"
    } else if same_text(storage_class, "GLACIER")
        || same_text(storage_class, "GLACIER_FLEXIBLE_RETRIEVAL") {
        "Amazon Glacier"
    } else if same_text(storage_class, "DEEP_ARCHIVE") {
        "Glacier Deep Archive"
    } else if same_text(storage_class, "GLACIER_IR")
        || same_text(storage_class, "GLACIER_INSTANT_RETRIEVAL") {
        "Glacier Instant Retrieval"
    } else if same_text(storage_class, "EXPRESS_ONEZONE") {
        "Express One Zone"
    } else if same_text(storage_class, "REDUCED_REDUNDANCY") {
        "Reduced Redundancy"
    } else {
        "Standard"
    }
}

/// The price list's storage class filter of a storage class; an unknown
/// class counts as General Purpose.
pub open spec fn storage_filter_of(storage_class: Text) -> Text {
    if storage_class == "STANDARD"@ {
        "General Purpose"@
    } else if storage_class == "STANDARD_IA"@ || storage_class == "ONEZONE_IA"@ {
        "Infrequent Access"@
    } else if storage_class == "INTELLIGENT_TIERING"@ {
        "Intelligent-Tiering"@
    } else if storage_class == "GLACIER"@ || storage_class == "GLACIER_FLEXIBLE_RETRIEVAL"@ {
        "Archive"@
    } else if storage_class == "DEEP_ARCHIVE"@ {
        "Archive"@
    } else if storage_class == "GLACIER_IR"@ || storage_class == "GLACIER_INSTANT_RETRIEVAL"@ {
        "Archive Instant Retrieval"@
    } else if storage_class == "EXPRESS_ONEZONE"@ {
        "High Performance"@
    } else {
        "General Purpose"@
    }
}

/// Maps a storage class to the storage class filter that the price list uses.
pub fn storage_class_to_filter(storage_class: &str) -> (name: &'static str)
    ensures
        name@ == storage_filter_of(storage_class@),
{
    if same_text(storage_class, "STANDARD") {
        "General Purpose"
    } else if same_text(storage_class, "STANDARD_IA") || same_text(storage_class, "ONEZONE_IA") {
        "Infrequent Access"
    } else if same_text(storage_class, "INTELLIGENT_TIERING") {
        "Intelligent-Tiering"
    } else if same_text(storage_class, "GLACIER")
        || same_text(storage_class, "GLACIER_FLEXIBLE_RETRIEVAL") {
        "Archive"
    } else if same_text(storage_class, "DEEP_ARCHIVE") {
        "Archive"
    } else if same_text(storage_class, "GLACIER_IR")
        || same_text(storage_class, "GLACIER_INSTANT_RETRIEVAL") {
        "Archive Instant Retrieval"
    } else if same_text(storage_class, "EXPRESS_ONEZONE") {
        "High Performance"
    } else {
        "General Purpose"
    }
}

/// The start of the price list's request groups of a storage class; an
/// unknown class counts as standard.
pub open spec fn api_group_prefix_of(storage_class: Text) -> Text {
    if storage_class == "STANDARD"@ {
        "S3-API"@
    } else if storage_class == "STANDARD_IA"@ {
        "S3-API-SIA"@
    } else if storage_class == "ONEZONE_IA"@ {
        "S3-API-ZIA"@
    } else if storage_class == "INTELLIGENT_TIERING"@ {
        "S3-API-INT"@
    } else if storage_class == "GLACIER"@ || storage_class == "GLACIER_FLEXIBLE_RETRIEVAL"@ {
        "S3-API-GLACIER"@
    } else if storage_class == "DEEP_ARCHIVE"@ {
        "S3-API-DAA"@
    } else if storage_class == "GLACIER_IR"@ || storage_class == "GLACIER_INSTANT_RETRIEVAL"@ {
        "S3-API-GIR"@
    } else if storage_class == "EXPRESS_ONEZONE"@ {
        "S3-API-XZ"@
    } else {
        "S3-API"@
    }
}

/// Maps a storage class to the start of its request groups in the price list.
pub fn storage_class_to_api_group_prefix(storage_class: &str) -> (name: &'static str)
    ensures
        name@ == api_group_prefix_of(storage_class@),
{
    if same_text(storage_class, "STANDARD") {
        "S3-API"
    } else if same_text(storage_class, "STANDARD_IA") {
        "S3-API-SIA"
    } else if same_text(storage_class, "ONEZONE_IA") {
        "S3-API-ZIA"
    } else if same_text(storage_class, "INTELLIGENT_TIERING") {
        "S3-API-INT"
    } else if same_text(storage_class, "GLACIER")
        || same_text(storage_class, "GLACIER_FLEXIBLE_RETRIEVAL") {
        "S3-API-GLACIER"
    } else if same_text(storage_class, "DEEP_ARCHIVE") {
        "S3-API-DAA"
    } else if same_text(storage_class, "GLACIER_IR")
        || same_text(storage_class, "GLACIER_INSTANT_RETRIEVAL") {
        "S3-API-GIR"
    } else if same_text(storage_class, "EXPRESS_ONEZONE") {
        "S3-API-XZ"
    } else {
        "S3-API"
    }
}

/// The price class of a request.
#[derive(Copy, Clone, Debug, PartialEq, Eq, Structural)]
pub enum RequestTier {
    /// PUT, COPY, POST and LIST requests.
    ClassA,
    /// GET and all other requests.
    ClassB,
}

/// The end of a request group's name, by price class.
pub open spec fn tier_suffix(tier: RequestTier) -> Text {
    match tier {
        RequestTier::ClassA => "-Tier1"@,
        RequestTier::ClassB => "-Tier2"@,
    }
}

/// The request group of a storage class and a price class.
pub open spec fn request_group_of(storage_class: Text, tier: RequestTier) -> Text {
    api_group_prefix_of(storage_class) + tier_suffix(tier)
}

/// The request group to look up where a storage class has none of its own:
/// the standard one, unless that was the group of the class already.
pub open spec fn fallback_group_of(storage_class: Text, tier: RequestTier) -> Option<Text> {
    if api_group_prefix_of(storage_class) == "S3-API"@ {
        None
    } else {
        Some("S3-API"@ + tier_suffix(tier))
    }
}

fn tier_text(tier: RequestTier) -> (suffix: &'static str)
    ensures
        suffix@ == tier_suffix(tier),
{
    match tier {
        RequestTier::ClassA => "-Tier1",
        RequestTier::ClassB => "-Tier2",
    }
}

/// The name of the request group of a storage class and a price class.
pub fn request_group(storage_class: &str, tier: RequestTier) -> (group: String)
    ensures
        group@ == request_group_of(storage_class@, tier),
{
    let mut group = text_from(storage_class_to_api_group_prefix(storage_class));
    group.append(tier_text(tier));
    group
}

/// The name of the request group to fall back to, if there is one.
pub fn fallback_request_group(storage_class: &str, tier: RequestTier) -> (group: Option<String>)
    ensures
        match group {
            Some(name) => fallback_group_of(storage_class@, tier) == Some(name@),
            None => fallback_group_of(storage_class@, tier) is None,
        },
{
    if same_text(storage_class_to_api_group_prefix(storage_class), "S3-API") {
        None
    } else {
        let mut group = text_from("S3-API");
        group.append(tier_text(tier));
        Some(group)
    }
}

} // verus!
