//! What a copy will ask of the store, before it is made: how the object is
//! split, and how many requests of each price class are sent.

use vstd::prelude::*;
use crate::auto::{
    build_auto_plan, clamp_part_size_for_limit, clamped_part_size, is_instant_copy, plan_of,
    AutoProfile,
};
use crate::limits::{ceil_div, ceil_div_i64, S3_MAX_PARTS, SINGLE_COPY_CEILING};

verus! {

/// Concurrency cap that an estimate plans with.
pub const ESTIMATE_CONCURRENCY_CAP: usize = 64;

/// How an object is split for a copy. A copy made with one request has no
/// parts: part size and part count are both 0.
#[derive(Copy, Clone, Debug, PartialEq, Eq, Structural)]
pub struct CopyLayout {
    pub instant_copy: bool,
    pub part_size_bytes: i64,
    pub num_parts: i64,
}

/// How many requests a copy sends, by price class.
#[derive(Copy, Clone, Debug, PartialEq, Eq, Structural)]
pub struct RequestCounts {
    /// HEAD requests before the copy.
    pub head_requests: i64,
    /// Tagging reads.
    pub tagging_requests: i64,
    /// Requests that copy with one request.
    pub copy_requests: i64,
    /// Requests that create a multipart upload.
    pub create_requests: i64,
    /// Requests that copy one part.
    pub part_requests: i64,
    /// Requests that complete a multipart upload.
    pub complete_requests: i64,
    /// HEAD requests that verify the copy.
    pub verify_requests: i64,
}

/// The part size that an estimate plans with, clamped for 10 000 parts.
pub open spec fn estimated_part_size(
    size: int,
    part_size: int,
    auto: bool,
    profile: AutoProfile,
    same_region: bool,
) -> int {
    if auto {
        clamped_part_size(
            size,
            plan_of(
                profile,
                size,
                same_region,
                ESTIMATE_CONCURRENCY_CAP as int,
            ).initial_part_size as int,
            S3_MAX_PARTS as int,
        )
    } else {
        clamped_part_size(size, part_size, S3_MAX_PARTS as int)
    }
}

/// The layout of a copy: none for a copy with one request (auto mode, under
/// 5 GiB); else the clamped part size and the parts that the object needs.
pub open spec fn layout_of(
    size: int,
    part_size: int,
    auto: bool,
    profile: AutoProfile,
    same_region: bool,
) -> CopyLayout {
    if auto && size < SINGLE_COPY_CEILING {
        CopyLayout { instant_copy: true, part_size_bytes: 0, num_parts: 0 }
    } else {
        let part = estimated_part_size(size, part_size, auto, profile, same_region);
        CopyLayout {
            instant_copy: false,
            part_size_bytes: part as i64,
            num_parts: if size > 0 && part > 0 {
                ceil_div(size, part) as i64
            } else {
                0
            },
        }
    }
}

/// The requests of a copy: two HEAD requests; one tagging read unless tags
/// are skipped; then one copy request, or the creation of the upload, one
/// request for each part, the completion and one HEAD request to verify.
pub open spec fn requests_of(layout: CopyLayout, no_tags: bool) -> RequestCounts {
    RequestCounts {
        head_requests: 2,
        tagging_requests: if no_tags {
            0
        } else {
            1
        },
        copy_requests: if layout.instant_copy {
            1
        } else {
            0
        },
        create_requests: if layout.instant_copy {
            0
        } else {
            1
        },
        part_requests: if layout.instant_copy {
            0
        } else {
            layout.num_parts
        },
        complete_requests: if layout.instant_copy {
            0
        } else {
            1
        },
        verify_requests: if layout.instant_copy {
            0
        } else {
            1
        },
    }
}

/// How a copy of `file_size_bytes` bytes is split.
pub fn estimate_layout(
    file_size_bytes: i64,
    part_size_bytes: i64,
    auto: bool,
    profile: AutoProfile,
    same_region: bool,
) -> (layout: CopyLayout)
    ensures
        layout == layout_of(
            file_size_bytes as int,
            part_size_bytes as int,
            auto,
            profile,
            same_region,
        ),
        0 <= layout.num_parts,
{
    if is_instant_copy(auto, file_size_bytes) {
        return CopyLayout { instant_copy: true, part_size_bytes: 0, num_parts: 0 };
    }
    let part: i64 = if auto {
        let plan = build_auto_plan(profile, file_size_bytes, same_region, ESTIMATE_CONCURRENCY_CAP);
        clamp_part_size_for_limit(file_size_bytes, plan.initial_part_size, S3_MAX_PARTS)
    } else {
        clamp_part_size_for_limit(file_size_bytes, part_size_bytes, S3_MAX_PARTS)
    };
    let num_parts: i64 = if file_size_bytes > 0 && part > 0 {
        ceil_div_i64(file_size_bytes, part)
    } else {
        0
    };
    CopyLayout { instant_copy: false, part_size_bytes: part, num_parts }
}

/// How many requests a copy with the given layout sends.
pub fn estimate_requests(layout: CopyLayout, no_tags: bool) -> (counts: RequestCounts)
    ensures
        counts == requests_of(layout, no_tags),
{
    let multipart: i64 = if layout.instant_copy { 0 } else { 1 };
    RequestCounts {
        head_requests: 2,
        tagging_requests: if no_tags { 0 } else { 1 },
        copy_requests: if layout.instant_copy { 1 } else { 0 },
        create_requests: multipart,
        part_requests: if layout.instant_copy { 0 } else { layout.num_parts },
        complete_requests: multipart,
        verify_requests: multipart,
    }
}

} // verus!
