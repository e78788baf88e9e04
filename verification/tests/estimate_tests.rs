use s3_largecopy::auto::AutoProfile;
use s3_largecopy::estimate::{estimate_layout, estimate_requests, CopyLayout};

fn gib(n: i64) -> i64 {
    n * 1024 * 1024 * 1024
}

const MIB: i64 = 1024 * 1024;

#[test]
fn auto_small_object_has_no_parts() {
    let layout = estimate_layout(gib(1), 256 * MIB, true, AutoProfile::Balanced, true);
    assert_eq!(layout, CopyLayout { instant_copy: true, part_size_bytes: 0, num_parts: 0 });
    let counts = estimate_requests(layout, false);
    assert_eq!(counts.head_requests, 2);
    assert_eq!(counts.tagging_requests, 1);
    assert_eq!(counts.copy_requests, 1);
    assert_eq!(counts.create_requests + counts.part_requests + counts.complete_requests, 0);
    assert_eq!(counts.verify_requests, 0);
}

#[test]
fn manual_layout_follows_the_part_size() {
    let layout = estimate_layout(gib(10), 256 * MIB, false, AutoProfile::Balanced, false);
    assert_eq!(layout, CopyLayout { instant_copy: false, part_size_bytes: 256 * MIB, num_parts: 40 });
    let counts = estimate_requests(layout, true);
    assert_eq!(counts.tagging_requests, 0);
    assert_eq!(counts.copy_requests, 0);
    assert_eq!(counts.create_requests, 1);
    assert_eq!(counts.part_requests, 40);
    assert_eq!(counts.complete_requests, 1);
    assert_eq!(counts.verify_requests, 1);
    // One byte more needs one part more.
    assert_eq!(estimate_layout(gib(10) + 1, 256 * MIB, false, AutoProfile::Balanced, false).num_parts, 41);
    // A manual copy of a small object is a multipart copy too.
    assert!(!estimate_layout(gib(1), 256 * MIB, false, AutoProfile::Balanced, true).instant_copy);
    // Nothing to copy, no parts.
    assert_eq!(estimate_layout(0, 256 * MIB, false, AutoProfile::Balanced, true).num_parts, 0);
}

#[test]
fn cost_efficient_layout_has_no_more_parts_than_balanced() {
    let size = gib(5 * 1024);
    let balanced = estimate_layout(size, 256 * MIB, true, AutoProfile::Balanced, false);
    let cost = estimate_layout(size, 256 * MIB, true, AutoProfile::CostEfficient, false);
    assert!(cost.part_size_bytes >= balanced.part_size_bytes);
    assert!(cost.num_parts <= balanced.num_parts);
    // 5 TiB over 1500 parts: 3496 MiB a part; the cost-efficient floor is at the 5 GiB cap.
    assert_eq!(balanced.part_size_bytes, 3496 * MIB);
    assert_eq!(balanced.num_parts, 1500);
    assert_eq!(cost.part_size_bytes, gib(5));
    assert_eq!(cost.num_parts, 1024);
}
