use s3_largecopy::parts::{
    arrange_parts, duplicate_parts, find_part, plan_window, transfer_rate, window_metrics,
    CompletedPart, PartSpec,
};

const MIB: i64 = 1024 * 1024;

fn part(number: i32, etag: &str) -> CompletedPart {
    CompletedPart { part_number: number, etag: etag.to_string() }
}

/// A dry-run part copy gives a deterministic stub part.
#[test]
fn upload_part_copy_dry_run_returns_stub_part() {
    let part = CompletedPart::dry_run(1);
    assert_eq!(part.part_number, 1);
    assert_eq!(part.etag, "dry-run-etag");
    let spec = PartSpec { part_number: 1, first_byte: 0, last_byte: 1023 };
    assert_eq!(spec.range_header(), "bytes=0-1023");
}

#[test]
fn window_lays_out_consecutive_parts() {
    let parts = plan_window(1, 0, 25 * MIB, 10 * MIB, 8);
    assert_eq!(
        parts,
        vec![
            PartSpec { part_number: 1, first_byte: 0, last_byte: 10 * MIB - 1 },
            PartSpec { part_number: 2, first_byte: 10 * MIB, last_byte: 20 * MIB - 1 },
            PartSpec { part_number: 3, first_byte: 20 * MIB, last_byte: 25 * MIB - 1 },
        ]
    );
    assert_eq!(parts[2].byte_count(), 5 * 1024 * 1024);
    assert_eq!(parts[2].range_header(), "bytes=20971520-26214399");
}

#[test]
fn window_is_bounded_by_concurrency_and_part_numbers() {
    let two = plan_window(4, 30 * MIB, 100 * MIB, 10 * MIB, 2);
    assert_eq!(
        two,
        vec![
            PartSpec { part_number: 4, first_byte: 30 * MIB, last_byte: 40 * MIB - 1 },
            PartSpec { part_number: 5, first_byte: 40 * MIB, last_byte: 50 * MIB - 1 },
        ]
    );
    let last_number = plan_window(10_000, 0, 100 * MIB, 10 * MIB, 8);
    assert_eq!(last_number.len(), 1);
    assert_eq!(last_number[0].part_number, 10_000);
    assert!(plan_window(10_001, 0, 100 * MIB, 10 * MIB, 8).is_empty());
    assert!(plan_window(1, 100 * MIB, 100 * MIB, 10 * MIB, 8).is_empty());
    assert!(plan_window(1, 0, 100 * MIB, 10 * MIB, 0).is_empty());
    let huge = plan_window(1, i64::MAX - 3, i64::MAX, 5 * 1024 * MIB, 4);
    assert_eq!(huge, vec![PartSpec { part_number: 1, first_byte: i64::MAX - 3, last_byte: i64::MAX - 1 }]);
}

#[test]
fn window_results_are_put_in_order() {
    let unordered = vec![part(7, "g"), part(5, "e"), part(6, "f")];
    let ordered = arrange_parts(&unordered, 5, 3).expect("the parts answer the window");
    assert_eq!(ordered, vec![part(5, "e"), part(6, "f"), part(7, "g")]);
    assert_eq!(find_part(&unordered, 6), Some(2));
    assert_eq!(find_part(&unordered, 8), None);
    assert_eq!(duplicate_parts(&unordered), unordered);
}

#[test]
fn window_results_that_do_not_answer_are_refused() {
    // A part is missing.
    assert_eq!(arrange_parts(&vec![part(5, "e"), part(7, "g")], 5, 3), None);
    // A part number is doubled.
    assert_eq!(arrange_parts(&vec![part(5, "e"), part(5, "x"), part(6, "f")], 5, 3), None);
    // A part of another window.
    assert_eq!(arrange_parts(&vec![part(5, "e"), part(6, "f"), part(9, "i")], 5, 3), None);
    // One part too many.
    assert_eq!(arrange_parts(&vec![part(5, "e"), part(6, "f")], 5, 1), None);
    assert_eq!(arrange_parts(&vec![], 1, 0), Some(vec![]));
}

#[test]
fn rates_are_bytes_per_second() {
    // 100 MiB in 2 s.
    assert_eq!(transfer_rate(100 * 1024 * 1024, 2_000_000_000), 50 * 1024 * 1024);
    // A time under a millisecond counts as a millisecond.
    assert_eq!(transfer_rate(1000, 10), 1_000_000);
    assert_eq!(transfer_rate(1000, 0), 1_000_000);
    assert_eq!(transfer_rate(0, 5_000_000_000), 0);
    // The rate stops at the top of the range.
    assert_eq!(transfer_rate(u64::MAX, 1), u64::MAX);
    assert_eq!(transfer_rate(7, 3_000_000_000), 2);
}

#[test]
fn window_metrics_are_means_and_rates() {
    let metrics = window_metrics(400 * 1024 * 1024, 4_000_000_000, 36_000_000_000, 6, false);
    assert_eq!(metrics.avg_part_nanos, 6_000_000_000);
    assert_eq!(metrics.throughput_bytes_s, 100 * 1024 * 1024);
    assert!(!metrics.had_retryable_pressure);
    let empty = window_metrics(0, 0, 9, 0, true);
    assert_eq!(empty.avg_part_nanos, 9);
    assert_eq!(empty.throughput_bytes_s, 0);
    assert!(empty.had_retryable_pressure);
}
