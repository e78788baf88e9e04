use s3_largecopy::progress::CopyProgress;
use std::sync::atomic::Ordering;

/// Verifies constructor initializes counters and total part count correctly.
#[test]
fn new_initializes_zeroed_counters() {
    let progress = CopyProgress::new(12);
    assert_eq!(progress.total_parts, 12);
    assert_eq!(progress.copied_bytes.load(Ordering::SeqCst), 0);
    assert_eq!(progress.completed_parts.load(Ordering::SeqCst), 0);
}

/// Ensures add_completed updates both copied bytes and completed part counters.
#[test]
fn add_completed_increments_bytes_and_parts() {
    let progress = CopyProgress::new(3);
    progress.add_completed(1024);
    progress.add_completed(2048);

    assert_eq!(progress.copied_bytes.load(Ordering::SeqCst), 3072);
    assert_eq!(progress.completed_parts.load(Ordering::SeqCst), 2);
    assert_eq!(progress.total_parts, 3);
}

/// Confirms cloned progress handles share the same atomic state.
#[test]
fn clone_shares_progress_state() {
    let progress = CopyProgress::new(2);
    let clone = progress.clone();

    progress.add_completed(500);
    clone.add_completed(700);

    assert_eq!(progress.copied_bytes.load(Ordering::SeqCst), 1200);
    assert_eq!(clone.copied_bytes.load(Ordering::SeqCst), 1200);
    assert_eq!(progress.completed_parts.load(Ordering::SeqCst), 2);
    assert_eq!(clone.completed_parts.load(Ordering::SeqCst), 2);
}

#[test]
fn snapshot_reads_both_counters() {
    let progress = CopyProgress::new(5);
    progress.add_completed(10);
    progress.add_completed(20);
    progress.add_completed(30);
    let seen = progress.snapshot();
    assert_eq!(seen.copied_bytes, 60);
    assert_eq!(seen.completed_parts, 3);
    assert_eq!(seen.total_parts, 5);
}

#[test]
fn additions_commute_across_handles() {
    let first = CopyProgress::new(4);
    let second = CopyProgress::new(4);
    first.add_completed(7);
    first.add_completed(11);
    second.add_completed(11);
    second.add_completed(7);
    assert_eq!(first.snapshot().copied_bytes, second.snapshot().copied_bytes);
    assert_eq!(first.snapshot().completed_parts, second.snapshot().completed_parts);
}
