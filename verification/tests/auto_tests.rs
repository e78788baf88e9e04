use s3_largecopy::auto::{
    adapt_concurrency, build_auto_plan, clamp_part_size_for_limit, is_instant_copy,
    optimize_part_size_for_cost, probe_part_count, recommended_initial_concurrency,
    recommended_max_concurrency, select_initial_part_size, tune_part_size_from_probe, AutoProfile,
    VerifyIntegrity, WindowMetrics,
};

const MIB: i64 = 1024 * 1024;
const GIB: i64 = 1024 * MIB;
const TIB: i64 = 1024 * GIB;

fn seconds(n: u64) -> u64 {
    n * 1_000_000_000
}

fn mib_per_second(n: u64) -> u64 {
    n * 1024 * 1024
}

/// Ensures instant-copy mode is only selected when auto mode is enabled and size is below 5 GiB.
#[test]
fn instant_copy_threshold() {
    assert!(is_instant_copy(true, 1024));
    assert!(!is_instant_copy(false, 1024));
    assert!(!is_instant_copy(true, 6 * 1024 * 1024 * 1024));
}

/// Verifies part-size clamping enforces the S3 10,000-part ceiling.
#[test]
fn clamp_part_size_respects_limit() {
    let size = 20_i64 * 1024 * 1024 * 1024 * 1024;
    let part = clamp_part_size_for_limit(size, 64 * 1024 * 1024, 10000);
    let parts = (size + part - 1) / part;
    assert!(parts <= 10000);
}

/// Confirms adaptive concurrency can scale up on healthy windows and down on slow windows.
#[test]
fn adaptive_concurrency_moves_up_and_down() {
    let up = adapt_concurrency(
        AutoProfile::Balanced,
        20,
        4,
        64,
        WindowMetrics {
            avg_part_nanos: seconds(6),
            throughput_bytes_s: mib_per_second(400),
            had_retryable_pressure: false,
        },
    );
    assert!(up > 20);

    let down = adapt_concurrency(
        AutoProfile::Balanced,
        20,
        4,
        64,
        WindowMetrics {
            avg_part_nanos: seconds(30),
            throughput_bytes_s: mib_per_second(100),
            had_retryable_pressure: false,
        },
    );
    assert!(down < 20);
}

/// Validates that cost optimization increases part size for very large cross-region copies.
#[test]
fn cost_optimization_raises_part_size_for_large_cross_region_copy() {
    let ten_tb = 10_i64 * 1024 * 1024 * 1024 * 1024;
    let candidate = 128 * 1024 * 1024;
    let optimized = optimize_part_size_for_cost(ten_tb, candidate, AutoProfile::Balanced, false);
    assert!(optimized > candidate);
}

/// Ensures the cost-efficient profile starts with larger parts than balanced for large objects.
#[test]
fn cost_efficient_targets_larger_parts_than_balanced() {
    let one_tb = 1024_i64 * 1024 * 1024 * 1024;
    let balanced = select_initial_part_size(one_tb, AutoProfile::Balanced);
    let cost = select_initial_part_size(one_tb, AutoProfile::CostEfficient);
    assert!(cost > balanced);
}

#[test]
fn defaults_are_balanced_and_etag() {
    assert_eq!(AutoProfile::default(), AutoProfile::Balanced);
    assert_eq!(VerifyIntegrity::default(), VerifyIntegrity::Etag);
}

#[test]
fn initial_part_size_follows_the_table() {
    let sizes = [GIB, 100 * GIB, TIB, 10 * TIB];
    let aggressive = [64 * MIB, 128 * MIB, 256 * MIB, 512 * MIB];
    let balanced = [128 * MIB, 256 * MIB, 512 * MIB, GIB];
    let conservative = [256 * MIB, 512 * MIB, GIB, GIB];
    let cost = [GIB, 2 * GIB, 3 * GIB, 4 * GIB];
    for i in 0..4 {
        assert_eq!(select_initial_part_size(sizes[i], AutoProfile::Aggressive), aggressive[i]);
        assert_eq!(select_initial_part_size(sizes[i], AutoProfile::Balanced), balanced[i]);
        assert_eq!(select_initial_part_size(sizes[i], AutoProfile::Conservative), conservative[i]);
        assert_eq!(select_initial_part_size(sizes[i], AutoProfile::CostEfficient), cost[i]);
    }
    assert_eq!(select_initial_part_size(100 * GIB - 1, AutoProfile::Balanced), 128 * MIB);
    assert_eq!(select_initial_part_size(TIB - 1, AutoProfile::Balanced), 256 * MIB);
    assert_eq!(select_initial_part_size(10 * TIB - 1, AutoProfile::Balanced), 512 * MIB);
}

#[test]
fn clamp_gives_exact_sizes() {
    // 20 TiB over 10 000 parts needs 2 199 023 256 bytes a part: 2098 MiB.
    assert_eq!(clamp_part_size_for_limit(20 * TIB, 64 * MIB, 10000), 2098 * MIB);
    // A desired size below the floor is raised to 5 MiB.
    assert_eq!(clamp_part_size_for_limit(GIB, MIB, 10000), 5 * MIB);
    // A desired size above the cap is cut to 5 GiB.
    assert_eq!(clamp_part_size_for_limit(GIB, 6 * GIB, 10000), 5 * GIB);
    // A desired size within the limits that is large enough stays.
    assert_eq!(clamp_part_size_for_limit(GIB, 256 * MIB, 10000), 256 * MIB);
    // An object without bytes needs nothing of its parts: the floor and the cap stay.
    assert_eq!(clamp_part_size_for_limit(0, MIB, 10000), 5 * MIB);
    assert_eq!(clamp_part_size_for_limit(0, 17, 10000), 5 * MIB);
    assert_eq!(clamp_part_size_for_limit(0, 256 * MIB, 10000), 256 * MIB);
    assert_eq!(clamp_part_size_for_limit(0, 6 * GIB, 10000), 5 * GIB);
    // A size below zero counts as none.
    assert_eq!(clamp_part_size_for_limit(-5, 17, 10000), 5 * MIB);
    assert_eq!(clamp_part_size_for_limit(i64::MIN, 7 * MIB, 1), 7 * MIB);
    // Few part slots raise the size, up to the cap.
    assert_eq!(clamp_part_size_for_limit(10 * GIB, 64 * MIB, 4), 2560 * MIB);
    assert_eq!(clamp_part_size_for_limit(i64::MAX, 64 * MIB, 1), 5 * GIB);
}

#[test]
fn cost_floor_gives_exact_sizes() {
    // 10 TiB over 1500 parts: 7 330 077 519 bytes, over the 5 GiB cap.
    assert_eq!(
        optimize_part_size_for_cost(10 * TIB, 128 * MIB, AutoProfile::Balanced, false),
        5 * GIB
    );
    // 1 TiB over 2200 parts: 499 778 013 bytes, 477 MiB when rounded up.
    assert_eq!(
        optimize_part_size_for_cost(TIB, 128 * MIB, AutoProfile::Balanced, true),
        477 * MIB
    );
    // A candidate above the floor stays.
    assert_eq!(optimize_part_size_for_cost(GIB, 128 * MIB, AutoProfile::Balanced, true), 128 * MIB);
    // An object without bytes leaves the candidate alone.
    assert_eq!(optimize_part_size_for_cost(0, 3, AutoProfile::Balanced, true), 3);
}

#[test]
fn plan_is_cut_to_the_cap() {
    let plan = build_auto_plan(AutoProfile::Balanced, 200 * GIB, true, 10);
    assert_eq!(plan.initial_part_size, 256 * MIB);
    assert_eq!(plan.initial_concurrency, 10);
    assert_eq!(plan.max_concurrency, 10);
    assert_eq!(plan.probe_parts, 4);

    let wide = build_auto_plan(AutoProfile::Aggressive, 200 * GIB, false, 1000);
    assert_eq!(wide.initial_part_size, 128 * MIB);
    assert_eq!(wide.initial_concurrency, 28);
    assert_eq!(wide.max_concurrency, 64);
    assert_eq!(wide.probe_parts, 5);

    let none = build_auto_plan(AutoProfile::CostEfficient, GIB, true, 0);
    assert_eq!(none.initial_concurrency, 1);
    assert_eq!(none.max_concurrency, 1);
    assert_eq!(none.probe_parts, 2);
}

#[test]
fn concurrency_tables() {
    assert_eq!(recommended_initial_concurrency(AutoProfile::Aggressive, true), 48);
    assert_eq!(recommended_initial_concurrency(AutoProfile::Conservative, false), 8);
    assert_eq!(recommended_max_concurrency(AutoProfile::Balanced, false), 40);
    assert_eq!(recommended_max_concurrency(AutoProfile::CostEfficient, true), 16);
    assert_eq!(probe_part_count(AutoProfile::Conservative), 3);
}

#[test]
fn part_count_stays_within_ten_thousand() {
    let profiles = [
        AutoProfile::Aggressive,
        AutoProfile::Balanced,
        AutoProfile::Conservative,
        AutoProfile::CostEfficient,
    ];
    let sizes = [1, 5 * MIB, GIB, 640 * GIB, 5 * TIB, 48 * TIB, 10_000 * 5 * GIB];
    for profile in profiles {
        for size in sizes {
            for same_region in [true, false] {
                let plan = build_auto_plan(profile, size, same_region, 64);
                let part = clamp_part_size_for_limit(size, plan.initial_part_size, 10000);
                let parts = (size + part - 1) / part;
                assert!(parts <= 10000);
                assert!(part >= 5 * MIB && part <= 5 * GIB);
            }
        }
    }
}

#[test]
fn cost_efficient_plans_no_smaller_parts_than_balanced() {
    for size in [TIB, 3 * TIB, 10 * TIB, 40 * TIB] {
        for same_region in [true, false] {
            let cost = build_auto_plan(AutoProfile::CostEfficient, size, same_region, 64);
            let balanced = build_auto_plan(AutoProfile::Balanced, size, same_region, 64);
            assert!(cost.initial_part_size >= balanced.initial_part_size);
        }
    }
}

#[test]
fn adapter_follows_its_rules() {
    let fast = WindowMetrics {
        avg_part_nanos: seconds(6),
        throughput_bytes_s: mib_per_second(400),
        had_retryable_pressure: false,
    };
    let slow = WindowMetrics {
        avg_part_nanos: seconds(30),
        throughput_bytes_s: mib_per_second(100),
        had_retryable_pressure: false,
    };
    let steady = WindowMetrics {
        avg_part_nanos: seconds(12),
        throughput_bytes_s: mib_per_second(100),
        had_retryable_pressure: false,
    };
    let pressured = WindowMetrics {
        avg_part_nanos: seconds(1),
        throughput_bytes_s: mib_per_second(900),
        had_retryable_pressure: true,
    };
    let stalled =
        WindowMetrics { avg_part_nanos: seconds(1), throughput_bytes_s: 0, had_retryable_pressure: false };
    assert_eq!(adapt_concurrency(AutoProfile::Balanced, 20, 4, 64, fast), 24);
    assert_eq!(adapt_concurrency(AutoProfile::Aggressive, 60, 4, 64, fast), 64);
    assert_eq!(adapt_concurrency(AutoProfile::Balanced, 20, 4, 64, slow), 16);
    assert_eq!(adapt_concurrency(AutoProfile::Aggressive, 6, 4, 64, slow), 4);
    assert_eq!(adapt_concurrency(AutoProfile::Conservative, 20, 4, 64, steady), 20);
    assert_eq!(adapt_concurrency(AutoProfile::CostEfficient, 20, 4, 64, pressured), 19);
    assert_eq!(adapt_concurrency(AutoProfile::Balanced, 20, 4, 64, stalled), 20);
    // At the edges of the two thresholds nothing moves.
    let at_eight = WindowMetrics { avg_part_nanos: seconds(8), ..fast };
    let at_twenty_five = WindowMetrics { avg_part_nanos: seconds(25), ..slow };
    assert_eq!(adapt_concurrency(AutoProfile::Balanced, 20, 4, 64, at_eight), 20);
    assert_eq!(adapt_concurrency(AutoProfile::Balanced, 20, 4, 64, at_twenty_five), 20);
    // No overflow at the top of the range.
    assert_eq!(adapt_concurrency(AutoProfile::Aggressive, usize::MAX, 0, usize::MAX, fast), usize::MAX);
    // Under pressure a concurrency below the minimum is raised to it.
    assert_eq!(adapt_concurrency(AutoProfile::Balanced, 2, 4, 64, pressured), 4);
}

#[test]
fn probe_tuning_follows_its_rules() {
    let remaining = 500 * GIB;
    // Fast: doubled, up to 1 GiB.
    assert_eq!(
        tune_part_size_from_probe(AutoProfile::Balanced, remaining, 256 * MIB, mib_per_second(1200)),
        512 * MIB
    );
    assert_eq!(
        tune_part_size_from_probe(AutoProfile::Balanced, remaining, 768 * MIB, mib_per_second(2000)),
        GIB
    );
    // Slow: halved, down to 64 MiB.
    assert_eq!(
        tune_part_size_from_probe(AutoProfile::Balanced, remaining, 256 * MIB, mib_per_second(120)),
        128 * MIB
    );
    assert_eq!(
        tune_part_size_from_probe(AutoProfile::Aggressive, remaining, 64 * MIB, mib_per_second(10)),
        64 * MIB
    );
    // Slow, cost-efficient: held at 1 GiB or more.
    assert_eq!(
        tune_part_size_from_probe(AutoProfile::CostEfficient, remaining, 256 * MIB, mib_per_second(100)),
        GIB
    );
    assert_eq!(
        tune_part_size_from_probe(AutoProfile::CostEfficient, remaining, 2 * GIB, mib_per_second(100)),
        2 * GIB
    );
    // In between: unchanged.
    assert_eq!(
        tune_part_size_from_probe(AutoProfile::Balanced, remaining, 256 * MIB, mib_per_second(600)),
        256 * MIB
    );
    // Nothing left: the tuned size, within the limits.
    assert_eq!(
        tune_part_size_from_probe(AutoProfile::Balanced, 0, 256 * MIB, mib_per_second(5000)),
        512 * MIB
    );
    assert_eq!(
        tune_part_size_from_probe(AutoProfile::Balanced, 0, 77, mib_per_second(5000)),
        5 * MIB
    );
    // Clamped for 9 500 parts: 40 TiB need 4416 MiB a part.
    assert_eq!(
        tune_part_size_from_probe(AutoProfile::Balanced, 40 * TIB, 256 * MIB, mib_per_second(600)),
        4416 * MIB
    );
}
