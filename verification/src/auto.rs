//! The auto-tuning planner: initial part size and concurrency from object
//! size, region topology and profile; the clamp that enforces the provider's
//! limits; the probe tuning and the per-window concurrency adapter.

use vstd::prelude::*;
use crate::limits::{
    ceil_div, ceil_div_i64, lemma_ceil_div_antitone, lemma_ceil_div_covers, lemma_parts_fit,
    lemma_round_up_mib, max_int, min_int, round_up_mib, GIB, MIB, S3_MAX_OBJECT_SIZE,
    S3_MAX_PARTS, S3_MAX_PART_SIZE, S3_MIN_PART_SIZE, TIB,
};

verus! {

/// How boldly the planner trades request count against parallelism.
#[derive(Copy, Clone, Debug, PartialEq, Eq, Structural)]
pub enum AutoProfile {
    Balanced,
    Aggressive,
    Conservative,
    CostEfficient,
}

impl Default for AutoProfile {
    fn default() -> (profile: Self)
        ensures
            profile == AutoProfile::Balanced,
    {
        AutoProfile::Balanced
    }
}

/// What is compared after a copy to accept it.
#[derive(Copy, Clone, Debug, PartialEq, Eq, Structural)]
pub enum VerifyIntegrity {
    Off,
    Etag,
    Checksum,
}

impl Default for VerifyIntegrity {
    fn default() -> (mode: Self)
        ensures
            mode == VerifyIntegrity::Etag,
    {
        VerifyIntegrity::Etag
    }
}

/// The planner's answer for one copy.
#[derive(Copy, Clone, Debug)]
pub struct AutoPlan {
    pub initial_part_size: i64,
    pub initial_concurrency: usize,
    pub max_concurrency: usize,
    pub probe_parts: usize,
}

impl AutoPlan {
    /// Part size within the provider's limits, concurrency within `1..=max`.
    pub open spec fn well_formed(self) -> bool {
        &&& S3_MIN_PART_SIZE <= self.initial_part_size <= S3_MAX_PART_SIZE
        &&& 1 <= self.initial_concurrency <= self.max_concurrency
    }
}

/// What one window of part copies measured. Times are in nanoseconds and
/// throughput in bytes per second, so that the thresholds of the adapter are
/// whole numbers.
#[derive(Copy, Clone, Debug)]
pub struct WindowMetrics {
    pub avg_part_nanos: u64,
    pub throughput_bytes_s: u64,
    pub had_retryable_pressure: bool,
}

/// Below this average part time a window counts as fast: 8 s.
pub const FAST_PART_NANOS: u64 = 8_000_000_000;

/// Above this average part time a window counts as slow: 25 s.
pub const SLOW_PART_NANOS: u64 = 25_000_000_000;

/// From this probe throughput on, parts are doubled: 1200 MiB/s.
pub const PROBE_FAST_BYTES_S: u64 = 1_258_291_200;

/// Up to this probe throughput, parts are halved: 120 MiB/s.
pub const PROBE_SLOW_BYTES_S: u64 = 125_829_120;

/// Part slots the probe tuning plans for, short of the provider's 10 000.
pub const TUNE_MAX_PARTS: i64 = 9_500;

/// The profile's part size before any floor, by object size.
pub open spec fn base_part_size(size: int, profile: AutoProfile) -> int {
    let tier: int = if size < 100 * GIB {
        0
    } else if size < 1024 * GIB {
        1
    } else if size < 10 * 1024 * GIB {
        2
    } else {
        3
    };
    match profile {
        AutoProfile::Aggressive => if tier == 0 {
            64 * MIB
        } else if tier == 1 {
            128 * MIB
        } else if tier == 2 {
            256 * MIB
        } else {
            512 * MIB
        },
        AutoProfile::Balanced => if tier == 0 {
            128 * MIB
        } else if tier == 1 {
            256 * MIB
        } else if tier == 2 {
            512 * MIB
        } else {
            1024 * MIB
        },
        AutoProfile::Conservative => if tier == 0 {
            256 * MIB
        } else if tier == 1 {
            512 * MIB
        } else {
            1024 * MIB
        },
        AutoProfile::CostEfficient => if tier == 0 {
            1 * GIB
        } else if tier == 1 {
            2 * GIB
        } else if tier == 2 {
            3 * GIB
        } else {
            4 * GIB
        },
    }
}

/// The part count that the cost floor aims to stay under.
pub open spec fn target_max_parts(profile: AutoProfile, same_region: bool) -> int {
    match profile {
        AutoProfile::Aggressive => if same_region { 3500 } else { 2800 },
        AutoProfile::Balanced => if same_region { 2200 } else { 1500 },
        AutoProfile::Conservative => if same_region { 1200 } else { 800 },
        AutoProfile::CostEfficient => if same_region { 500 } else { 350 },
    }
}

/// The smallest part size that keeps a copy of `size` bytes under the
/// profile's target part count: within the provider's limits, on a MiB boundary.
pub open spec fn cost_floor(size: int, profile: AutoProfile, same_region: bool) -> int {
    round_up_mib(
        min_int(
            max_int(ceil_div(size, target_max_parts(profile, same_region)), S3_MIN_PART_SIZE as int),
            S3_MAX_PART_SIZE as int,
        ),
    )
}

/// A candidate part size raised to the cost floor and capped at 5 GiB. An
/// object without bytes leaves the candidate as it is.
pub open spec fn cost_optimized(
    size: int,
    candidate: int,
    profile: AutoProfile,
    same_region: bool,
) -> int {
    if size <= 0 {
        candidate
    } else {
        min_int(max_int(candidate, cost_floor(size, profile, same_region)), S3_MAX_PART_SIZE as int)
    }
}

/// A desired part size raised to 5 MiB and to what `max_parts` parts need
/// (on a MiB boundary), then capped at 5 GiB. An object without bytes needs
/// nothing of its parts, so its desired size is only brought within the
/// limits; a size below zero counts as none.
pub open spec fn clamped_part_size(size: int, desired: int, max_parts: int) -> int {
    min_int(
        max_int(
            max_int(desired, S3_MIN_PART_SIZE as int),
            round_up_mib(
                max_int(ceil_div(max_int(size, 0), max_parts), S3_MIN_PART_SIZE as int),
            ),
        ),
        S3_MAX_PART_SIZE as int,
    )
}

/// The part size that a probe's throughput suggests, before any limit.
pub open spec fn probe_tuned(profile: AutoProfile, current: int, measured_bytes_s: int) -> int {
    if measured_bytes_s >= PROBE_FAST_BYTES_S {
        min_int(2 * current, GIB as int)
    } else if profile == AutoProfile::CostEfficient && measured_bytes_s <= PROBE_SLOW_BYTES_S {
        max_int(current, GIB as int)
    } else if measured_bytes_s <= PROBE_SLOW_BYTES_S {
        max_int(current / 2, 64 * MIB)
    } else {
        current
    }
}

/// The part size for the bytes that remain after a probe: what the probe's
/// throughput suggests, clamped for 9 500 parts.
pub open spec fn probe_part_size(
    profile: AutoProfile,
    remaining: int,
    current: int,
    measured_bytes_s: int,
) -> int {
    clamped_part_size(
        remaining,
        probe_tuned(profile, current, measured_bytes_s),
        TUNE_MAX_PARTS as int,
    )
}

/// The concurrency that a profile starts with, by region topology.
pub open spec fn initial_concurrency_of(profile: AutoProfile, same_region: bool) -> int {
    match profile {
        AutoProfile::Aggressive => if same_region { 48 } else { 28 },
        AutoProfile::Balanced => if same_region { 24 } else { 16 },
        AutoProfile::Conservative => if same_region { 12 } else { 8 },
        AutoProfile::CostEfficient => if same_region { 8 } else { 6 },
    }
}

/// The highest concurrency that a profile goes up to, by region topology.
pub open spec fn max_concurrency_of(profile: AutoProfile, same_region: bool) -> int {
    match profile {
        AutoProfile::Aggressive => if same_region { 96 } else { 64 },
        AutoProfile::Balanced => if same_region { 64 } else { 40 },
        AutoProfile::Conservative => if same_region { 32 } else { 20 },
        AutoProfile::CostEfficient => if same_region { 16 } else { 12 },
    }
}

/// How many parts a profile probes with.
pub open spec fn probe_parts_of(profile: AutoProfile) -> int {
    match profile {
        AutoProfile::Aggressive => 5,
        AutoProfile::Balanced => 4,
        AutoProfile::Conservative => 3,
        AutoProfile::CostEfficient => 2,
    }
}

/// By how much one window moves the concurrency.
pub open spec fn concurrency_step(profile: AutoProfile) -> int {
    match profile {
        AutoProfile::Aggressive => 8,
        AutoProfile::Balanced => 4,
        AutoProfile::Conservative => 2,
        AutoProfile::CostEfficient => 1,
    }
}

/// The concurrency after a window: down under pressure, up after a fast
/// window that moved bytes, down after a slow one, else unchanged.
pub open spec fn adapted_concurrency(
    profile: AutoProfile,
    current: int,
    min_concurrency: int,
    max_concurrency: int,
    metrics: WindowMetrics,
) -> int {
    let step = concurrency_step(profile);
    if metrics.had_retryable_pressure {
        max_int(min_concurrency, current - step)
    } else if metrics.avg_part_nanos < FAST_PART_NANOS && metrics.throughput_bytes_s > 0 {
        min_int(max_concurrency, current + step)
    } else if metrics.avg_part_nanos > SLOW_PART_NANOS {
        max_int(min_concurrency, current - step)
    } else {
        current
    }
}

/// The plan for a copy of `size` bytes: the profile's part size raised to the
/// cost floor, and the profile's concurrency levels cut to the cap.
pub open spec fn plan_of(profile: AutoProfile, size: int, same_region: bool, cap: int) -> AutoPlan {
    let hard_cap = max_int(cap, 1);
    let max_concurrency = max_int(min_int(max_concurrency_of(profile, same_region), hard_cap), 1);
    AutoPlan {
        initial_part_size: cost_optimized(
            size,
            base_part_size(size, profile),
            profile,
            same_region,
        ) as i64,
        initial_concurrency: max_int(
            min_int(initial_concurrency_of(profile, same_region), max_concurrency),
            1,
        ) as usize,
        max_concurrency: max_concurrency as usize,
        probe_parts: probe_parts_of(profile) as usize,
    }
}

/// Plans a copy of `file_size_bytes` bytes: the initial part size, the
/// concurrency to start with and to go up to, and the length of the probe.
pub fn build_auto_plan(
    profile: AutoProfile,
    file_size_bytes: i64,
    same_region: bool,
    concurrency_cap: usize,
) -> (plan: AutoPlan)
    ensures
        plan == plan_of(profile, file_size_bytes as int, same_region, concurrency_cap as int),
        plan.well_formed(),
        concurrency_cap >= 1 ==> plan.max_concurrency <= concurrency_cap,
{
    let base_part_size = select_initial_part_size(file_size_bytes, profile);
    let initial_part_size = optimize_part_size_for_cost(
        file_size_bytes,
        base_part_size,
        profile,
        same_region,
    );
    let region_start = recommended_initial_concurrency(profile, same_region);
    let region_max = recommended_max_concurrency(profile, same_region);

    let hard_cap: usize = if concurrency_cap < 1 { 1 } else { concurrency_cap };
    let max_concurrency: usize = if region_max < hard_cap { region_max } else { hard_cap };
    let initial_concurrency: usize = if region_start < max_concurrency {
        region_start
    } else {
        max_concurrency
    };
    proof {
        crate::limits::lemma_round_up_mib(
            min_int(
                max_int(
                    ceil_div(file_size_bytes as int, target_max_parts(profile, same_region)),
                    S3_MIN_PART_SIZE as int,
                ),
                S3_MAX_PART_SIZE as int,
            ),
        );
    }
    AutoPlan {
        initial_part_size,
        initial_concurrency,
        max_concurrency,
        probe_parts: probe_part_count(profile),
    }
}

/// The profile's part size for an object of the given size, before any floor.
pub fn select_initial_part_size(file_size_bytes: i64, profile: AutoProfile) -> (part_size: i64)
    ensures
        part_size == base_part_size(file_size_bytes as int, profile),
        64 * MIB <= part_size <= 4 * GIB,
{
    let hundred_gb: i64 = 107_374_182_400;
    let one_tb: i64 = 1_099_511_627_776;
    let ten_tb: i64 = 10_995_116_277_760;

    match profile {
        AutoProfile::Aggressive => {
            if file_size_bytes < hundred_gb {
                64 * MIB
            } else if file_size_bytes < one_tb {
                128 * MIB
            } else if file_size_bytes < ten_tb {
                256 * MIB
            } else {
                512 * MIB
            }
        },
        AutoProfile::Balanced => {
            if file_size_bytes < hundred_gb {
                128 * MIB
            } else if file_size_bytes < one_tb {
                256 * MIB
            } else if file_size_bytes < ten_tb {
                512 * MIB
            } else {
                1024 * MIB
            }
        },
        AutoProfile::Conservative => {
            if file_size_bytes < hundred_gb {
                256 * MIB
            } else if file_size_bytes < one_tb {
                512 * MIB
            } else {
                1024 * MIB
            }
        },
        AutoProfile::CostEfficient => {
            if file_size_bytes < hundred_gb {
                GIB
            } else if file_size_bytes < one_tb {
                2 * GIB
            } else if file_size_bytes < ten_tb {
                3 * GIB
            } else {
                4 * GIB
            }
        },
    }
}

/// A byte count rounded up to whole mebibytes, for counts up to 5 GiB.
fn round_up_to_mib(bytes: i64) -> (rounded: i64)
    requires
        0 <= bytes <= S3_MAX_PART_SIZE,
    ensures
        rounded == round_up_mib(bytes as int),
        bytes <= rounded <= S3_MAX_PART_SIZE,
{
    ceil_div_i64(bytes, MIB) * MIB
}

/// Brings a desired part size within the provider's limits: at least 5 MiB
/// and what `max_parts` parts need to hold the object, at most 5 GiB. An
/// object without bytes needs nothing of its parts.
pub fn clamp_part_size_for_limit(
    file_size_bytes: i64,
    desired_part_size: i64,
    max_parts: i64,
) -> (part_size: i64)
    requires
        max_parts > 0,
    ensures
        part_size == clamped_part_size(
            file_size_bytes as int,
            desired_part_size as int,
            max_parts as int,
        ),
        S3_MIN_PART_SIZE <= part_size <= S3_MAX_PART_SIZE,
{
    let size: i64 = if file_size_bytes < 0 { 0 } else { file_size_bytes };
    let desired: i64 = if desired_part_size < S3_MIN_PART_SIZE {
        S3_MIN_PART_SIZE
    } else {
        desired_part_size
    };
    let per_part: i64 = ceil_div_i64(size, max_parts);
    proof {
        crate::limits::lemma_round_up_mib(max_int(per_part as int, S3_MIN_PART_SIZE as int));
    }
    if per_part >= S3_MAX_PART_SIZE {
        return S3_MAX_PART_SIZE;
    }
    let required: i64 = if per_part < S3_MIN_PART_SIZE { S3_MIN_PART_SIZE } else { per_part };
    let required_mib: i64 = round_up_to_mib(required);
    let raised: i64 = if desired < required_mib { required_mib } else { desired };
    if raised > S3_MAX_PART_SIZE {
        S3_MAX_PART_SIZE
    } else {
        raised
    }
}

/// The part size for the bytes left after a probe that measured
/// `measured_bytes_s` bytes per second: doubled (up to 1 GiB) from
/// 1200 MiB/s on, halved (down to 64 MiB) up to 120 MiB/s unless the profile
/// is cost-efficient, which then holds at 1 GiB or more; then clamped for
/// 9 500 parts.
pub fn tune_part_size_from_probe(
    profile: AutoProfile,
    remaining_bytes: i64,
    current_part_size: i64,
    measured_bytes_s: u64,
) -> (part_size: i64)
    ensures
        part_size == probe_part_size(
            profile,
            remaining_bytes as int,
            current_part_size as int,
            measured_bytes_s as int,
        ),
        S3_MIN_PART_SIZE <= part_size <= S3_MAX_PART_SIZE,
{
    let tuned: i64 = if measured_bytes_s >= PROBE_FAST_BYTES_S {
        if current_part_size >= 512 * MIB {
            GIB
        } else if current_part_size < 0 {
            // Anything below the 5 MiB floor clamps to the same size.
            0
        } else {
            current_part_size * 2
        }
    } else if matches!(profile, AutoProfile::CostEfficient) && measured_bytes_s
        <= PROBE_SLOW_BYTES_S {
        if current_part_size < GIB {
            GIB
        } else {
            current_part_size
        }
    } else if measured_bytes_s <= PROBE_SLOW_BYTES_S {
        if current_part_size < 128 * MIB {
            64 * MIB
        } else {
            current_part_size / 2
        }
    } else {
        current_part_size
    };
    clamp_part_size_for_limit(remaining_bytes, tuned, TUNE_MAX_PARTS)
}

/// Raises a candidate part size to the cost floor of the profile, so that
/// the copy stays under the profile's target part count where 5 GiB parts allow.
pub fn optimize_part_size_for_cost(
    file_size_bytes: i64,
    candidate_part_size: i64,
    profile: AutoProfile,
    same_region: bool,
) -> (part_size: i64)
    ensures
        part_size == cost_optimized(
            file_size_bytes as int,
            candidate_part_size as int,
            profile,
            same_region,
        ),
        file_size_bytes > 0 ==> S3_MIN_PART_SIZE <= part_size <= S3_MAX_PART_SIZE,
        file_size_bytes > 0 && candidate_part_size <= S3_MAX_PART_SIZE ==> part_size
            >= candidate_part_size,
{
    if file_size_bytes <= 0 {
        return candidate_part_size;
    }
    let target_max_parts: i64 = match profile {
        AutoProfile::Aggressive => if same_region { 3500 } else { 2800 },
        AutoProfile::Balanced => if same_region { 2200 } else { 1500 },
        AutoProfile::Conservative => if same_region { 1200 } else { 800 },
        AutoProfile::CostEfficient => if same_region { 500 } else { 350 },
    };
    let per_part: i64 = ceil_div_i64(file_size_bytes, target_max_parts);
    let floor: i64 = if per_part < S3_MIN_PART_SIZE {
        S3_MIN_PART_SIZE
    } else if per_part > S3_MAX_PART_SIZE {
        S3_MAX_PART_SIZE
    } else {
        per_part
    };
    let floor_mib: i64 = round_up_to_mib(floor);
    let raised: i64 = if candidate_part_size < floor_mib { floor_mib } else { candidate_part_size };
    if raised > S3_MAX_PART_SIZE {
        S3_MAX_PART_SIZE
    } else {
        raised
    }
}

/// The concurrency of the next window, from what the last one measured.
pub fn adapt_concurrency(
    profile: AutoProfile,
    current: usize,
    min_concurrency: usize,
    max_concurrency: usize,
    metrics: WindowMetrics,
) -> (next: usize)
    ensures
        next == adapted_concurrency(
            profile,
            current as int,
            min_concurrency as int,
            max_concurrency as int,
            metrics,
        ),
        min_concurrency <= current <= max_concurrency ==> min_concurrency <= next
            <= max_concurrency,
{
    let step: usize = match profile {
        AutoProfile::Aggressive => 8,
        AutoProfile::Balanced => 4,
        AutoProfile::Conservative => 2,
        AutoProfile::CostEfficient => 1,
    };
    let lowered: usize = if current < step { 0 } else { current - step };
    let lowered: usize = if lowered < min_concurrency { min_concurrency } else { lowered };

    if metrics.had_retryable_pressure {
        return lowered;
    }
    if metrics.avg_part_nanos < FAST_PART_NANOS && metrics.throughput_bytes_s > 0 {
        return if max_concurrency < step || current > max_concurrency - step {
            max_concurrency
        } else {
            current + step
        };
    }
    if metrics.avg_part_nanos > SLOW_PART_NANOS {
        return lowered;
    }
    current
}

/// Whether a copy is made with one server-side copy request: in auto mode,
/// for objects under 5 GiB.
pub fn is_instant_copy(auto: bool, file_size_bytes: i64) -> (instant: bool)
    ensures
        instant == (auto && file_size_bytes < 5 * GIB),
{
    auto && file_size_bytes < 5 * GIB
}

/// The concurrency that a profile starts with.
pub fn recommended_initial_concurrency(profile: AutoProfile, same_region: bool) -> (level: usize)
    ensures
        level == initial_concurrency_of(profile, same_region),
{
    match profile {
        AutoProfile::Aggressive => if same_region { 48 } else { 28 },
        AutoProfile::Balanced => if same_region { 24 } else { 16 },
        AutoProfile::Conservative => if same_region { 12 } else { 8 },
        AutoProfile::CostEfficient => if same_region { 8 } else { 6 },
    }
}

/// The highest concurrency that a profile goes up to.
pub fn recommended_max_concurrency(profile: AutoProfile, same_region: bool) -> (level: usize)
    ensures
        level == max_concurrency_of(profile, same_region),
{
    match profile {
        AutoProfile::Aggressive => if same_region { 96 } else { 64 },
        AutoProfile::Balanced => if same_region { 64 } else { 40 },
        AutoProfile::Conservative => if same_region { 32 } else { 20 },
        AutoProfile::CostEfficient => if same_region { 16 } else { 12 },
    }
}

/// How many parts a profile probes with.
pub fn probe_part_count(profile: AutoProfile) -> (parts: usize)
    ensures
        parts == probe_parts_of(profile),
{
    match profile {
        AutoProfile::Aggressive => 5,
        AutoProfile::Balanced => 4,
        AutoProfile::Conservative => 3,
        AutoProfile::CostEfficient => 2,
    }
}

/// A part size clamped for `max_parts` slots splits the object into at most
/// `max_parts` parts, as long as that many parts of 5 GiB can hold it.
pub proof fn lemma_clamp_bounds_part_count(size: int, desired: int, max_parts: int)
    requires
        0 < size,
        0 < max_parts,
        size <= max_parts * S3_MAX_PART_SIZE,
    ensures
        S3_MIN_PART_SIZE <= clamped_part_size(size, desired, max_parts) <= S3_MAX_PART_SIZE,
        ceil_div(size, clamped_part_size(size, desired, max_parts)) <= max_parts,
{
    let per_part = ceil_div(size, max_parts);
    let part = clamped_part_size(size, desired, max_parts);
    lemma_ceil_div_covers(size, max_parts);
    lemma_parts_fit(size, max_parts, S3_MAX_PART_SIZE as int);
    let required = max_int(per_part, S3_MIN_PART_SIZE as int);
    lemma_round_up_mib(required);
    assert(round_up_mib(required) <= S3_MAX_PART_SIZE) by {
        let units = ceil_div(required, MIB as int);
        assert(units * MIB < required + MIB);
        assert(required <= 5120 * MIB);
    }
    assert(part >= per_part);
    assert(part * max_parts >= size) by (nonlinear_arith)
        requires
            part >= per_part,
            per_part * max_parts >= size,
            max_parts > 0,
    ;
    lemma_parts_fit(size, part, max_parts);
}

/// A part size of whole mebibytes within the provider's limits is kept by
/// the clamp wherever `max_parts` parts of that size hold the object.
pub proof fn lemma_fitting_part_size_is_kept(size: int, mebibytes: int, max_parts: int)
    requires
        0 <= size,
        5 <= mebibytes <= 5120,
        0 < max_parts,
        size <= mebibytes * MIB * max_parts,
    ensures
        clamped_part_size(size, mebibytes * MIB, max_parts) == mebibytes * MIB,
{
    let part = mebibytes * MIB;
    let per_part = ceil_div(size, max_parts);
    lemma_ceil_div_covers(size, max_parts);
    assert(max_parts * part >= size) by (nonlinear_arith)
        requires
            size <= mebibytes * MIB * max_parts,
            part == mebibytes * MIB,
    ;
    lemma_parts_fit(size, max_parts, part);
    let required = max_int(per_part, S3_MIN_PART_SIZE as int);
    lemma_round_up_mib(required);
    assert(required <= part);
    assert(round_up_mib(required) <= part) by {
        let units = ceil_div(required, MIB as int);
        assert(units * MIB < required + MIB);
        assert(units <= mebibytes);
    }
}

/// The planned part size, clamped for the provider's
/// 10 000 parts, never splits an object into more than 10 000 parts. It holds
/// of every object that 10 000 parts of 5 GiB can hold.
pub proof fn lemma_part_count_bound(profile: AutoProfile, size: int, same_region: bool, cap: int)
    requires
        0 < size <= S3_MAX_OBJECT_SIZE,
    ensures
        ceil_div(
            size,
            clamped_part_size(
                size,
                plan_of(profile, size, same_region, cap).initial_part_size as int,
                S3_MAX_PARTS as int,
            ),
        ) <= S3_MAX_PARTS,
{
    lemma_clamp_bounds_part_count(
        size,
        plan_of(profile, size, same_region, cap).initial_part_size as int,
        S3_MAX_PARTS as int,
    );
}

/// The cost floor lies within the provider's limits.
pub proof fn lemma_cost_floor_in_limits(size: int, profile: AutoProfile, same_region: bool)
    ensures
        S3_MIN_PART_SIZE <= cost_floor(size, profile, same_region) <= S3_MAX_PART_SIZE,
{
    lemma_round_up_mib(
        min_int(
            max_int(ceil_div(size, target_max_parts(profile, same_region)), S3_MIN_PART_SIZE as int),
            S3_MAX_PART_SIZE as int,
        ),
    );
}

/// From 1 TiB on, the cost-efficient profile plans
/// parts at least as large as the balanced profile does, whatever the region
/// topology and the concurrency cap of either plan.
pub proof fn lemma_cost_efficient_parts_not_smaller(
    size: int,
    same_region_cost: bool,
    cap_cost: int,
    same_region_balanced: bool,
    cap_balanced: int,
)
    requires
        size >= TIB,
    ensures
        plan_of(AutoProfile::CostEfficient, size, same_region_cost, cap_cost).initial_part_size
            >= plan_of(
            AutoProfile::Balanced,
            size,
            same_region_balanced,
            cap_balanced,
        ).initial_part_size,
{
    let cost_target = target_max_parts(AutoProfile::CostEfficient, same_region_cost);
    let balanced_target = target_max_parts(AutoProfile::Balanced, same_region_balanced);
    lemma_ceil_div_antitone(size, cost_target, balanced_target);
    lemma_cost_floor_in_limits(size, AutoProfile::CostEfficient, same_region_cost);
    lemma_cost_floor_in_limits(size, AutoProfile::Balanced, same_region_balanced);
    let cost_raw = min_int(
        max_int(ceil_div(size, cost_target), S3_MIN_PART_SIZE as int),
        S3_MAX_PART_SIZE as int,
    );
    let balanced_raw = min_int(
        max_int(ceil_div(size, balanced_target), S3_MIN_PART_SIZE as int),
        S3_MAX_PART_SIZE as int,
    );
    assert(balanced_raw <= cost_raw);
    assert(round_up_mib(balanced_raw) <= round_up_mib(cost_raw));
}

/// Without pressure, a window whose parts took
/// under 8 s on average and that moved bytes raises the concurrency when it
/// is below the maximum; a window whose parts took over 25 s lowers it when
/// it is above the minimum; and under pressure it never rises, provided it was
/// not below the minimum to begin with.
pub proof fn lemma_adaptive_concurrency_moves(
    profile: AutoProfile,
    current: int,
    min_concurrency: int,
    max_concurrency: int,
    fast: WindowMetrics,
    slow: WindowMetrics,
    pressured: WindowMetrics,
)
    requires
        !fast.had_retryable_pressure,
        fast.avg_part_nanos < FAST_PART_NANOS,
        fast.throughput_bytes_s > 0,
        !slow.had_retryable_pressure,
        slow.avg_part_nanos > SLOW_PART_NANOS,
        pressured.had_retryable_pressure,
    ensures
        current < max_concurrency ==> adapted_concurrency(
            profile,
            current,
            min_concurrency,
            max_concurrency,
            fast,
        ) > current,
        current > min_concurrency ==> adapted_concurrency(
            profile,
            current,
            min_concurrency,
            max_concurrency,
            slow,
        ) < current,
        current >= min_concurrency ==> adapted_concurrency(
            profile,
            current,
            min_concurrency,
            max_concurrency,
            pressured,
        ) <= current,
{
}

/// The adapter keeps the concurrency between the minimum and the maximum.
pub proof fn lemma_adapted_concurrency_in_bounds(
    profile: AutoProfile,
    current: int,
    min_concurrency: int,
    max_concurrency: int,
    metrics: WindowMetrics,
)
    requires
        min_concurrency <= current <= max_concurrency,
    ensures
        min_concurrency <= adapted_concurrency(
            profile,
            current,
            min_concurrency,
            max_concurrency,
            metrics,
        ) <= max_concurrency,
{
}

} // verus!
