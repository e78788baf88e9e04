//! Limits fixed by the storage provider, and the units they are stated in.

use vstd::prelude::*;

verus! {

/// One mebibyte, in bytes.
pub const MIB: i64 = 1_048_576;

/// One gibibyte, in bytes.
pub const GIB: i64 = 1_073_741_824;

/// One tebibyte, in bytes.
pub const TIB: i64 = 1_099_511_627_776;

/// Smallest part of a multipart upload (the last part is exempt): 5 MiB.
pub const S3_MIN_PART_SIZE: i64 = 5_242_880;

/// Largest part of a multipart upload: 5 GiB.
pub const S3_MAX_PART_SIZE: i64 = 5_368_709_120;

/// Most parts one multipart upload can hold.
pub const S3_MAX_PARTS: i64 = 10_000;

/// Largest object a single server-side copy request can publish: 5 GiB.
pub const SINGLE_COPY_CEILING: i64 = 5_368_709_120;

/// Largest object that fits into one multipart upload: 10 000 parts of 5 GiB.
pub const S3_MAX_OBJECT_SIZE: i64 = 53_687_091_200_000;

/// `a / b` rounded up, for `a >= 0` and `b > 0`.
pub open spec fn ceil_div(a: int, b: int) -> int {
    if a % b == 0 {
        a / b
    } else {
        a / b + 1
    }
}

/// `x` rounded up to a whole number of mebibytes.
pub open spec fn round_up_mib(x: int) -> int {
    ceil_div(x, MIB as int) * MIB
}

/// The larger of two integers.
pub open spec fn max_int(a: int, b: int) -> int {
    if a >= b {
        a
    } else {
        b
    }
}

/// The smaller of two integers.
pub open spec fn min_int(a: int, b: int) -> int {
    if a <= b {
        a
    } else {
        b
    }
}

/// The ceiling of a quotient of positive machine integers.
pub fn ceil_div_i64(a: i64, b: i64) -> (q: i64)
    requires
        a >= 0,
        b > 0,
    ensures
        q == ceil_div(a as int, b as int),
        0 <= q <= a,
{
    let q: i64 = a / b;
    let r: i64 = a % b;
    assert(q * b <= a && q <= a) by (nonlinear_arith)
        requires
            q == a as int / b as int,
            a >= 0,
            b > 0,
    ;
    if r == 0 {
        q
    } else {
        assert(q < a) by (nonlinear_arith)
            requires
                q == a as int / b as int,
                r == a as int % b as int,
                r != 0,
                a >= 0,
                b > 0,
        ;
        q + 1
    }
}

/// A ceiling of a quotient bounds the quotient's parts from above:
/// `per` slots of size `ceil(total / per)` hold `total`.
pub proof fn lemma_ceil_div_covers(total: int, per: int)
    requires
        total >= 0,
        per > 0,
    ensures
        ceil_div(total, per) * per >= total,
        ceil_div(total, per) >= 0,
        total > 0 ==> ceil_div(total, per) >= 1,
{
    assert(ceil_div(total, per) * per >= total && ceil_div(total, per) >= 0 && (total > 0
        ==> ceil_div(total, per) >= 1)) by (nonlinear_arith)
        requires
            total >= 0,
            per > 0,
            ceil_div(total, per) == (if total % per == 0 {
                total / per
            } else {
                total / per + 1
            }),
    ;
}

/// Parts of size `part` with `part * slots >= total` are at most `slots` many.
pub proof fn lemma_parts_fit(total: int, part: int, slots: int)
    requires
        total >= 0,
        part > 0,
        slots >= 0,
        part * slots >= total,
    ensures
        ceil_div(total, part) <= slots,
{
    assert(ceil_div(total, part) <= slots) by (nonlinear_arith)
        requires
            total >= 0,
            part > 0,
            slots >= 0,
            part * slots >= total,
            ceil_div(total, part) == (if total % part == 0 {
                total / part
            } else {
                total / part + 1
            }),
    ;
}

/// A ceiling of a quotient does not shrink when the divisor does.
pub proof fn lemma_ceil_div_antitone(total: int, small: int, large: int)
    requires
        total >= 0,
        0 < small <= large,
    ensures
        ceil_div(total, large) <= ceil_div(total, small),
{
    lemma_ceil_div_covers(total, small);
    assert(large * ceil_div(total, small) >= total) by (nonlinear_arith)
        requires
            ceil_div(total, small) * small >= total,
            ceil_div(total, small) >= 0,
            0 < small <= large,
    ;
    lemma_parts_fit(total, large, ceil_div(total, small));
}

/// Rounding up to a mebibyte never lowers a value and adds less than a mebibyte.
pub proof fn lemma_round_up_mib(x: int)
    requires
        x >= 0,
    ensures
        x <= round_up_mib(x) < x + MIB,
        round_up_mib(x) % (MIB as int) == 0,
{
}

} // verus!
