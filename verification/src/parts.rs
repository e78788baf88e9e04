//! Parts of a multipart copy: how the bytes that remain are laid out in
//! windows, how the results of a window are put in order, and what a window
//! measured.

use vstd::prelude::*;
use vstd::string::StringExecFns;
use crate::auto::WindowMetrics;
use crate::limits::{ceil_div, max_int, min_int, S3_MAX_PARTS};
use crate::text::{copy_text, decimal_text, push_decimal, text_from, Text};

verus! {

/// One part to copy: its number and the bytes of the source it covers, both
/// ends included.
#[derive(Copy, Clone, Debug, PartialEq, Eq, Structural)]
pub struct PartSpec {
    pub part_number: i32,
    pub first_byte: i64,
    pub last_byte: i64,
}

/// One copied part: its number and the entity tag the store gave it.
#[derive(Clone, Debug, PartialEq, Eq)]
pub struct CompletedPart {
    pub part_number: i32,
    pub etag: String,
}

impl DeepView for CompletedPart {
    type V = (int, Text);

    open spec fn deep_view(&self) -> (int, Text) {
        (self.part_number as int, self.etag@)
    }
}

/// The entity tag that stands for a part in a dry run.
pub open spec fn dry_run_etag() -> Text {
    "dry-run-etag"@
}

/// The upload id that stands for a multipart upload in a dry run.
pub open spec fn dry_run_upload_id() -> Text {
    "DRY-RUN-UPLOAD-ID"@
}

impl CompletedPart {
    /// The part that a dry run reports for a part number.
    pub fn dry_run(part_number: i32) -> (part: CompletedPart)
        ensures
            part.deep_view() == (part_number as int, dry_run_etag()),
    {
        CompletedPart { part_number, etag: text_from("dry-run-etag") }
    }

    /// A copy of the part.
    pub fn duplicate(&self) -> (copy: CompletedPart)
        ensures
            copy.deep_view() == self.deep_view(),
    {
        CompletedPart { part_number: self.part_number, etag: copy_text(&self.etag) }
    }
}

impl PartSpec {
    /// How many bytes the part covers.
    pub open spec fn bytes(self) -> int {
        self.last_byte - self.first_byte + 1
    }

    /// The part's bytes as the store's range header names them.
    pub open spec fn range_text(self) -> Text {
        "bytes="@ + decimal_text(self.first_byte as nat) + "-"@ + decimal_text(self.last_byte as nat)
    }

    /// How many bytes the part covers.
    pub fn byte_count(&self) -> (count: u64)
        requires
            0 <= self.first_byte <= self.last_byte,
        ensures
            count == self.bytes(),
    {
        (self.last_byte - self.first_byte) as u64 + 1
    }

    /// The range header of the part: `bytes=first-last`.
    pub fn range_header(&self) -> (header: String)
        requires
            0 <= self.first_byte,
            0 <= self.last_byte,
        ensures
            header@ == self.range_text(),
    {
        let mut header = text_from("bytes=");
        push_decimal(&mut header, self.first_byte as u64);
        header.append("-");
        push_decimal(&mut header, self.last_byte as u64);
        header
    }
}

/// The `i`-th part (from 0) of a layout that starts at byte `start` with part
/// number `first_number`: `part_size` bytes, fewer at the object's end.
pub open spec fn part_at(first_number: int, start: int, size: int, part_size: int, i: int) -> PartSpec {
    PartSpec {
        part_number: (first_number + i) as i32,
        first_byte: (start + i * part_size) as i64,
        last_byte: (min_int(start + (i + 1) * part_size, size) - 1) as i64,
    }
}

/// How many parts the next window holds: as many as run concurrently, as
/// the bytes left need, and as there are part numbers left.
pub open spec fn window_len(
    next_number: int,
    start: int,
    size: int,
    part_size: int,
    concurrency: int,
) -> int {
    min_int(
        concurrency,
        min_int(ceil_div(size - start, part_size), S3_MAX_PARTS + 1 - next_number),
    )
}

/// The parts of the next window, in ascending order.
pub open spec fn window_parts(
    next_number: int,
    start: int,
    size: int,
    part_size: int,
    concurrency: int,
) -> Seq<PartSpec> {
    Seq::new(
        window_len(next_number, start, size, part_size, concurrency) as nat,
        |i: int| part_at(next_number, start, size, part_size, i),
    )
}

/// `i` parts leave bytes over exactly when fewer than all parts are laid out.
pub proof fn lemma_parts_before_end(remaining: int, part_size: int, i: int)
    requires
        remaining >= 0,
        part_size > 0,
        i >= 0,
    ensures
        (i * part_size < remaining) <==> (i < ceil_div(remaining, part_size)),
        (i + 1) * part_size == i * part_size + part_size,
{
    assert((i + 1) * part_size == i * part_size + part_size) by (nonlinear_arith);
    assert((i * part_size < remaining) <==> (i < ceil_div(remaining, part_size)))
        by (nonlinear_arith)
        requires
            remaining >= 0,
            part_size > 0,
            i >= 0,
            ceil_div(remaining, part_size) == (if remaining % part_size == 0 {
                remaining / part_size
            } else {
                remaining / part_size + 1
            }),
    ;
}

/// Lays out the next window of parts.
pub fn plan_window(
    next_number: i32,
    start: i64,
    size: i64,
    part_size: i64,
    concurrency: usize,
) -> (parts: Vec<PartSpec>)
    requires
        1 <= next_number <= S3_MAX_PARTS + 1,
        0 <= start <= size,
        part_size >= 1,
    ensures
        parts@ == window_parts(
            next_number as int,
            start as int,
            size as int,
            part_size as int,
            concurrency as int,
        ),
        parts@.len() <= concurrency,
        parts@.len() <= S3_MAX_PARTS + 1 - next_number,
        start < size && concurrency > 0 && next_number <= S3_MAX_PARTS ==> parts@.len() > 0,
        forall|i: int|
            0 <= i < parts@.len() ==> (#[trigger] parts@[i]).part_number == next_number + i && 0
                <= parts@[i].first_byte <= parts@[i].last_byte < size,
        parts@.len() > 0 ==> parts@[0].first_byte == start,
        parts@.len() > 0 ==> start < parts@.last().last_byte + 1 <= size,
        parts@.len() == 0 ==> start == size || concurrency == 0 || next_number == S3_MAX_PARTS + 1,
{
    let mut parts: Vec<PartSpec> = Vec::new();
    let mut number: i32 = next_number;
    let mut cursor: i64 = start;
    let ghost remaining = size - start;
    let ghost all = ceil_div(remaining, part_size as int);
    proof {
        lemma_parts_before_end(remaining, part_size as int, 0);
    }
    while parts.len() < concurrency && cursor < size && number <= 10_000
        invariant
            1 <= next_number <= S3_MAX_PARTS + 1,
            0 <= start <= size,
            part_size >= 1,
            remaining == size - start,
            all == ceil_div(remaining, part_size as int),
            number == next_number + parts@.len(),
            number <= S3_MAX_PARTS + 1,
            parts@.len() <= concurrency,
            parts@.len() <= all,
            start <= cursor <= size,
            cursor < size ==> cursor == start + parts@.len() * part_size,
            cursor == size ==> parts@.len() >= all,
            parts@.len() > 0 ==> start < cursor,
            forall|i: int|
                0 <= i < parts@.len() ==> #[trigger] parts@[i] == part_at(
                    next_number as int,
                    start as int,
                    size as int,
                    part_size as int,
                    i,
                ),
            forall|i: int|
                0 <= i < parts@.len() ==> 0 <= (#[trigger] parts@[i]).first_byte
                    <= parts@[i].last_byte < size,
            parts@.len() > 0 ==> parts@[0].first_byte == start,
            parts@.len() > 0 ==> parts@.last().last_byte + 1 == cursor,
        decreases size - cursor,
    {
        let ghost i = parts@.len() as int;
        proof {
            lemma_parts_before_end(remaining, part_size as int, i);
            lemma_parts_before_end(remaining, part_size as int, i + 1);
        }
        let left: i64 = size - cursor;
        let last: i64 = if left <= part_size {
            size - 1
        } else {
            cursor + part_size - 1
        };
        let part = PartSpec { part_number: number, first_byte: cursor, last_byte: last };
        assert(part == part_at(
            next_number as int,
            start as int,
            size as int,
            part_size as int,
            i,
        ));
        let ghost before = parts@;
        parts.push(part);
        assert(parts@ == before.push(part));
        assert(i == 0 ==> cursor == start) by {
            assert(0 * part_size == 0) by (nonlinear_arith);
        }
        assert(parts@[0].first_byte == start) by {
            if i > 0 {
                assert(parts@[0] == before[0]);
            }
        }
        assert forall|k: int| 0 <= k < parts@.len() implies #[trigger] parts@[k] == part_at(
            next_number as int,
            start as int,
            size as int,
            part_size as int,
            k,
        ) by {
            if k < i {
                assert(parts@[k] == before[k]);
            }
        }
        assert forall|k: int| 0 <= k < parts@.len() implies 0 <= (#[trigger] parts@[k]).first_byte
            <= parts@[k].last_byte < size by {
            if k < i {
                assert(parts@[k] == before[k]);
            }
        }
        number = number + 1;
        cursor = last + 1;
    }
    proof {
        let len = window_len(
            next_number as int,
            start as int,
            size as int,
            part_size as int,
            concurrency as int,
        );
        assert(parts@.len() == len);
        assert(parts@ =~= window_parts(
            next_number as int,
            start as int,
            size as int,
            part_size as int,
            concurrency as int,
        ));
    }
    parts
}

/// Where the first part with the given number stands.
pub open spec fn position_of(parts: Seq<(int, Text)>, number: int) -> Option<int>
    decreases parts.len(),
{
    if parts.len() == 0 {
        None
    } else if parts[0].0 == number {
        Some(0)
    } else {
        match position_of(parts.drop_first(), number) {
            Some(j) => Some(j + 1),
            None => None,
        }
    }
}

/// Whether each of `count` part numbers from `first` on has a part.
pub open spec fn all_present(parts: Seq<(int, Text)>, first: int, count: int) -> bool {
    forall|number: int|
        first <= number < first + count ==> (#[trigger] position_of(parts, number)) is Some
}

/// Whether the parts answer a window of `count` parts numbered from `first`
/// on: as many parts, and one for each number.
pub open spec fn answers_window(parts: Seq<(int, Text)>, first: int, count: int) -> bool {
    parts.len() == count && all_present(parts, first, count)
}

/// The parts of a window by ascending part number.
pub open spec fn arranged(parts: Seq<(int, Text)>, first: int, count: int) -> Seq<(int, Text)> {
    Seq::new(count as nat, |i: int| parts[position_of(parts, first + i)->0])
}

/// A position that is found holds a part with the number looked for, and no
/// earlier position does.
pub proof fn lemma_position_of(parts: Seq<(int, Text)>, number: int)
    ensures
        match position_of(parts, number) {
            Some(j) => 0 <= j < parts.len() && parts[j].0 == number && forall|k: int|
                0 <= k < j ==> (#[trigger] parts[k]).0 != number,
            None => forall|k: int| 0 <= k < parts.len() ==> (#[trigger] parts[k]).0 != number,
        },
    decreases parts.len(),
{
    if parts.len() > 0 && parts[0].0 != number {
        let rest = parts.drop_first();
        lemma_position_of(rest, number);
        match position_of(rest, number) {
            Some(j) => {
                assert forall|k: int| 0 <= k < j + 1 implies (#[trigger] parts[k]).0 != number by {
                    if k > 0 {
                        assert(rest[k - 1] == parts[k]);
                    }
                }
                assert(rest[j] == parts[j + 1]);
            },
            None => {
                assert forall|k: int| 0 <= k < parts.len() implies (#[trigger] parts[k]).0
                    != number by {
                    if k > 0 {
                        assert(rest[k - 1] == parts[k]);
                    }
                }
            },
        }
    }
}

/// The parts of an answered window, arranged, carry the window's numbers in
/// ascending order.
pub proof fn lemma_arranged_is_numbered(parts: Seq<(int, Text)>, first: int, count: int)
    requires
        count >= 0,
        answers_window(parts, first, count),
    ensures
        arranged(parts, first, count).len() == count,
        forall|i: int|
            0 <= i < count ==> (#[trigger] arranged(parts, first, count)[i]).0 == first + i,
{
    assert forall|i: int| 0 <= i < count implies (#[trigger] arranged(parts, first, count)[i]).0
        == first + i by {
        lemma_position_of(parts, first + i);
        assert(position_of(parts, first + i) is Some);
    }
}

/// The position of the first part with the given number.
pub fn find_part(parts: &Vec<CompletedPart>, number: i32) -> (position: Option<usize>)
    ensures
        match position {
            Some(j) => position_of(parts.deep_view(), number as int) == Some(j as int) && j
                < parts@.len(),
            None => position_of(parts.deep_view(), number as int) is None,
        },
{
    let n: usize = parts.len();
    let mut i: usize = 0;
    let ghost all = parts.deep_view();
    while i < n
        invariant
            i <= n,
            n == parts@.len(),
            all == parts.deep_view(),
            forall|k: int| 0 <= k < i ==> (#[trigger] all[k]).0 != number,
        decreases n - i,
    {
        if parts[i].part_number == number {
            proof {
                lemma_position_of(all, number as int);
                assert(all[i as int].0 == number);
            }
            return Some(i);
        }
        i = i + 1;
    }
    proof {
        lemma_position_of(all, number as int);
        if position_of(all, number as int) is Some {
            let j = position_of(all, number as int)->0;
            assert(all[j].0 == number);
        }
    }
    None
}

/// Puts the parts of a window in ascending order of part number; `None`
/// where they do not answer the window.
pub fn arrange_parts(parts: &Vec<CompletedPart>, first_number: i32, count: usize) -> (ordered:
    Option<Vec<CompletedPart>>)
    requires
        first_number >= 0,
        first_number as int + count as int <= i32::MAX,
    ensures
        match ordered {
            Some(out) => answers_window(parts.deep_view(), first_number as int, count as int)
                && out.deep_view() == arranged(
                parts.deep_view(),
                first_number as int,
                count as int,
            ),
            None => !answers_window(parts.deep_view(), first_number as int, count as int),
        },
{
    if parts.len() != count {
        return None;
    }
    let ghost all = parts.deep_view();
    let mut out: Vec<CompletedPart> = Vec::new();
    let mut i: usize = 0;
    while i < count
        invariant
            i <= count,
            first_number >= 0,
            first_number as int + count as int <= i32::MAX,
            all == parts.deep_view(),
            parts@.len() == count,
            out@.len() == i,
            forall|number: int|
                first_number <= number < first_number + i ==> (#[trigger] position_of(
                    all,
                    number,
                )) is Some,
            forall|k: int|
                0 <= k < i ==> #[trigger] out.deep_view()[k] == all[position_of(
                    all,
                    first_number + k,
                )->0],
        decreases count - i,
    {
        let number: i32 = first_number + i as i32;
        let ghost before = out.deep_view();
        match find_part(parts, number) {
            Some(j) => {
                let part = parts[j].duplicate();
                assert(part.deep_view() == all[j as int]);
                out.push(part);
                assert(out.deep_view() =~= before.push(all[j as int]));
                assert forall|k: int| 0 <= k < i + 1 implies #[trigger] out.deep_view()[k]
                    == all[position_of(all, first_number + k)->0] by {
                    if k < i {
                        assert(out.deep_view()[k] == before[k]);
                    }
                }
            },
            None => {
                assert(position_of(all, first_number + i) is None);
                return None;
            },
        }
        i = i + 1;
    }
    assert(out.deep_view() =~= arranged(all, first_number as int, count as int));
    Some(out)
}

/// Bytes per second for `bytes` bytes in `nanos` nanoseconds; a time under a
/// millisecond counts as a millisecond, and the rate stops at `u64::MAX`.
pub open spec fn rate_bytes_s(bytes: int, nanos: int) -> int {
    min_int(bytes * 1_000_000_000 / max_int(nanos, 1_000_000), u64::MAX as int)
}

/// What a window measured: the mean time of a part, and the window's bytes
/// over its wall-clock time.
pub open spec fn metrics_of(
    window_bytes: int,
    wall_nanos: int,
    part_nanos_total: int,
    parts: int,
    had_retryable_pressure: bool,
) -> WindowMetrics {
    WindowMetrics {
        avg_part_nanos: (part_nanos_total / max_int(parts, 1)) as u64,
        throughput_bytes_s: rate_bytes_s(window_bytes, wall_nanos) as u64,
        had_retryable_pressure,
    }
}

/// The rate of a transfer in bytes per second.
pub fn transfer_rate(bytes: u64, nanos: u64) -> (rate: u64)
    ensures
        rate == rate_bytes_s(bytes as int, nanos as int),
{
    let floor: u64 = if nanos < 1_000_000 { 1_000_000 } else { nanos };
    let scaled: u128 = bytes as u128 * 1_000_000_000u128;
    let rate: u128 = scaled / (floor as u128);
    if rate > u64::MAX as u128 {
        u64::MAX
    } else {
        rate as u64
    }
}

/// The metrics of a window of `parts` parts that moved `window_bytes` bytes.
pub fn window_metrics(
    window_bytes: u64,
    wall_nanos: u64,
    part_nanos_total: u64,
    parts: usize,
    had_retryable_pressure: bool,
) -> (metrics: WindowMetrics)
    ensures
        metrics == metrics_of(
            window_bytes as int,
            wall_nanos as int,
            part_nanos_total as int,
            parts as int,
            had_retryable_pressure,
        ),
{
    let divisor: u64 = if parts < 1 { 1 } else { parts as u64 };
    assert(part_nanos_total as int / divisor as int <= part_nanos_total) by (nonlinear_arith)
        requires
            divisor >= 1,
    ;
    WindowMetrics {
        avg_part_nanos: part_nanos_total / divisor,
        throughput_bytes_s: transfer_rate(window_bytes, wall_nanos),
        had_retryable_pressure,
    }
}

/// What a window of parts covers: it holds at most as many parts as run
/// concurrently and as there are part numbers left, at least one where a
/// byte and a part number are left, and its parts end within the object.
pub proof fn lemma_window_extent(
    next_number: int,
    start: int,
    size: int,
    part_size: int,
    concurrency: int,
)
    requires
        1 <= next_number <= S3_MAX_PARTS + 1,
        0 <= start < size <= i64::MAX,
        part_size >= 1,
        concurrency >= 0,
    ensures
        ({
            let parts = window_parts(next_number, start, size, part_size, concurrency);
            &&& parts.len() == window_len(next_number, start, size, part_size, concurrency)
            &&& parts.len() <= concurrency
            &&& parts.len() <= S3_MAX_PARTS + 1 - next_number
            &&& (concurrency >= 1 && next_number <= S3_MAX_PARTS ==> parts.len() >= 1)
            &&& (parts.len() >= 1 ==> start < parts.last().last_byte + 1 <= size)
        }),
{
    let remaining = size - start;
    let len = window_len(next_number, start, size, part_size, concurrency);
    crate::limits::lemma_ceil_div_covers(remaining, part_size);
    assert(len >= 0);
    if len >= 1 {
        lemma_parts_before_end(remaining, part_size, len - 1);
        assert(len * part_size >= 1) by (nonlinear_arith)
            requires
                len >= 1,
                part_size >= 1,
        ;
    }
}

/// Copies a list of completed parts.
pub fn duplicate_parts(parts: &Vec<CompletedPart>) -> (copy: Vec<CompletedPart>)
    ensures
        copy.deep_view() == parts.deep_view(),
{
    let mut copy: Vec<CompletedPart> = Vec::new();
    let n: usize = parts.len();
    let mut i: usize = 0;
    while i < n
        invariant
            i <= n,
            n == parts@.len(),
            copy@.len() == i,
            forall|j: int| 0 <= j < i ==> copy.deep_view()[j] == parts.deep_view()[j],
        decreases n - i,
    {
        copy.push(parts[i].duplicate());
        i = i + 1;
    }
    assert(copy.deep_view() =~= parts.deep_view());
    copy
}

/// The parts of a window follow one another without a gap, from the byte
/// that the window starts at.
pub proof fn lemma_window_is_contiguous(
    next_number: int,
    start: int,
    size: int,
    part_size: int,
    concurrency: int,
)
    requires
        1 <= next_number <= S3_MAX_PARTS + 1,
        0 <= start < size <= i64::MAX,
        part_size >= 1,
        concurrency >= 0,
    ensures
        ({
            let parts = window_parts(next_number, start, size, part_size, concurrency);
            &&& (parts.len() >= 1 ==> parts[0].first_byte == start)
            &&& forall|i: int|
                0 <= i < parts.len() ==> (#[trigger] parts[i]).part_number == next_number + i
                    && parts[i].first_byte <= parts[i].last_byte
            &&& forall|i: int|
                0 <= i < parts.len() - 1 ==> parts[i + 1].first_byte == (#[trigger] parts[i]).last_byte
                    + 1
        }),
{
    let remaining = size - start;
    let parts = window_parts(next_number, start, size, part_size, concurrency);
    crate::limits::lemma_ceil_div_covers(remaining, part_size);
    assert forall|i: int| 0 <= i < parts.len() implies (#[trigger] parts[i]).part_number
        == next_number + i && parts[i].first_byte <= parts[i].last_byte && parts[i].first_byte
        == start + i * part_size && parts[i].last_byte + 1 == min_int(
        start + (i + 1) * part_size,
        size,
    ) by {
        lemma_parts_before_end(remaining, part_size, i);
        assert(i * part_size >= 0) by (nonlinear_arith)
            requires
                i >= 0,
                part_size >= 1,
        ;
    }
    assert forall|i: int| 0 <= i < parts.len() - 1 implies parts[i + 1].first_byte == (
    #[trigger] parts[i]).last_byte + 1 by {
        lemma_parts_before_end(remaining, part_size, i + 1);
        assert(parts[i + 1].first_byte == start + (i + 1) * part_size);
    }
    if parts.len() >= 1 {
        assert(0 * part_size == 0) by (nonlinear_arith);
        assert(parts[0].first_byte == start + 0 * part_size);
    }
}

/// Where a window ends: its parts take `part_size` bytes each as far as the
/// object goes, and the last of them starts within the object.
pub proof fn lemma_window_end(
    next_number: int,
    start: int,
    size: int,
    part_size: int,
    concurrency: int,
)
    requires
        1 <= next_number <= S3_MAX_PARTS + 1,
        0 <= start < size <= i64::MAX,
        part_size >= 1,
        concurrency >= 0,
        window_parts(next_number, start, size, part_size, concurrency).len() >= 1,
    ensures
        ({
            let parts = window_parts(next_number, start, size, part_size, concurrency);
            &&& parts.last().last_byte + 1 == min_int(start + parts.len() * part_size, size)
            &&& start + (parts.len() - 1) * part_size < size
        }),
{
    let remaining = size - start;
    let parts = window_parts(next_number, start, size, part_size, concurrency);
    let len = parts.len() as int;
    crate::limits::lemma_ceil_div_covers(remaining, part_size);
    lemma_parts_before_end(remaining, part_size, len - 1);
    assert(len * part_size >= 1) by (nonlinear_arith)
        requires
            len >= 1,
            part_size >= 1,
    ;
    assert((len - 1) * part_size >= 0) by (nonlinear_arith)
        requires
            len >= 1,
            part_size >= 1,
    ;
    assert(parts.last() == part_at(next_number, start, size, part_size, len - 1));
}

} // verus!
