//! Frame-time statistics: sorting the recorded samples, percentile
//! selection, average frames per second, and the rolling average used by
//! the periodic progress reports.
//!
//! Durations are microseconds; frequencies are reported in thousandths of
//! a frame per second so that integer arithmetic carries three decimals.

use vstd::prelude::*;
use vstd::relations::{sorted_by, total_ordering};
use vstd::seq_lib::lemma_multiset_commutative;
use vstd::seq_lib::lemma_sorted_unique;

verus! {

/// The ascending order on frame-time samples.
pub open spec fn le_sample() -> spec_fn(u64, u64) -> bool {
    |x: u64, y: u64| x <= y
}

proof fn lemma_le_sample_total()
    ensures
        total_ordering(le_sample()),
{
}

/// The ascending reordering of a sample sequence.
pub open spec fn sorted_samples_spec(s: Seq<u64>) -> Seq<u64> {
    s.sort_by(le_sample())
}

proof fn lemma_insert_to_multiset(s: Seq<u64>, pos: int, v: u64)
    requires
        0 <= pos <= s.len(),
    ensures
        s.insert(pos, v).to_multiset() =~= s.to_multiset().insert(v),
{
    broadcast use vstd::multiset::group_multiset_axioms;
    broadcast use vstd::seq_lib::group_to_multiset_ensures;

    let front = s.subrange(0, pos);
    let back = s.subrange(pos, s.len() as int);
    assert(s.insert(pos, v) == front.push(v) + back);
    assert(s =~= front + back);
    lemma_multiset_commutative(front.push(v), back);
    lemma_multiset_commutative(front, back);
    assert(front.push(v).to_multiset() =~= front.to_multiset().insert(v));
}

/// Sorts the recorded samples ascending, returning a fresh vector that is
/// exactly the ascending reordering of the input.
pub fn sort_samples(samples: &Vec<u64>) -> (r: Vec<u64>)
    ensures
        r@ == sorted_samples_spec(samples@),
        sorted_by(r@, le_sample()),
        r@.to_multiset() == samples@.to_multiset(),
        r@.len() == samples@.len(),
{
    let mut out: Vec<u64> = Vec::new();
    let mut i: usize = 0;
    proof {
        assert(out@ =~= samples@.subrange(0, 0));
    }
    while i < samples.len()
        invariant
            i <= samples@.len(),
            out@.len() == i,
            sorted_by(out@, le_sample()),
            out@.to_multiset() == samples@.subrange(0, i as int).to_multiset(),
        decreases samples@.len() - i,
    {
        let v = samples[i];
        let mut pos: usize = 0;
        while pos < out.len() && out[pos] <= v
            invariant
                pos <= out@.len(),
                forall|k: int| 0 <= k < pos ==> (#[trigger] out@[k]) <= v,
                sorted_by(out@, le_sample()),
            decreases out@.len() - pos,
        {
            pos = pos + 1;
        }
        let ghost prev = out@;
        out.insert(pos, v);
        proof {
            prev.insert_ensures(pos as int, v);
            assert forall|a: int, b: int| 0 <= a < b < out@.len() implies le_sample()(
                out@[a],
                out@[b],
            ) by {
                if b < pos {
                    assert(out@[a] == prev[a] && out@[b] == prev[b]);
                } else if a > pos {
                    assert(out@[a] == prev[a - 1] && out@[b] == prev[b - 1]);
                } else if a == pos {
                    assert(out@[a] == v && out@[b] == prev[b - 1]);
                    assert(pos < prev.len() ==> v < prev[pos as int]);
                    assert(b - 1 >= pos);
                    if b - 1 > pos {
                        assert(le_sample()(prev[pos as int], prev[b - 1]));
                    }
                } else if b == pos {
                    assert(out@[a] == prev[a] && out@[b] == v);
                } else {
                    assert(a < pos && b > pos);
                    assert(out@[a] == prev[a] && out@[b] == prev[b - 1]);
                    if b - 1 > pos - 1 && b - 1 < prev.len() && a < b - 1 {
                        assert(le_sample()(prev[a], prev[b - 1]));
                    }
                }
            }
            lemma_insert_to_multiset(prev, pos as int, v);
            assert(samples@.subrange(0, i + 1) =~= samples@.subrange(0, i as int).push(
                samples@[i as int],
            ));
            broadcast use vstd::seq_lib::group_to_multiset_ensures;

            assert(out@.to_multiset() =~= samples@.subrange(0, i + 1).to_multiset());
        }
        i = i + 1;
    }
    proof {
        assert(samples@.subrange(0, samples@.len() as int) =~= samples@);
        lemma_le_sample_total();
        samples@.lemma_sort_by_ensures(le_sample());
        lemma_sorted_unique(out@, samples@.sort_by(le_sample()), le_sample());
    }
    out
}

/// The sorted index that the k-th percentile reads, for n samples:
/// `floor(n * k / 100)`. The median uses k = 50, which makes this `n / 2`.
pub open spec fn percentile_index_spec(n: int, k: int) -> int {
    n * k / 100
}

/// Computes the sorted index of the k-th percentile.
pub fn percentile_index(n: usize, k: usize) -> (r: usize)
    requires
        k < 100,
        n <= usize::MAX / 100,
    ensures
        r == percentile_index_spec(n as int, k as int),
        n >= 1 ==> r < n,
{
    proof {
        assert((n as int) * (k as int) <= (n as int) * 99) by (nonlinear_arith)
            requires
                k < 100,
                0 <= n,
        ;
        if n >= 1 {
            assert((n as int) * (k as int) / 100 < n) by (nonlinear_arith)
                requires
                    1 <= n,
                    0 <= k < 100,
            ;
        }
    }
    n * k / 100
}

/// The whole-run summary: totals, average frame rate in thousandths of a
/// frame per second, and the P50/P95/P99 frame times in microseconds.
#[derive(Clone, Copy, Debug, PartialEq, Eq, Structural)]
pub struct RunStats {
    pub frames: u64,
    pub total_time_us: u64,
    pub avg_fps_milli: u64,
    pub p50_us: u64,
    pub p95_us: u64,
    pub p99_us: u64,
}

/// Summarizes a finished run. Returns `None` exactly when there is no data
/// to report: an empty sample sequence or a zero total time, so that no
/// division by zero and no out-of-range read can occur. Otherwise every
/// field is pinned: the average frame rate is `frames * 1_000_000_000 /
/// total_time_us` thousandths of a frame per second, and each percentile
/// is the ascending-sorted sample at index `floor(n * k / 100)`.
pub fn summarize(samples: &Vec<u64>, frames: u64, total_time_us: u64) -> (r: Option<RunStats>)
    requires
        frames <= 0xFFFF_FFFF,
        samples@.len() <= usize::MAX / 100,
    ensures
        r is Some <==> (samples@.len() > 0 && total_time_us > 0),
        r is Some ==> r->Some_0 == (RunStats {
            frames,
            total_time_us,
            avg_fps_milli: (frames as int * 1_000_000_000 / total_time_us as int) as u64,
            p50_us: sorted_samples_spec(samples@)[samples@.len() as int / 2],
            p95_us: sorted_samples_spec(samples@)[percentile_index_spec(
                samples@.len() as int,
                95,
            )],
            p99_us: sorted_samples_spec(samples@)[percentile_index_spec(
                samples@.len() as int,
                99,
            )],
        }),
{
    if samples.len() == 0 || total_time_us == 0 {
        return None;
    }
    let sorted = sort_samples(samples);
    let n = sorted.len();
    let i50 = n / 2;
    let i95 = percentile_index(n, 95);
    let i99 = percentile_index(n, 99);
    let avg_fps_milli = frames * 1_000_000_000 / total_time_us;
    Some(
        RunStats {
            frames,
            total_time_us,
            avg_fps_milli,
            p50_us: sorted[i50],
            p95_us: sorted[i95],
            p99_us: sorted[i99],
        },
    )
}

/// How many of the youngest samples the rolling average reads.
pub const ROLLING_WINDOW: usize = 30;

/// The window a progress report averages over: the last 30 samples, or
/// all of them while the run is younger than that.
pub open spec fn rolling_window_spec(s: Seq<u64>) -> Seq<u64> {
    if s.len() <= ROLLING_WINDOW {
        s
    } else {
        s.subrange(s.len() - ROLLING_WINDOW, s.len() as int)
    }
}

/// The sum of a sample sequence.
pub open spec fn seq_sum_spec(s: Seq<u64>) -> int
    decreases s.len(),
{
    if s.len() == 0 {
        0
    } else {
        seq_sum_spec(s.drop_last()) + s.last()
    }
}

proof fn lemma_seq_sum_bound(s: Seq<u64>, b: int)
    requires
        forall|i: int| 0 <= i < s.len() ==> (#[trigger] s[i]) <= b,
        0 <= b,
    ensures
        0 <= seq_sum_spec(s) <= s.len() * b,
    decreases s.len(),
{
    if s.len() == 0 {
    } else {
        lemma_seq_sum_bound(s.drop_last(), b);
        assert((s.len() - 1) * b + b == s.len() * b) by (nonlinear_arith);
    }
}

/// The rolling average frame time over the window, in microseconds.
/// Returns `None` exactly when no sample has been recorded yet.
pub fn rolling_avg_frame_us(samples: &Vec<u64>) -> (r: Option<u64>)
    ensures
        r is Some <==> samples@.len() > 0,
        r is Some ==> r->Some_0 == seq_sum_spec(rolling_window_spec(samples@))
            / rolling_window_spec(samples@).len() as int,
{
    let n = samples.len();
    if n == 0 {
        return None;
    }
    let start: usize = if n > ROLLING_WINDOW {
        n - ROLLING_WINDOW
    } else {
        0
    };
    let ghost window = rolling_window_spec(samples@);
    proof {
        assert(window =~= samples@.subrange(start as int, n as int));
    }
    let mut acc: u128 = 0;
    let mut j: usize = start;
    while j < n
        invariant
            start <= j <= n,
            n == samples@.len(),
            acc == seq_sum_spec(samples@.subrange(start as int, j as int)),
            acc <= (j - start) * 0xFFFF_FFFF_FFFF_FFFFu64,
        decreases n - j,
    {
        let ghost before = samples@.subrange(start as int, j as int);
        acc = acc + (samples[j] as u128);
        proof {
            let after = samples@.subrange(start as int, j + 1);
            assert(after.drop_last() =~= before);
            assert((j - start) * 0xFFFF_FFFF_FFFF_FFFFu64 + 0xFFFF_FFFF_FFFF_FFFFu64 == (j + 1
                - start) * 0xFFFF_FFFF_FFFF_FFFFu64) by (nonlinear_arith);
        }
        j = j + 1;
    }
    let k = n - start;
    let avg: u128 = acc / (k as u128);
    proof {
        assert(acc <= k * 0xFFFF_FFFF_FFFF_FFFFu64);
        vstd::arithmetic::div_mod::lemma_div_is_ordered(
            acc as int,
            k as int * 0xFFFF_FFFF_FFFF_FFFFu64 as int,
            k as int,
        );
        assert(k as int * 0xFFFF_FFFF_FFFF_FFFFu64 as int / k as int
            == 0xFFFF_FFFF_FFFF_FFFFu64 as int) by (nonlinear_arith)
            requires
                1 <= k,
        ;
    }
    Some(avg as u64)
}

/// The frame rate matching an average frame time, in thousandths of a
/// frame per second; zero when the average itself is zero.
pub fn fps_milli_from_avg(avg_frame_us: u64) -> (r: u64)
    ensures
        avg_frame_us == 0 ==> r == 0,
        avg_frame_us > 0 ==> r == 1_000_000_000u64 / avg_frame_us,
{
    if avg_frame_us == 0 {
        0
    } else {
        1_000_000_000 / avg_frame_us
    }
}

} // verus!
