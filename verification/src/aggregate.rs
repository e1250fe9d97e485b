//! Running totals across all chunks and runs for one codec.

use vstd::prelude::*;
use crate::results::BenchmarkResults;

verus! {

/// Mathematical sum of a sequence of byte counts.
pub open spec fn sum_of_sizes(s: Seq<usize>) -> int
    decreases s.len(),
{
    if s.len() == 0 {
        0
    } else {
        sum_of_sizes(s.drop_last()) + s.last()
    }
}

/// Mathematical sum of a sequence of nanosecond durations.
pub open spec fn sum_of_times(s: Seq<u64>) -> int
    decreases s.len(),
{
    if s.len() == 0 {
        0
    } else {
        sum_of_times(s.drop_last()) + s.last()
    }
}

/// Totals saturate at `u64::MAX` instead of wrapping.
pub open spec fn clamped(x: int) -> int {
    if x > u64::MAX {
        u64::MAX as int
    } else {
        x
    }
}

/// Sums across all chunks and runs for one codec, each saturating at
/// `u64::MAX`: input bytes, compressed bytes, and nanoseconds spent in each
/// phase.
pub struct AggregatedResults {
    pub total_input: u64,
    pub total_compressed: u64,
    pub total_compress_nanos: u64,
    pub total_decompress_nanos: u64,
}

pub proof fn lemma_sum_of_sizes_nonneg(s: Seq<usize>)
    ensures
        sum_of_sizes(s) >= 0,
    decreases s.len(),
{
    if s.len() > 0 {
        lemma_sum_of_sizes_nonneg(s.drop_last());
    }
}

pub proof fn lemma_sum_of_times_nonneg(s: Seq<u64>)
    ensures
        sum_of_times(s) >= 0,
    decreases s.len(),
{
    if s.len() > 0 {
        lemma_sum_of_times_nonneg(s.drop_last());
    }
}

/// Sums distribute over concatenation of sample vectors.
pub proof fn lemma_sum_of_sizes_concat(a: Seq<usize>, b: Seq<usize>)
    ensures
        sum_of_sizes(a + b) == sum_of_sizes(a) + sum_of_sizes(b),
    decreases b.len(),
{
    if b.len() == 0 {
        assert(a + b =~= a);
    } else {
        lemma_sum_of_sizes_concat(a, b.drop_last());
        assert((a + b).drop_last() =~= a + b.drop_last());
        assert((a + b).last() == b.last());
    }
}

/// Sums distribute over concatenation of timing vectors.
pub proof fn lemma_sum_of_times_concat(a: Seq<u64>, b: Seq<u64>)
    ensures
        sum_of_times(a + b) == sum_of_times(a) + sum_of_times(b),
    decreases b.len(),
{
    if b.len() == 0 {
        assert(a + b =~= a);
    } else {
        lemma_sum_of_times_concat(a, b.drop_last());
        assert((a + b).drop_last() =~= a + b.drop_last());
        assert((a + b).last() == b.last());
    }
}

/// Saturating addition on `u64`.
fn sat_add_u64(a: u64, b: u64) -> (r: u64)
    ensures
        r == clamped(a + b),
{
    if a > u64::MAX - b {
        u64::MAX
    } else {
        a + b
    }
}

fn sum_sizes_clamped(s: &Vec<usize>) -> (r: u64)
    ensures
        r == clamped(sum_of_sizes(s@)),
{
    let mut total: u64 = 0;
    let mut i: usize = 0;
    while i < s.len()
        invariant
            i <= s@.len(),
            total == clamped(sum_of_sizes(s@.take(i as int))),
        decreases s@.len() - i,
    {
        proof {
            assert(s@.take(i + 1).drop_last() =~= s@.take(i as int));
            lemma_sum_of_sizes_nonneg(s@.take(i as int));
        }
        let x = s[i];
        let x64: u64 = x as u64;
        total = sat_add_u64(total, x64);
        i = i + 1;
    }
    proof {
        assert(s@.take(s@.len() as int) =~= s@);
    }
    total
}

fn sum_times_clamped(s: &Vec<u64>) -> (r: u64)
    ensures
        r == clamped(sum_of_times(s@)),
{
    let mut total: u64 = 0;
    let mut i: usize = 0;
    while i < s.len()
        invariant
            i <= s@.len(),
            total == clamped(sum_of_times(s@.take(i as int))),
        decreases s@.len() - i,
    {
        proof {
            assert(s@.take(i + 1).drop_last() =~= s@.take(i as int));
            lemma_sum_of_times_nonneg(s@.take(i as int));
        }
        let x = s[i];
        total = sat_add_u64(total, x);
        i = i + 1;
    }
    proof {
        assert(s@.take(s@.len() as int) =~= s@);
    }
    total
}

impl AggregatedResults {
    /// The totals that a vector of samples folds to.
    pub open spec fn spec_totals(r: BenchmarkResults) -> AggregatedResults {
        AggregatedResults {
            total_input: clamped(sum_of_sizes(r.input_sizes@)) as u64,
            total_compressed: clamped(sum_of_sizes(r.compressed_sizes@)) as u64,
            total_compress_nanos: clamped(sum_of_times(r.compress_times@)) as u64,
            total_decompress_nanos: clamped(sum_of_times(r.decompress_times@)) as u64,
        }
    }

    pub open spec fn is_aggregate_of(self, r: BenchmarkResults) -> bool {
        self == AggregatedResults::spec_totals(r)
    }

    /// Folds one codec's samples into totals.
    pub fn aggregate(r: &BenchmarkResults) -> (a: AggregatedResults)
        ensures
            a == AggregatedResults::spec_totals(*r),
            a.is_aggregate_of(*r),
    {
        proof {
            lemma_sum_of_sizes_nonneg(r.input_sizes@);
            lemma_sum_of_sizes_nonneg(r.compressed_sizes@);
            lemma_sum_of_times_nonneg(r.compress_times@);
            lemma_sum_of_times_nonneg(r.decompress_times@);
        }
        AggregatedResults {
            total_input: sum_sizes_clamped(&r.input_sizes),
            total_compressed: sum_sizes_clamped(&r.compressed_sizes),
            total_compress_nanos: sum_times_clamped(&r.compress_times),
            total_decompress_nanos: sum_times_clamped(&r.decompress_times),
        }
    }

    /// Field-wise saturating sum of two totals.
    pub open spec fn spec_combine(self, other: AggregatedResults) -> AggregatedResults {
        AggregatedResults {
            total_input: clamped(self.total_input + other.total_input) as u64,
            total_compressed: clamped(self.total_compressed + other.total_compressed) as u64,
            total_compress_nanos: clamped(
                self.total_compress_nanos + other.total_compress_nanos,
            ) as u64,
            total_decompress_nanos: clamped(
                self.total_decompress_nanos + other.total_decompress_nanos,
            ) as u64,
        }
    }

    /// Merges two codecs' totals, field by field.
    pub fn combine(&self, other: &AggregatedResults) -> (r: AggregatedResults)
        ensures
            r == self.spec_combine(*other),
    {
        AggregatedResults {
            total_input: sat_add_u64(self.total_input, other.total_input),
            total_compressed: sat_add_u64(self.total_compressed, other.total_compressed),
            total_compress_nanos: sat_add_u64(
                self.total_compress_nanos,
                other.total_compress_nanos,
            ),
            total_decompress_nanos: sat_add_u64(
                self.total_decompress_nanos,
                other.total_decompress_nanos,
            ),
        }
    }
}

/// Merging totals is commutative: the order in which two codecs' totals are
/// combined does not affect any summed quantity.
pub proof fn lemma_combine_commutative(a: AggregatedResults, b: AggregatedResults)
    ensures
        a.spec_combine(b) == b.spec_combine(a),
{
}

/// Merging totals is associative: chunk results may be folded in any
/// grouping without changing any summed quantity.
pub proof fn lemma_combine_associative(
    a: AggregatedResults,
    b: AggregatedResults,
    c: AggregatedResults,
)
    ensures
        a.spec_combine(b).spec_combine(c) == a.spec_combine(b.spec_combine(c)),
{
}

/// Aggregating the concatenation of two sample vectors gives the same totals
/// as aggregating each separately and combining: processing a file chunk by
/// chunk folds to the same final sums as processing all recorded samples at
/// once.
pub proof fn lemma_aggregate_of_merge(
    merged: BenchmarkResults,
    r1: BenchmarkResults,
    r2: BenchmarkResults,
    a1: AggregatedResults,
    a2: AggregatedResults,
)
    requires
        merged.input_sizes@ == r1.input_sizes@ + r2.input_sizes@,
        merged.compressed_sizes@ == r1.compressed_sizes@ + r2.compressed_sizes@,
        merged.compress_times@ == r1.compress_times@ + r2.compress_times@,
        merged.decompress_times@ == r1.decompress_times@ + r2.decompress_times@,
        a1.is_aggregate_of(r1),
        a2.is_aggregate_of(r2),
    ensures
        a1.spec_combine(a2).is_aggregate_of(merged),
{
    lemma_sum_of_sizes_concat(r1.input_sizes@, r2.input_sizes@);
    lemma_sum_of_sizes_concat(r1.compressed_sizes@, r2.compressed_sizes@);
    lemma_sum_of_times_concat(r1.compress_times@, r2.compress_times@);
    lemma_sum_of_times_concat(r1.decompress_times@, r2.decompress_times@);
    lemma_sum_of_sizes_nonneg(r1.input_sizes@);
    lemma_sum_of_sizes_nonneg(r2.input_sizes@);
    lemma_sum_of_sizes_nonneg(r1.compressed_sizes@);
    lemma_sum_of_sizes_nonneg(r2.compressed_sizes@);
    lemma_sum_of_times_nonneg(r1.compress_times@);
    lemma_sum_of_times_nonneg(r2.compress_times@);
    lemma_sum_of_times_nonneg(r1.decompress_times@);
    lemma_sum_of_times_nonneg(r2.decompress_times@);
}

} // verus!
