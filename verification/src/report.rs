//! Ratio and throughput figures computed from aggregated totals.
//!
//! All figures are fixed-point integers in hundredths, so the whole reporter
//! is ordinary verified integer arithmetic: a ratio of `2.50` is the value
//! `250`, and a throughput of `1234.56` MiB/s is the value `123456`.

use vstd::prelude::*;
use crate::aggregate::AggregatedResults;
use crate::aggregate::clamped;

verus! {

/// Throughput in hundredths of a MiB per second, or positive infinity when
/// no time at all was recorded for the phase.
#[derive(Clone, Copy, Debug, PartialEq, Eq, Structural)]
pub enum Throughput {
    Finite(u128),
    Infinite,
}

/// Compression ratio in hundredths: total input bytes divided by total
/// compressed bytes, rounded toward zero, and 0 when no compressed bytes
/// were recorded (avoiding a division by zero).
pub open spec fn ratio_centi_spec(total_input: u64, total_compressed: u64) -> int {
    if total_compressed == 0 {
        0
    } else {
        (total_input * 100) / (total_compressed as int)
    }
}

pub fn ratio_centi(total_input: u64, total_compressed: u64) -> (r: u128)
    ensures
        r == ratio_centi_spec(total_input, total_compressed),
{
    if total_compressed == 0 {
        0
    } else {
        ((total_input as u128) * 100) / (total_compressed as u128)
    }
}

/// Hundredths of a MiB per second: bytes scaled by 10^11, divided by the
/// elapsed nanoseconds scaled by 2^20. Meaningful only when `nanos > 0`.
pub open spec fn throughput_centi_spec(bytes: u64, nanos: u64) -> int {
    (bytes * 100_000_000_000) / (nanos * 1_048_576)
}

pub open spec fn spec_throughput(bytes: u64, nanos: u64) -> Throughput {
    if nanos == 0 {
        Throughput::Infinite
    } else {
        Throughput::Finite(throughput_centi_spec(bytes, nanos) as u128)
    }
}

pub fn compute_throughput(bytes: u64, nanos: u64) -> (r: Throughput)
    ensures
        r == spec_throughput(bytes, nanos),
{
    if nanos == 0 {
        Throughput::Infinite
    } else {
        Throughput::Finite(((bytes as u128) * 100_000_000_000) / ((nanos as u128) * 1_048_576))
    }
}

/// The ratio is never negative, and whenever compressed bytes were recorded
/// it is exactly the quotient of total input bytes by total compressed
/// bytes, in hundredths rounded toward zero.
pub proof fn lemma_ratio_exact(total_input: u64, total_compressed: u64)
    ensures
        ratio_centi_spec(total_input, total_compressed) >= 0,
        total_compressed > 0 ==> ratio_centi_spec(total_input, total_compressed) == (total_input
            * 100) / (total_compressed as int),
        total_compressed == 0 ==> ratio_centi_spec(total_input, total_compressed) == 0,
{
}

/// A throughput figure is never negative and never undefined: it is either a
/// nonnegative finite count of hundredths of MiB per second, or positive
/// infinity when the phase took no measurable time.
pub proof fn lemma_throughput_never_negative(bytes: u64, nanos: u64)
    ensures
        match spec_throughput(bytes, nanos) {
            Throughput::Finite(v) => v >= 0 && v == throughput_centi_spec(bytes, nanos),
            Throughput::Infinite => nanos == 0,
        },
        nanos == 0 <==> spec_throughput(bytes, nanos) is Infinite,
{
}

/// Merging two codecs' totals and then reporting gives exactly the figures
/// computed from the field-wise (saturating) sums of the two: the report is
/// a function of the combined totals alone.
pub proof fn lemma_report_of_combine(a: AggregatedResults, b: AggregatedResults)
    ensures
        ratio_centi_spec(
            a.spec_combine(b).total_input,
            a.spec_combine(b).total_compressed,
        ) == ratio_centi_spec(
            clamped(a.total_input + b.total_input) as u64,
            clamped(a.total_compressed + b.total_compressed) as u64,
        ),
        spec_throughput(
            a.spec_combine(b).total_input,
            a.spec_combine(b).total_compress_nanos,
        ) == spec_throughput(
            clamped(a.total_input + b.total_input) as u64,
            clamped(a.total_compress_nanos + b.total_compress_nanos) as u64,
        ),
        spec_throughput(
            a.spec_combine(b).total_input,
            a.spec_combine(b).total_decompress_nanos,
        ) == spec_throughput(
            clamped(a.total_input + b.total_input) as u64,
            clamped(a.total_decompress_nanos + b.total_decompress_nanos) as u64,
        ),
{
}

} // verus!
