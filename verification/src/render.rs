//! Fixed-width table rendering, down to the bytes of each row.
//!
//! Rows are built as byte vectors so that every step — decimal formatting,
//! two-decimal fixed-point display, padding — has an exact specification.

use vstd::prelude::*;
use crate::aggregate::AggregatedResults;
use crate::report::Throughput;
use crate::report::ratio_centi;
use crate::report::ratio_centi_spec;
use crate::report::compute_throughput;
use crate::report::spec_throughput;
use crate::results::BenchmarkResults;
use vstd::string::StrSliceExecFns;
use vstd::string::StringSliceAdditionalSpecFns;

verus! {

/// The ASCII digit for a value below ten.
pub open spec fn digit_byte(d: nat) -> u8 {
    (48 + d) as u8
}

/// The shortest decimal representation of `n`, in ASCII bytes.
pub open spec fn spec_decimal(n: nat) -> Seq<u8>
    decreases n,
{
    if n < 10 {
        seq![digit_byte(n)]
    } else {
        spec_decimal(n / 10).push(digit_byte(n % 10))
    }
}

/// A fixed-point value in hundredths, shown with exactly two decimals:
/// `250` is shown as `2.50`.
pub open spec fn spec_centi(n: nat) -> Seq<u8> {
    spec_decimal(n / 100) + seq![46u8, digit_byte((n / 10) % 10), digit_byte(n % 10)]
}

pub open spec fn spec_spaces(n: nat) -> Seq<u8> {
    Seq::new(n, |i: int| 32u8)
}

/// `s` padded with leading spaces up to `width`; a longer value is kept
/// whole rather than truncated.
pub open spec fn spec_pad_left(s: Seq<u8>, width: nat) -> Seq<u8> {
    if s.len() >= width {
        s
    } else {
        spec_spaces((width - s.len()) as nat) + s
    }
}

/// `s` padded with trailing spaces up to `width`.
pub open spec fn spec_pad_right(s: Seq<u8>, width: nat) -> Seq<u8> {
    if s.len() >= width {
        s
    } else {
        s + spec_spaces((width - s.len()) as nat)
    }
}

/// A throughput cell: the fixed-point value, or `inf`.
pub open spec fn spec_throughput_text(t: Throughput) -> Seq<u8> {
    match t {
        Throughput::Finite(v) => spec_centi(v as nat),
        Throughput::Infinite => seq![105u8, 110u8, 102u8],
    }
}

/// One table row: `| <name, 20 wide> | <ratio, 6> | <compress, 16> | <decompress, 18> |`.
pub open spec fn spec_row(name: Seq<u8>, ratio: nat, ct: Throughput, dt: Throughput) -> Seq<u8> {
    seq![124u8, 32u8] + spec_pad_right(name, 20) + seq![32u8, 124u8, 32u8] + spec_pad_left(
        spec_centi(ratio),
        6,
    ) + seq![32u8, 124u8, 32u8] + spec_pad_left(spec_throughput_text(ct), 16) + seq![
        32u8,
        124u8,
        32u8,
    ] + spec_pad_left(spec_throughput_text(dt), 18) + seq![32u8, 124u8]
}

/// Decimal formatting of an unsigned value.
pub fn format_u128(n: u128) -> (r: Vec<u8>)
    ensures
        r@ == spec_decimal(n as nat),
    decreases n,
{
    if n < 10 {
        let mut v: Vec<u8> = Vec::new();
        v.push(48 + (n as u8));
        v
    } else {
        let mut v = format_u128(n / 10);
        v.push(48 + ((n % 10) as u8));
        v
    }
}

/// Two-decimal formatting of a fixed-point value in hundredths.
pub fn format_centi(n: u128) -> (r: Vec<u8>)
    ensures
        r@ == spec_centi(n as nat),
{
    let mut v = format_u128(n / 100);
    v.push(46);
    v.push(48 + (((n / 10) % 10) as u8));
    v.push(48 + ((n % 10) as u8));
    proof {
        assert(v@ =~= spec_centi(n as nat));
    }
    v
}

fn spaces(n: usize) -> (r: Vec<u8>)
    ensures
        r@ == spec_spaces(n as nat),
{
    let mut v: Vec<u8> = Vec::new();
    let mut i: usize = 0;
    while i < n
        invariant
            i <= n,
            v@ =~= spec_spaces(i as nat),
        decreases n - i,
    {
        v.push(32);
        proof {
            assert(v@ =~= spec_spaces((i + 1) as nat));
        }
        i = i + 1;
    }
    v
}

pub fn pad_left(v: Vec<u8>, width: usize) -> (r: Vec<u8>)
    ensures
        r@ == spec_pad_left(v@, width as nat),
{
    if v.len() >= width {
        v
    } else {
        let mut out = spaces(width - v.len());
        let mut v = v;
        out.append(&mut v);
        out
    }
}

pub fn pad_right(v: Vec<u8>, width: usize) -> (r: Vec<u8>)
    ensures
        r@ == spec_pad_right(v@, width as nat),
{
    if v.len() >= width {
        v
    } else {
        let pad = width - v.len();
        let mut out = v;
        let mut tail = spaces(pad);
        out.append(&mut tail);
        out
    }
}

fn throughput_cell(t: &Throughput) -> (r: Vec<u8>)
    ensures
        r@ == spec_throughput_text(*t),
{
    match t {
        Throughput::Finite(v) => format_centi(*v),
        Throughput::Infinite => {
            let mut v: Vec<u8> = Vec::new();
            v.push(105);
            v.push(110);
            v.push(102);
            proof {
                assert(v@ =~= seq![105u8, 110u8, 102u8]);
            }
            v
        },
    }
}

/// Renders one fixed-width table row from already-computed figures.
pub fn render_row(name: Vec<u8>, ratio: u128, ct: &Throughput, dt: &Throughput) -> (r: Vec<u8>)
    ensures
        r@ == spec_row(name@, ratio as nat, *ct, *dt),
{
    let ghost name_view = name@;
    let mut row: Vec<u8> = Vec::new();
    row.push(124);
    row.push(32);
    let mut name_cell = pad_right(name, 20);
    row.append(&mut name_cell);
    row.push(32);
    row.push(124);
    row.push(32);
    let mut ratio_cell = pad_left(format_centi(ratio), 6);
    row.append(&mut ratio_cell);
    row.push(32);
    row.push(124);
    row.push(32);
    let mut ct_cell = pad_left(throughput_cell(ct), 16);
    row.append(&mut ct_cell);
    row.push(32);
    row.push(124);
    row.push(32);
    let mut dt_cell = pad_left(throughput_cell(dt), 18);
    row.append(&mut dt_cell);
    row.push(32);
    row.push(124);
    proof {
        assert(row@ =~= spec_row(name_view, ratio as nat, *ct, *dt));
    }
    row
}

/// What the row for one codec's totals must hold: the ratio and the two
/// throughput figures computed from the aggregated sums.
pub open spec fn spec_report_row(name: Seq<u8>, a: AggregatedResults) -> Seq<u8> {
    spec_row(
        name,
        ratio_centi_spec(a.total_input, a.total_compressed) as nat,
        spec_throughput(a.total_input, a.total_compress_nanos),
        spec_throughput(a.total_input, a.total_decompress_nanos),
    )
}

/// Converts one codec's samples into its final table row, or `None` when the
/// codec recorded no samples at all (so that an empty result is reported as
/// missing rather than rendered as a zero row).
pub fn render_results(name: &str, results: &BenchmarkResults) -> (r: Option<Vec<u8>>)
    ensures
        r is None <==> (results.input_sizes@.len() == 0 || results.compressed_sizes@.len() == 0
            || results.compress_times@.len() == 0 || results.decompress_times@.len() == 0),
        r matches Some(row) ==> row@ == spec_report_row(
            name.spec_bytes(),
            AggregatedResults::spec_totals(*results),
        ),
{
    if results.input_sizes.is_empty() || results.compressed_sizes.is_empty()
        || results.compress_times.is_empty() || results.decompress_times.is_empty() {
        return None;
    }
    let agg = AggregatedResults::aggregate(results);
    let ratio = ratio_centi(agg.total_input, agg.total_compressed);
    let ct = compute_throughput(agg.total_input, agg.total_compress_nanos);
    let dt = compute_throughput(agg.total_input, agg.total_decompress_nanos);
    let name_bytes = name.as_bytes_vec();
    let row = render_row(name_bytes, ratio, &ct, &dt);
    Some(row)
}

} // verus!

