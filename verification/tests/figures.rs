//! Exact values of the reporter's arithmetic and rendering.

use codec_bench::aggregate::AggregatedResults;
use codec_bench::render::{format_centi, format_u128, pad_left, pad_right, render_row, render_results};
use codec_bench::report::{compute_throughput, ratio_centi, Throughput};
use codec_bench::results::BenchmarkResults;

#[test]
fn ratio_is_input_over_compressed_in_hundredths() {
    assert_eq!(ratio_centi(1000, 400), 250);
    assert_eq!(ratio_centi(1, 3), 33);
    assert_eq!(ratio_centi(0, 5), 0);
    assert_eq!(ratio_centi(u64::MAX, 1), (u64::MAX as u128) * 100);
}

#[test]
fn ratio_of_zero_compressed_is_zero() {
    assert_eq!(ratio_centi(12345, 0), 0);
}

#[test]
fn throughput_exact_value() {
    // 10 MiB in one second is 10.00 MiB/s.
    assert_eq!(compute_throughput(10 * 1024 * 1024, 1_000_000_000), Throughput::Finite(1000));
    // 1 MiB in half a second is 2.00 MiB/s.
    assert_eq!(compute_throughput(1_048_576, 500_000_000), Throughput::Finite(200));
}

#[test]
fn throughput_zero_time_is_infinite() {
    assert_eq!(compute_throughput(123, 0), Throughput::Infinite);
    assert_eq!(compute_throughput(0, 0), Throughput::Infinite);
}

#[test]
fn throughput_never_negative() {
    for bytes in [0u64, 1, 999, u64::MAX] {
        for nanos in [0u64, 1, 7, u64::MAX] {
            match compute_throughput(bytes, nanos) {
                Throughput::Finite(_v) => {
                    // v is unsigned; reaching this arm at all means the
                    // figure is a finite nonnegative value.
                }
                Throughput::Infinite => assert_eq!(nanos, 0),
            }
        }
    }
}

#[test]
fn decimal_formatting() {
    assert_eq!(format_u128(0), b"0".to_vec());
    assert_eq!(format_u128(7), b"7".to_vec());
    assert_eq!(format_u128(10), b"10".to_vec());
    assert_eq!(format_u128(90210), b"90210".to_vec());
}

#[test]
fn centi_formatting() {
    assert_eq!(format_centi(0), b"0.00".to_vec());
    assert_eq!(format_centi(5), b"0.05".to_vec());
    assert_eq!(format_centi(250), b"2.50".to_vec());
    assert_eq!(format_centi(123456), b"1234.56".to_vec());
}

#[test]
fn padding() {
    assert_eq!(pad_left(b"ab".to_vec(), 5), b"   ab".to_vec());
    assert_eq!(pad_right(b"ab".to_vec(), 5), b"ab   ".to_vec());
    assert_eq!(pad_left(b"abcdef".to_vec(), 5), b"abcdef".to_vec());
    assert_eq!(pad_right(b"abcdef".to_vec(), 5), b"abcdef".to_vec());
}

#[test]
fn row_rendering_matches_fixed_width_format() {
    let row = render_row(
        b"zstd (level 3)".to_vec(),
        250,
        &Throughput::Finite(123456),
        &Throughput::Infinite,
    );
    let expected = format!(
        "| {:<20} | {:>6} | {:>16} | {:>18} |",
        "zstd (level 3)", "2.50", "1234.56", "inf"
    );
    assert_eq!(row, expected.into_bytes());
}

#[test]
fn render_results_computes_figures_from_totals() {
    let results = BenchmarkResults {
        input_sizes: vec![1_048_576],
        compressed_sizes: vec![524_288],
        compress_times: vec![1_000_000_000],
        decompress_times: vec![500_000_000],
    };
    let row = render_results("x", &results).unwrap();
    let expected = format!("| {:<20} | {:>6} | {:>16} | {:>18} |", "x", "2.00", "1.00", "2.00");
    assert_eq!(row, expected.into_bytes());
}

#[test]
fn render_results_empty_is_none() {
    let empty = BenchmarkResults::new();
    assert!(render_results("anything", &empty).is_none());
}

#[test]
fn aggregate_sums_and_saturates() {
    let results = BenchmarkResults {
        input_sizes: vec![10, 20, 30],
        compressed_sizes: vec![1, 2, 3],
        compress_times: vec![5, 5, 5],
        decompress_times: vec![u64::MAX, 1, 0],
    };
    let a = AggregatedResults::aggregate(&results);
    assert_eq!(a.total_input, 60);
    assert_eq!(a.total_compressed, 6);
    assert_eq!(a.total_compress_nanos, 15);
    assert_eq!(a.total_decompress_nanos, u64::MAX);
}
