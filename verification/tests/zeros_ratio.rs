//! Trivially compressible data never expands: for 10 MiB of zero bytes and
//! a single run, every real codec's ratio is at least 1.00, and the
//! pass-through baseline sits at exactly 1.00.

use codec_bench::aggregate::AggregatedResults;
use codec_bench::codecs::Codec;
use codec_bench::harness::run_benchmark;
use codec_bench::report::ratio_centi;

fn zeros_ratio_centi(codec: Codec) -> u128 {
    let data = vec![0u8; 10 * 1024 * 1024];
    let results = run_benchmark(codec, &data, 1).unwrap();
    let a = AggregatedResults::aggregate(&results);
    ratio_centi(a.total_input, a.total_compressed)
}

#[test]
fn zeros_ratio_memcpy_is_exactly_one() {
    assert_eq!(zeros_ratio_centi(Codec::Memcpy), 100);
}

#[test]
fn zeros_ratio_flate2() {
    assert!(zeros_ratio_centi(Codec::Flate2Gzip) >= 100);
}

#[test]
fn zeros_ratio_snap() {
    assert!(zeros_ratio_centi(Codec::Snap) >= 100);
}

#[test]
fn zeros_ratio_lz4() {
    assert!(zeros_ratio_centi(Codec::Lz4) >= 100);
}

#[test]
fn zeros_ratio_zstd_fastest() {
    assert!(zeros_ratio_centi(Codec::ZstdFastest) >= 100);
}

#[test]
fn zeros_ratio_zstd_balanced() {
    assert!(zeros_ratio_centi(Codec::ZstdBalanced) >= 100);
}

#[test]
fn zeros_ratio_zstd_max() {
    assert!(zeros_ratio_centi(Codec::ZstdMax) >= 100);
}

#[test]
fn zeros_ratio_xz2() {
    assert!(zeros_ratio_centi(Codec::Xz2) >= 100);
}

#[test]
fn zeros_ratio_lzma_rs() {
    assert!(zeros_ratio_centi(Codec::LzmaRs) >= 100);
}

#[test]
fn zeros_ratio_miniz_oxide() {
    assert!(zeros_ratio_centi(Codec::MinizOxide) >= 100);
}

#[test]
fn zeros_ratio_lz4_flex() {
    assert!(zeros_ratio_centi(Codec::Lz4Flex) >= 100);
}

#[test]
fn zeros_ratio_libdeflate() {
    assert!(zeros_ratio_centi(Codec::Libdeflate) >= 100);
}
