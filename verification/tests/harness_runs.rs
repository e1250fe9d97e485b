//! The run harness: sample counts, merging, chunked processing, and the
//! skip-on-unsupported behaviour.

use codec_bench::aggregate::AggregatedResults;
use codec_bench::codecs::{codec_label, Codec, CodecErrorKind};
use codec_bench::harness::{
    benchmark_zstd_balanced, benchmark_zstd_fastest, benchmark_zstd_max, initial_states,
    process_chunk, run_benchmark, run_benchmark_capped,
};
use codec_bench::render::render_results;
use codec_bench::results::BenchmarkResults;

fn sample_data() -> Vec<u8> {
    let mut data = Vec::new();
    for i in 0..10_000u32 {
        data.push((i % 256) as u8);
    }
    data
}

#[test]
fn run_benchmark_records_one_sample_per_run() {
    let data = sample_data();
    let results = run_benchmark(Codec::Flate2Gzip, &data, 3).unwrap();
    assert_eq!(results.input_sizes.len(), 3);
    assert_eq!(results.compressed_sizes.len(), 3);
    assert_eq!(results.compress_times.len(), 3);
    assert_eq!(results.decompress_times.len(), 3);
    for &sz in &results.input_sizes {
        assert_eq!(sz, data.len());
    }
    for &sz in &results.compressed_sizes {
        assert!(sz > 0);
    }
}

#[test]
fn memcpy_compressed_size_equals_input_size() {
    let data = sample_data();
    let results = run_benchmark(Codec::Memcpy, &data, 2).unwrap();
    for &sz in &results.compressed_sizes {
        assert_eq!(sz, data.len());
    }
}

#[test]
fn named_zstd_benchmarks_run() {
    let data = sample_data();
    for f in [benchmark_zstd_fastest, benchmark_zstd_balanced, benchmark_zstd_max] {
        let results = f(&data, 1).unwrap();
        assert_eq!(results.input_sizes.len(), 1);
        assert!(results.compressed_sizes[0] > 0);
    }
}

#[test]
fn merge_concatenates_samples() {
    let mut a = BenchmarkResults {
        input_sizes: vec![1, 2],
        compressed_sizes: vec![3, 4],
        compress_times: vec![5, 6],
        decompress_times: vec![7, 8],
    };
    let b = BenchmarkResults {
        input_sizes: vec![9],
        compressed_sizes: vec![10],
        compress_times: vec![11],
        decompress_times: vec![12],
    };
    a.merge(b);
    assert_eq!(a.input_sizes, vec![1, 2, 9]);
    assert_eq!(a.compressed_sizes, vec![3, 4, 10]);
    assert_eq!(a.compress_times, vec![5, 6, 11]);
    assert_eq!(a.decompress_times, vec![7, 8, 12]);
}

#[test]
fn combine_is_fieldwise_sum_and_order_free() {
    let a = AggregatedResults {
        total_input: 100,
        total_compressed: 40,
        total_compress_nanos: 7,
        total_decompress_nanos: 9,
    };
    let b = AggregatedResults {
        total_input: 50,
        total_compressed: 10,
        total_compress_nanos: u64::MAX,
        total_decompress_nanos: 1,
    };
    let ab = a.combine(&b);
    let ba = b.combine(&a);
    assert_eq!(ab.total_input, 150);
    assert_eq!(ab.total_compressed, 50);
    assert_eq!(ab.total_compress_nanos, u64::MAX);
    assert_eq!(ab.total_decompress_nanos, 10);
    assert_eq!(ab.total_input, ba.total_input);
    assert_eq!(ab.total_compressed, ba.total_compressed);
    assert_eq!(ab.total_compress_nanos, ba.total_compress_nanos);
    assert_eq!(ab.total_decompress_nanos, ba.total_decompress_nanos);
}

#[test]
fn merging_then_aggregating_equals_combining_aggregates() {
    // Chunked processing folds to the same totals as a single pass over all
    // recorded samples.
    let data = sample_data();
    let mut first = run_benchmark(Codec::MinizOxide, &data, 2).unwrap();
    let second = run_benchmark(Codec::MinizOxide, &data, 1).unwrap();
    let a1 = AggregatedResults::aggregate(&first);
    let a2 = AggregatedResults::aggregate(&second);
    let combined = a1.combine(&a2);
    first.merge(second);
    let merged = AggregatedResults::aggregate(&first);
    assert_eq!(merged.total_input, combined.total_input);
    assert_eq!(merged.total_compressed, combined.total_compressed);
    assert_eq!(merged.total_compress_nanos, combined.total_compress_nanos);
    assert_eq!(merged.total_decompress_nanos, combined.total_decompress_nanos);
}

#[test]
fn chunked_memcpy_matches_single_chunk_compressed_sum() {
    // For a codec that is stateless across calls and size-preserving, the
    // aggregated compressed-size sum over chunks equals the single-chunk sum.
    let whole: Vec<u8> = (0..1000u32).map(|i| (i % 256) as u8).collect();
    let first_chunk = whole[..600].to_vec();
    let second_chunk = whole[600..].to_vec();

    let mut chunked = run_benchmark(Codec::Memcpy, &first_chunk, 1).unwrap();
    chunked.merge(run_benchmark(Codec::Memcpy, &second_chunk, 1).unwrap());
    let single = run_benchmark(Codec::Memcpy, &whole, 1).unwrap();

    let chunked_sum: usize = chunked.compressed_sizes.iter().sum();
    let single_sum: usize = single.compressed_sizes.iter().sum();
    assert_eq!(chunked_sum, single_sum);
}

#[test]
fn capped_codec_is_skipped_and_others_unaffected() {
    let data = vec![7u8; 64];
    let err = run_benchmark_capped(Codec::Lz4, 16, &data, 1).unwrap_err();
    assert_eq!(err.kind, CodecErrorKind::Unsupported);
    assert_eq!(err.codec, Codec::Lz4);
    // The failure does not disturb a later codec's benchmark.
    let ok = run_benchmark_capped(Codec::Snap, usize::MAX, &data, 1).unwrap();
    assert_eq!(ok.input_sizes.len(), 1);
    // And an input within the cap goes through.
    let ok = run_benchmark_capped(Codec::Lz4, 64, &data, 1).unwrap();
    assert_eq!(ok.input_sizes.len(), 1);
}

#[test]
fn process_chunk_fills_every_codec_state() {
    let chunk = sample_data();
    let mut states = initial_states();
    assert_eq!(states.len(), 12);
    process_chunk(&chunk, 2, &mut states);
    for st in &states {
        assert!(!st.skipped, "{:?} was skipped", st.codec);
        assert_eq!(st.results.input_sizes.len(), 2);
    }
    process_chunk(&chunk, 1, &mut states);
    for st in &states {
        assert_eq!(st.results.input_sizes.len(), 3);
        let row = render_results(codec_label(st.codec), &st.results).unwrap();
        assert_eq!(row[0], b'|');
    }
}
