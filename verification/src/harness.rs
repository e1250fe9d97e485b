//! The benchmark run harness: one warm-up cycle, then `num_runs` timed
//! compress/decompress cycles for one codec over one chunk.

use vstd::prelude::*;
use crate::codecs::Codec;
use crate::codecs::CodecError;
use crate::codecs::CodecErrorKind;
use crate::codecs::Phase;
use crate::codecs::codec_compress;
use crate::codecs::codec_decompress;
use crate::codecs::exceeds_limit;
use crate::codecs::input_limit;
use crate::results::BenchmarkResults;
use crate::timing::elapsed_nanos;
use crate::timing::instant_now;

verus! {

/// What a finished benchmark invocation guarantees. On success there is one
/// sample per timed run: every input size equals the chunk's length, every
/// compressed size is positive for a non-empty chunk (and equals the input
/// size for the pass-through codec). On failure the error names this codec,
/// and it is `Unsupported` exactly when the chunk is over the codec's
/// documented input-size limit. The pass-through codec always succeeds:
/// no outside call decides anything for it, so success is owed.
pub open spec fn benchmark_post(
    c: Codec,
    data: Seq<u8>,
    num_runs: nat,
    r: Result<BenchmarkResults, CodecError>,
) -> bool {
    &&& match r {
        Ok(res) => {
            &&& res.wf()
            &&& res.num_samples() == num_runs
            &&& forall|i: int| 0 <= i < num_runs ==> res.input_sizes@[i] == data.len()
            &&& data.len() > 0 ==> forall|i: int|
                0 <= i < num_runs ==> res.compressed_sizes@[i] > 0
            &&& c == Codec::Memcpy ==> forall|i: int|
                0 <= i < num_runs ==> res.compressed_sizes@[i] == data.len()
            &&& !exceeds_limit(c, data.len())
        },
        Err(e) => {
            &&& e.codec == c
            &&& (e.kind == CodecErrorKind::Unsupported <==> exceeds_limit(c, data.len()))
        },
    }
    &&& (c == Codec::Memcpy ==> r is Ok)
}

/// Runs one warm-up cycle whose timings are discarded, then `num_runs` timed
/// compress/decompress cycles of `codec` over `data`, recording one sample
/// per run. Any failure — including a decompressed length that does not
/// match the original — stops the invocation and reports the codec as
/// skipped; an input over the codec's size limit is refused up front without
/// attempting compression.
#[verifier::loop_isolation(false)]
pub fn run_benchmark(codec: Codec, data: &Vec<u8>, num_runs: usize) -> (r: Result<
    BenchmarkResults,
    CodecError,
>)
    ensures
        benchmark_post(codec, data@, num_runs as nat, r),
{
    let over_limit = match input_limit(codec) {
        Some(m) => data.len() > m,
        None => false,
    };
    if over_limit {
        return Err(
            CodecError {
                codec,
                phase: Phase::Compress,
                kind: CodecErrorKind::Unsupported,
                message: "input exceeds the codec's input-size limit".to_owned(),
            },
        );
    }
    // Warm-up cycle: timings discarded, failures still end the invocation.
    match codec_compress(codec, data) {
        Err(m) => {
            return Err(
                CodecError {
                    codec,
                    phase: Phase::Compress,
                    kind: CodecErrorKind::Failed,
                    message: m,
                },
            );
        },
        Ok(warm_compressed) => {
            if data.len() > 0 && warm_compressed.len() == 0 {
                return Err(
                    CodecError {
                        codec,
                        phase: Phase::Compress,
                        kind: CodecErrorKind::EmptyOutput,
                        message: "compression produced no bytes".to_owned(),
                    },
                );
            }
            match codec_decompress(codec, &warm_compressed, data.len()) {
                Err(m) => {
                    return Err(
                        CodecError {
                            codec,
                            phase: Phase::Decompress,
                            kind: CodecErrorKind::Failed,
                            message: m,
                        },
                    );
                },
                Ok(warm_decompressed) => {
                    if warm_decompressed.len() != data.len() {
                        return Err(
                            CodecError {
                                codec,
                                phase: Phase::Decompress,
                                kind: CodecErrorKind::SizeMismatch,
                                message: "decompressed size differs from the original".to_owned(),
                            },
                        );
                    }
                },
            }
        },
    }
    let mut results = BenchmarkResults::new();
    let mut run: usize = 0;
    while run < num_runs
        invariant
            run <= num_runs,
            results.wf(),
            results.num_samples() == run,
            forall|i: int| 0 <= i < run ==> results.input_sizes@[i] == data@.len(),
            data@.len() > 0 ==> forall|i: int|
                0 <= i < run ==> results.compressed_sizes@[i] > 0,
            codec == Codec::Memcpy ==> forall|i: int|
                0 <= i < run ==> results.compressed_sizes@[i] == data@.len(),
        decreases num_runs - run,
    {
        let compress_start = instant_now();
        let compressed = match codec_compress(codec, data) {
            Ok(v) => v,
            Err(m) => {
                return Err(
                    CodecError {
                        codec,
                        phase: Phase::Compress,
                        kind: CodecErrorKind::Failed,
                        message: m,
                    },
                );
            },
        };
        let compress_nanos = elapsed_nanos(&compress_start);
        if data.len() > 0 && compressed.len() == 0 {
            return Err(
                CodecError {
                    codec,
                    phase: Phase::Compress,
                    kind: CodecErrorKind::EmptyOutput,
                    message: "compression produced no bytes".to_owned(),
                },
            );
        }
        let decompress_start = instant_now();
        let decompressed = match codec_decompress(codec, &compressed, data.len()) {
            Ok(v) => v,
            Err(m) => {
                return Err(
                    CodecError {
                        codec,
                        phase: Phase::Decompress,
                        kind: CodecErrorKind::Failed,
                        message: m,
                    },
                );
            },
        };
        let decompress_nanos = elapsed_nanos(&decompress_start);
        if decompressed.len() != data.len() {
            return Err(
                CodecError {
                    codec,
                    phase: Phase::Decompress,
                    kind: CodecErrorKind::SizeMismatch,
                    message: "decompressed size differs from the original".to_owned(),
                },
            );
        }
        results.input_sizes.push(data.len());
        results.compressed_sizes.push(compressed.len());
        results.compress_times.push(compress_nanos);
        results.decompress_times.push(decompress_nanos);
        run = run + 1;
    }
    Ok(results)
}

/// The sum of a vector whose entries all hold the same size.
proof fn lemma_sum_of_constant(s: Seq<usize>, c: int)
    requires
        forall|i: int| 0 <= i < s.len() ==> s[i] == c,
    ensures
        crate::aggregate::sum_of_sizes(s) == s.len() * c,
    decreases s.len(),
{
    if s.len() > 0 {
        lemma_sum_of_constant(s.drop_last(), c);
        assert(s.last() == s[s.len() - 1]);
        assert((s.len() - 1) * c + c == s.len() * c) by (nonlinear_arith);
    }
}

/// Chunking does not change the aggregated compressed-size sum for the
/// pass-through codec, whose compressed size always equals its input size:
/// benchmarking two chunks separately and benchmarking their concatenation
/// as a single chunk, with the same number of runs, fold to the same total.
pub proof fn lemma_chunked_memcpy_compressed_sum(
    a: Seq<u8>,
    b: Seq<u8>,
    n: nat,
    ra: BenchmarkResults,
    rb: BenchmarkResults,
    rw: BenchmarkResults,
)
    requires
        benchmark_post(Codec::Memcpy, a, n, Ok(ra)),
        benchmark_post(Codec::Memcpy, b, n, Ok(rb)),
        benchmark_post(Codec::Memcpy, a + b, n, Ok(rw)),
    ensures
        crate::aggregate::sum_of_sizes(ra.compressed_sizes@) + crate::aggregate::sum_of_sizes(
            rb.compressed_sizes@,
        ) == crate::aggregate::sum_of_sizes(rw.compressed_sizes@),
{
    lemma_sum_of_constant(ra.compressed_sizes@, a.len() as int);
    lemma_sum_of_constant(rb.compressed_sizes@, b.len() as int);
    lemma_sum_of_constant(rw.compressed_sizes@, (a + b).len() as int);
    assert(n * (a.len() + b.len()) == n * a.len() + n * b.len()) by (nonlinear_arith);
}

/// Like `run_benchmark`, but with an artificial input-size cap on top of the
/// codec's own limit: an input larger than `cap` is refused as unsupported
/// without attempting compression.
pub fn run_benchmark_capped(codec: Codec, cap: usize, data: &Vec<u8>, num_runs: usize) -> (r:
    Result<BenchmarkResults, CodecError>)
    ensures
        data@.len() > cap ==> (r matches Err(e) && e.codec == codec && e.kind
            == CodecErrorKind::Unsupported),
        data@.len() <= cap ==> benchmark_post(codec, data@, num_runs as nat, r),
{
    if data.len() > cap {
        return Err(
            CodecError {
                codec,
                phase: Phase::Compress,
                kind: CodecErrorKind::Unsupported,
                message: "input exceeds the configured input-size cap".to_owned(),
            },
        );
    }
    run_benchmark(codec, data, num_runs)
}

/// The benchmark state of one codec across a whole file: its accumulated
/// samples, and whether a failure has marked it skipped for the remainder.
pub struct CodecState {
    pub codec: Codec,
    pub results: BenchmarkResults,
    pub skipped: bool,
    pub failure: Option<CodecError>,
}

impl CodecState {
    pub open spec fn wf(self) -> bool {
        &&& self.results.wf()
        &&& (self.skipped <==> self.failure is Some)
    }
}

/// The codecs benchmarked on every chunk, in processing and reporting order.
pub open spec fn codec_roster() -> Seq<Codec> {
    seq![
        Codec::Memcpy,
        Codec::Flate2Gzip,
        Codec::Snap,
        Codec::Lz4,
        Codec::ZstdFastest,
        Codec::ZstdBalanced,
        Codec::ZstdMax,
        Codec::Xz2,
        Codec::LzmaRs,
        Codec::MinizOxide,
        Codec::Lz4Flex,
        Codec::Libdeflate,
    ]
}

fn fresh_state(c: Codec) -> (r: CodecState)
    ensures
        r.codec == c,
        r.wf(),
        !r.skipped,
        r.results.input_sizes@ == Seq::<usize>::empty(),
        r.results.compressed_sizes@ == Seq::<usize>::empty(),
        r.results.compress_times@ == Seq::<u64>::empty(),
        r.results.decompress_times@ == Seq::<u64>::empty(),
{
    CodecState { codec: c, results: BenchmarkResults::new(), skipped: false, failure: None }
}

/// One fresh state per codec, in roster order, with no samples recorded.
pub fn initial_states() -> (r: Vec<CodecState>)
    ensures
        r@.len() == codec_roster().len(),
        forall|i: int| 0 <= i < r@.len() ==> (#[trigger] r@[i]).codec == codec_roster()[i],
        forall|i: int| 0 <= i < r@.len() ==> (#[trigger] r@[i]).wf(),
        forall|i: int| 0 <= i < r@.len() ==> !(#[trigger] r@[i]).skipped,
        forall|i: int| 0 <= i < r@.len() ==> (#[trigger] r@[i]).results.num_samples() == 0
            && r@[i].results.compressed_sizes@.len() == 0 && r@[i].results.compress_times@.len()
            == 0 && r@[i].results.decompress_times@.len() == 0,
{
    let mut v: Vec<CodecState> = Vec::new();
    v.push(fresh_state(Codec::Memcpy));
    v.push(fresh_state(Codec::Flate2Gzip));
    v.push(fresh_state(Codec::Snap));
    v.push(fresh_state(Codec::Lz4));
    v.push(fresh_state(Codec::ZstdFastest));
    v.push(fresh_state(Codec::ZstdBalanced));
    v.push(fresh_state(Codec::ZstdMax));
    v.push(fresh_state(Codec::Xz2));
    v.push(fresh_state(Codec::LzmaRs));
    v.push(fresh_state(Codec::MinizOxide));
    v.push(fresh_state(Codec::Lz4Flex));
    v.push(fresh_state(Codec::Libdeflate));
    v
}

/// `r1` extends `r0` by `n` fresh samples over a chunk of `data`: the old
/// samples are kept unchanged in place, and each new sample records the
/// chunk's length as its input size (with a positive compressed size for a
/// non-empty chunk).
pub open spec fn extended_by_run(
    r0: BenchmarkResults,
    r1: BenchmarkResults,
    data: Seq<u8>,
    n: nat,
) -> bool {
    &&& r1.input_sizes@.len() == r0.input_sizes@.len() + n
    &&& r1.compressed_sizes@.len() == r0.compressed_sizes@.len() + n
    &&& r1.compress_times@.len() == r0.compress_times@.len() + n
    &&& r1.decompress_times@.len() == r0.decompress_times@.len() + n
    &&& r1.input_sizes@.take(r0.input_sizes@.len() as int) == r0.input_sizes@
    &&& r1.compressed_sizes@.take(r0.compressed_sizes@.len() as int) == r0.compressed_sizes@
    &&& r1.compress_times@.take(r0.compress_times@.len() as int) == r0.compress_times@
    &&& r1.decompress_times@.take(r0.decompress_times@.len() as int) == r0.decompress_times@
    &&& forall|i: int|
        r0.input_sizes@.len() <= i < r1.input_sizes@.len() ==> r1.input_sizes@[i] == data.len()
    &&& data.len() > 0 ==> forall|i: int|
        r0.compressed_sizes@.len() <= i < r1.compressed_sizes@.len()
            ==> r1.compressed_sizes@[i] > 0
}

/// How one codec's state may change over one chunk: a skipped codec is left
/// untouched; a live one either gains `n` samples, or becomes skipped with a
/// failure that names it (`Unsupported` exactly when the chunk is over its
/// input-size limit) and its samples unchanged. The pass-through codec is
/// never skipped: its benchmark always succeeds.
pub open spec fn chunk_step(s0: CodecState, s1: CodecState, chunk: Seq<u8>, n: nat) -> bool {
    &&& s1.codec == s0.codec
    &&& (s0.wf() ==> s1.wf())
    &&& (s0.skipped ==> s1 == s0)
    &&& (!s0.skipped && !s1.skipped ==> extended_by_run(s0.results, s1.results, chunk, n))
    &&& (!s0.skipped && s1.skipped ==> {
        &&& s1.results == s0.results
        &&& (s1.failure matches Some(e) && e.codec == s0.codec && (e.kind
            == CodecErrorKind::Unsupported <==> exceeds_limit(s0.codec, chunk.len())))
    })
    &&& (!s0.skipped && exceeds_limit(s0.codec, chunk.len()) ==> s1.skipped)
    &&& (!s0.skipped && s0.codec == Codec::Memcpy ==> !s1.skipped)
}

/// Benchmarks one chunk with every codec that is still live, merging each
/// invocation's samples into that codec's accumulated results, and marking a
/// codec skipped (keeping its samples) on its first failure.
#[verifier::loop_isolation(false)]
pub fn process_chunk(chunk: &Vec<u8>, num_runs: usize, states: &mut Vec<CodecState>)
    ensures
        final(states)@.len() == old(states)@.len(),
        forall|i: int|
            0 <= i < old(states)@.len() ==> chunk_step(
                old(states)@[i],
                #[trigger] final(states)@[i],
                chunk@,
                num_runs as nat,
            ),
{
    let n = states.len();
    let mut i: usize = 0;
    while i < n
        invariant
            states@.len() == n,
            i <= n,
            forall|j: int| i <= j < n ==> states@[j] == old(states)@[j],
            forall|j: int|
                0 <= j < i ==> chunk_step(
                    old(states)@[j],
                    #[trigger] states@[j],
                    chunk@,
                    num_runs as nat,
                ),
        decreases n - i,
    {
        let skipped = states[i].skipped;
        let codec = states[i].codec;
        if !skipped {
            match run_benchmark(codec, chunk, num_runs) {
                Ok(new_results) => {
                    let ghost pre = states@;
                    let mut st = states.remove(i);
                    let ghost r0 = st.results;
                    st.results.merge(new_results);
                    proof {
                        assert(st.results.input_sizes@.take(r0.input_sizes@.len() as int)
                            =~= r0.input_sizes@);
                        assert(st.results.compressed_sizes@.take(
                            r0.compressed_sizes@.len() as int,
                        ) =~= r0.compressed_sizes@);
                        assert(st.results.compress_times@.take(r0.compress_times@.len() as int)
                            =~= r0.compress_times@);
                        assert(st.results.decompress_times@.take(
                            r0.decompress_times@.len() as int,
                        ) =~= r0.decompress_times@);
                    }
                    states.insert(i, st);
                    proof {
                        assert(states@ =~= pre.update(i as int, st));
                    }
                },
                Err(e) => {
                    let ghost pre = states@;
                    let mut st = states.remove(i);
                    st.skipped = true;
                    st.failure = Some(e);
                    states.insert(i, st);
                    proof {
                        assert(states@ =~= pre.update(i as int, st));
                    }
                },
            }
        }
        i = i + 1;
    }
}

/// Benchmarks zstd at its fastest setting (level 1).
pub fn benchmark_zstd_fastest(data: &Vec<u8>, num_runs: usize) -> (r: Result<
    BenchmarkResults,
    CodecError,
>)
    ensures
        benchmark_post(Codec::ZstdFastest, data@, num_runs as nat, r),
{
    run_benchmark(Codec::ZstdFastest, data, num_runs)
}

/// Benchmarks zstd at its balanced default setting (level 3).
pub fn benchmark_zstd_balanced(data: &Vec<u8>, num_runs: usize) -> (r: Result<
    BenchmarkResults,
    CodecError,
>)
    ensures
        benchmark_post(Codec::ZstdBalanced, data@, num_runs as nat, r),
{
    run_benchmark(Codec::ZstdBalanced, data, num_runs)
}

/// Benchmarks zstd at a high-compression setting (level 10).
pub fn benchmark_zstd_max(data: &Vec<u8>, num_runs: usize) -> (r: Result<
    BenchmarkResults,
    CodecError,
>)
    ensures
        benchmark_post(Codec::ZstdMax, data@, num_runs as nat, r),
{
    run_benchmark(Codec::ZstdMax, data, num_runs)
}

} // verus!
