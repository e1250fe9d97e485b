//! Per-run benchmark samples for one codec.

use vstd::prelude::*;

verus! {

/// Samples recorded while benchmarking one codec: parallel vectors holding,
/// for each timed run, the input size in bytes, the compressed size in bytes,
/// and the wall-clock time of the compress and decompress phases in
/// nanoseconds.
#[derive(Debug)]
pub struct BenchmarkResults {
    pub input_sizes: Vec<usize>,
    pub compressed_sizes: Vec<usize>,
    pub compress_times: Vec<u64>,
    pub decompress_times: Vec<u64>,
}

impl BenchmarkResults {
    /// The four vectors run in parallel: one entry of each per run.
    pub open spec fn wf(self) -> bool {
        &&& self.compressed_sizes@.len() == self.input_sizes@.len()
        &&& self.compress_times@.len() == self.input_sizes@.len()
        &&& self.decompress_times@.len() == self.input_sizes@.len()
    }

    pub open spec fn num_samples(self) -> nat {
        self.input_sizes@.len()
    }

    pub fn new() -> (r: BenchmarkResults)
        ensures
            r.wf(),
            r.input_sizes@ == Seq::<usize>::empty(),
            r.compressed_sizes@ == Seq::<usize>::empty(),
            r.compress_times@ == Seq::<u64>::empty(),
            r.decompress_times@ == Seq::<u64>::empty(),
    {
        BenchmarkResults {
            input_sizes: Vec::new(),
            compressed_sizes: Vec::new(),
            compress_times: Vec::new(),
            decompress_times: Vec::new(),
        }
    }

    /// Appends `other`'s samples after `self`'s own.
    pub fn merge(&mut self, other: BenchmarkResults)
        ensures
            final(self).input_sizes@ == old(self).input_sizes@ + other.input_sizes@,
            final(self).compressed_sizes@ == old(self).compressed_sizes@
                + other.compressed_sizes@,
            final(self).compress_times@ == old(self).compress_times@ + other.compress_times@,
            final(self).decompress_times@ == old(self).decompress_times@
                + other.decompress_times@,
    {
        let mut other = other;
        self.input_sizes.append(&mut other.input_sizes);
        self.compressed_sizes.append(&mut other.compressed_sizes);
        self.compress_times.append(&mut other.compress_times);
        self.decompress_times.append(&mut other.decompress_times);
    }
}

} // verus!
