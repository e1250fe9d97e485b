//! The codecs under benchmark and the trusted wrappers around their crates.
//!
//! Each wrapper's contract is phrased through one uninterpreted name per
//! outside decompression routine: decoding a frame of any of these formats is
//! a function of the frame bytes alone, so `..._decoded(frame)` names what
//! the decompressor returns, and a compressor's contract says only that its
//! frame decodes back to the input (the documented lossless round trip).
//! Nothing is assumed about the frame bytes themselves, which may vary
//! between library versions or platforms.

use vstd::prelude::*;
use vstd::slice::slice_to_vec;
use std::io::Read;
use std::io::Write;

verus! {

/// One compression/decompression algorithm/library pair under benchmark.
/// `Memcpy` is the pass-through baseline: its "compressed" form is the input
/// itself.
#[derive(Clone, Copy, Debug, PartialEq, Eq, Structural)]
pub enum Codec {
    Memcpy,
    Flate2Gzip,
    Snap,
    Lz4,
    ZstdFastest,
    ZstdBalanced,
    ZstdMax,
    Xz2,
    LzmaRs,
    MinizOxide,
    Lz4Flex,
    Libdeflate,
}

/// The phase of a codec cycle in which a failure occurred.
#[derive(Clone, Copy, Debug, PartialEq, Eq, Structural)]
pub enum Phase {
    Compress,
    Decompress,
}

#[derive(Clone, Copy, Debug, PartialEq, Eq, Structural)]
pub enum CodecErrorKind {
    /// The input is larger than the codec's documented input-size limit;
    /// compression was not attempted.
    Unsupported,
    /// The underlying library reported a failure.
    Failed,
    /// Decompression returned a different number of bytes than the original.
    SizeMismatch,
    /// Compression of a non-empty input returned no bytes at all.
    EmptyOutput,
}

/// A codec failure, normalized from whatever error type the underlying
/// library uses.
#[derive(Debug)]
pub struct CodecError {
    pub codec: Codec,
    pub phase: Phase,
    pub kind: CodecErrorKind,
    pub message: String,
}

/// The block-mode LZ4 library refuses inputs above `i32::MAX` bytes.
pub const LZ4_BLOCK_MAX_INPUT: usize = 0x7fff_ffff;

pub open spec fn spec_input_limit(c: Codec) -> Option<usize> {
    match c {
        Codec::Lz4 => Some(LZ4_BLOCK_MAX_INPUT),
        _ => None,
    }
}

/// The largest input the codec accepts, if it documents a limit.
pub fn input_limit(c: Codec) -> (r: Option<usize>)
    ensures
        r == spec_input_limit(c),
{
    match c {
        Codec::Lz4 => Some(LZ4_BLOCK_MAX_INPUT),
        _ => None,
    }
}

pub open spec fn exceeds_limit(c: Codec, len: nat) -> bool {
    match spec_input_limit(c) {
        Some(m) => len > m,
        None => false,
    }
}

pub open spec fn spec_codec_label(c: Codec) -> Seq<char> {
    match c {
        Codec::Memcpy => "memcpy"@,
        Codec::Flate2Gzip => "flate2 (gzip)"@,
        Codec::Snap => "snap (snappy)"@,
        Codec::Lz4 => "lz4"@,
        Codec::ZstdFastest => "zstd (level 1)"@,
        Codec::ZstdBalanced => "zstd (level 3)"@,
        Codec::ZstdMax => "zstd (level 10)"@,
        Codec::Xz2 => "xz2 (lzma)"@,
        Codec::LzmaRs => "lzma-rs"@,
        Codec::MinizOxide => "miniz_oxide"@,
        Codec::Lz4Flex => "lz4_flex"@,
        Codec::Libdeflate => "libdeflate"@,
    }
}

/// The row label used for the codec in the final table.
pub fn codec_label(c: Codec) -> (r: &'static str)
    ensures
        r@ == spec_codec_label(c),
{
    match c {
        Codec::Memcpy => "memcpy",
        Codec::Flate2Gzip => "flate2 (gzip)",
        Codec::Snap => "snap (snappy)",
        Codec::Lz4 => "lz4",
        Codec::ZstdFastest => "zstd (level 1)",
        Codec::ZstdBalanced => "zstd (level 3)",
        Codec::ZstdMax => "zstd (level 10)",
        Codec::Xz2 => "xz2 (lzma)",
        Codec::LzmaRs => "lzma-rs",
        Codec::MinizOxide => "miniz_oxide",
        Codec::Lz4Flex => "lz4_flex",
        Codec::Libdeflate => "libdeflate",
    }
}

/// What flate2's gzip decoder returns for a frame.
pub uninterp spec fn gzip_decoded(frame: Seq<u8>) -> Seq<u8>;

/// What snap's raw decoder returns for a frame.
pub uninterp spec fn snappy_decoded(frame: Seq<u8>) -> Seq<u8>;

/// What the lz4 crate's block decoder returns for a frame.
pub uninterp spec fn lz4_block_decoded(frame: Seq<u8>) -> Seq<u8>;

/// What zstd's bulk decoder returns for a frame.
pub uninterp spec fn zstd_decoded(frame: Seq<u8>) -> Seq<u8>;

/// What xz2's stream decoder returns for a frame.
pub uninterp spec fn xz_decoded(frame: Seq<u8>) -> Seq<u8>;

/// What lzma-rs's decoder returns for a frame.
pub uninterp spec fn lzma_decoded(frame: Seq<u8>) -> Seq<u8>;

/// What miniz_oxide's inflate returns for a raw-deflate frame.
pub uninterp spec fn inflate_decoded(frame: Seq<u8>) -> Seq<u8>;

/// What lz4_flex's block decoder returns for a frame.
pub uninterp spec fn lz4_flex_decoded(frame: Seq<u8>) -> Seq<u8>;

/// What libdeflate's deflate decoder returns for a frame.
pub uninterp spec fn libdeflate_decoded(frame: Seq<u8>) -> Seq<u8>;

/// Relies on flate2::write::GzEncoder/finish: the produced gzip stream
/// decodes back to the input.
#[verifier::external_body]
fn flate2_compress(data: &[u8]) -> (r: Result<Vec<u8>, String>)
    ensures
        r matches Ok(v) ==> gzip_decoded(v@) == data@,
{
    let mut encoder = flate2::write::GzEncoder::new(Vec::new(), flate2::Compression::default());
    if let Err(e) = encoder.write_all(data) {
        return Err(format!("{e}"));
    }
    encoder.finish().map_err(|e| format!("{e}"))
}

/// Relies on flate2::write::GzDecoder/finish: decoding a gzip stream is a
/// function of the stream bytes alone.
#[verifier::external_body]
fn flate2_decompress(frame: &[u8]) -> (r: Result<Vec<u8>, String>)
    ensures
        r matches Ok(v) ==> v@ == gzip_decoded(frame@),
{
    let mut decoder = flate2::write::GzDecoder::new(Vec::new());
    if let Err(e) = decoder.write_all(frame) {
        return Err(format!("{e}"));
    }
    decoder.finish().map_err(|e| format!("{e}"))
}

/// Relies on snap::raw::Encoder::compress_vec: the produced block decodes
/// back to the input.
#[verifier::external_body]
fn snap_compress(data: &[u8]) -> (r: Result<Vec<u8>, String>)
    ensures
        r matches Ok(v) ==> snappy_decoded(v@) == data@,
{
    snap::raw::Encoder::new().compress_vec(data).map_err(|e| format!("{e}"))
}

/// Relies on snap::raw::Decoder::decompress_vec: decoding a snappy block is
/// a function of the block bytes alone.
#[verifier::external_body]
fn snap_decompress(frame: &[u8]) -> (r: Result<Vec<u8>, String>)
    ensures
        r matches Ok(v) ==> v@ == snappy_decoded(frame@),
{
    snap::raw::Decoder::new().decompress_vec(frame).map_err(|e| format!("{e}"))
}

/// Relies on lz4::block::compress, which documents a hard input limit of
/// `i32::MAX` bytes: the produced block decodes back to the input.
#[verifier::external_body]
fn lz4_compress(data: &[u8]) -> (r: Result<Vec<u8>, String>)
    requires
        data@.len() <= LZ4_BLOCK_MAX_INPUT,
    ensures
        r matches Ok(v) ==> lz4_block_decoded(v@) == data@,
{
    lz4::block::compress(data, None, false).map_err(|e| format!("{e}"))
}

/// Relies on lz4::block::decompress: decoding an LZ4 block is a function of
/// the block bytes alone; `expected` only sizes the output buffer and gates
/// success.
#[verifier::external_body]
fn lz4_decompress(frame: &[u8], expected: usize) -> (r: Result<Vec<u8>, String>)
    requires
        expected <= LZ4_BLOCK_MAX_INPUT,
    ensures
        r matches Ok(v) ==> v@ == lz4_block_decoded(frame@),
{
    lz4::block::decompress(frame, Some(expected as i32)).map_err(|e| format!("{e}"))
}

/// Relies on zstd::bulk::compress: the produced frame decodes back to the
/// input. An unusable level is reported as an error by the library.
#[verifier::external_body]
fn zstd_compress(data: &[u8], level: i32) -> (r: Result<Vec<u8>, String>)
    ensures
        r matches Ok(v) ==> zstd_decoded(v@) == data@,
{
    zstd::bulk::compress(data, level).map_err(|e| format!("{e}"))
}

/// Relies on zstd::bulk::decompress: decoding a zstd frame is a function of
/// the frame bytes alone; `capacity` only bounds the output size.
#[verifier::external_body]
fn zstd_decompress(frame: &[u8], capacity: usize) -> (r: Result<Vec<u8>, String>)
    ensures
        r matches Ok(v) ==> v@ == zstd_decoded(frame@),
{
    zstd::bulk::decompress(frame, capacity).map_err(|e| format!("{e}"))
}

/// Relies on xz2::read::XzEncoder: the produced xz stream decodes back to
/// the input. The constructor unwraps liblzma's encoder setup, which rejects
/// presets above 9, so those levels are excluded up front.
#[verifier::external_body]
fn xz_compress(data: &[u8], level: u32) -> (r: Result<Vec<u8>, String>)
    requires
        level <= 9,
    ensures
        r matches Ok(v) ==> xz_decoded(v@) == data@,
{
    let mut encoder = xz2::read::XzEncoder::new(data, level);
    let mut out = Vec::new();
    if let Err(e) = encoder.read_to_end(&mut out) {
        return Err(format!("{e}"));
    }
    Ok(out)
}

/// Relies on xz2::read::XzDecoder: decoding an xz stream is a function of
/// the stream bytes alone.
#[verifier::external_body]
fn xz_decompress(frame: &[u8]) -> (r: Result<Vec<u8>, String>)
    ensures
        r matches Ok(v) ==> v@ == xz_decoded(frame@),
{
    let mut decoder = xz2::read::XzDecoder::new(frame);
    let mut out = Vec::new();
    if let Err(e) = decoder.read_to_end(&mut out) {
        return Err(format!("{e}"));
    }
    Ok(out)
}

/// Relies on lzma_rs::lzma_compress: the produced stream decodes back to
/// the input.
#[verifier::external_body]
fn lzma_rs_compress(data: &[u8]) -> (r: Result<Vec<u8>, String>)
    ensures
        r matches Ok(v) ==> lzma_decoded(v@) == data@,
{
    let mut input = data;
    let mut out = Vec::new();
    if let Err(e) = lzma_rs::lzma_compress(&mut input, &mut out) {
        return Err(format!("{e}"));
    }
    Ok(out)
}

/// Relies on lzma_rs::lzma_decompress: decoding an lzma stream is a function
/// of the stream bytes alone.
#[verifier::external_body]
fn lzma_rs_decompress(frame: &[u8]) -> (r: Result<Vec<u8>, String>)
    ensures
        r matches Ok(v) ==> v@ == lzma_decoded(frame@),
{
    let mut input = frame;
    let mut out = Vec::new();
    if let Err(e) = lzma_rs::lzma_decompress(&mut input, &mut out) {
        return Err(format!("{e}"));
    }
    Ok(out)
}

/// Relies on miniz_oxide::deflate::compress_to_vec: the produced raw-deflate
/// frame decodes back to the input. This compressor clamps its level and
/// never fails, so the call always succeeds.
#[verifier::external_body]
fn miniz_compress(data: &[u8], level: u8) -> (r: Result<Vec<u8>, String>)
    ensures
        r is Ok,
        r matches Ok(v) ==> inflate_decoded(v@) == data@,
{
    Ok(miniz_oxide::deflate::compress_to_vec(data, level))
}

/// Relies on miniz_oxide::inflate::decompress_to_vec_with_limit: decoding a
/// raw-deflate frame is a function of the frame bytes alone; `limit` only
/// bounds the output size.
#[verifier::external_body]
fn miniz_decompress(frame: &[u8], limit: usize) -> (r: Result<Vec<u8>, String>)
    ensures
        r matches Ok(v) ==> v@ == inflate_decoded(frame@),
{
    miniz_oxide::inflate::decompress_to_vec_with_limit(frame, limit).map_err(|e| format!("{e}"))
}

/// Relies on lz4_flex::compress: the produced block decodes back to the
/// input. This compressor never fails, so the call always succeeds.
#[verifier::external_body]
fn lz4_flex_compress(data: &[u8]) -> (r: Result<Vec<u8>, String>)
    ensures
        r is Ok,
        r matches Ok(v) ==> lz4_flex_decoded(v@) == data@,
{
    Ok(lz4_flex::compress(data))
}

/// Relies on lz4_flex::decompress_into: decoding an LZ4 block is a function
/// of the block bytes alone; the pre-sized output buffer only gates success.
#[verifier::external_body]
fn lz4_flex_decompress(frame: &[u8], expected: usize) -> (r: Result<Vec<u8>, String>)
    ensures
        r matches Ok(v) ==> v@ == lz4_flex_decoded(frame@),
{
    let mut out = vec![0u8; expected];
    match lz4_flex::decompress_into(frame, &mut out) {
        Ok(n) => {
            out.truncate(n);
            Ok(out)
        },
        Err(e) => Err(format!("{e}")),
    }
}

/// Relies on libdeflater::Compressor::deflate_compress (with the buffer
/// sized by deflate_compress_bound): the produced raw-deflate frame decodes
/// back to the input.
#[verifier::external_body]
fn libdeflate_compress(data: &[u8]) -> (r: Result<Vec<u8>, String>)
    ensures
        r matches Ok(v) ==> libdeflate_decoded(v@) == data@,
{
    let mut compressor = libdeflater::Compressor::new(libdeflater::CompressionLvl::default());
    let bound = compressor.deflate_compress_bound(data.len());
    let mut out = vec![0u8; bound];
    match compressor.deflate_compress(data, &mut out) {
        Ok(n) => {
            out.truncate(n);
            Ok(out)
        },
        Err(e) => Err(format!("{e}")),
    }
}

/// Relies on libdeflater::Decompressor::deflate_decompress: decoding a
/// raw-deflate frame is a function of the frame bytes alone; the pre-sized
/// output buffer only gates success.
#[verifier::external_body]
fn libdeflate_decompress(frame: &[u8], expected: usize) -> (r: Result<Vec<u8>, String>)
    ensures
        r matches Ok(v) ==> v@ == libdeflate_decoded(frame@),
{
    let mut decompressor = libdeflater::Decompressor::new();
    let mut out = vec![0u8; expected];
    match decompressor.deflate_decompress(frame, &mut out) {
        Ok(n) => {
            out.truncate(n);
            Ok(out)
        },
        Err(e) => Err(format!("{e}")),
    }
}

/// What decompressing a frame with the given codec yields.
pub open spec fn codec_decoded(c: Codec, frame: Seq<u8>) -> Seq<u8> {
    match c {
        Codec::Memcpy => frame,
        Codec::Flate2Gzip => gzip_decoded(frame),
        Codec::Snap => snappy_decoded(frame),
        Codec::Lz4 => lz4_block_decoded(frame),
        Codec::ZstdFastest => zstd_decoded(frame),
        Codec::ZstdBalanced => zstd_decoded(frame),
        Codec::ZstdMax => zstd_decoded(frame),
        Codec::Xz2 => xz_decoded(frame),
        Codec::LzmaRs => lzma_decoded(frame),
        Codec::MinizOxide => inflate_decoded(frame),
        Codec::Lz4Flex => lz4_flex_decoded(frame),
        Codec::Libdeflate => libdeflate_decoded(frame),
    }
}

/// Compresses `data` with the given codec. On success the produced frame is
/// one that decompresses back to `data` (for the pass-through codec, it is
/// `data` itself).
pub fn codec_compress(c: Codec, data: &Vec<u8>) -> (r: Result<Vec<u8>, String>)
    requires
        !exceeds_limit(c, data@.len()),
    ensures
        r matches Ok(v) ==> codec_decoded(c, v@) == data@,
        c == Codec::Memcpy ==> (r matches Ok(v) && v@ == data@),
{
    match c {
        Codec::Memcpy => Ok(slice_to_vec(data.as_slice())),
        Codec::Flate2Gzip => flate2_compress(data.as_slice()),
        Codec::Snap => snap_compress(data.as_slice()),
        Codec::Lz4 => lz4_compress(data.as_slice()),
        Codec::ZstdFastest => zstd_compress(data.as_slice(), 1),
        Codec::ZstdBalanced => zstd_compress(data.as_slice(), 3),
        Codec::ZstdMax => zstd_compress(data.as_slice(), 10),
        Codec::Xz2 => xz_compress(data.as_slice(), 6),
        Codec::LzmaRs => lzma_rs_compress(data.as_slice()),
        Codec::MinizOxide => miniz_compress(data.as_slice(), 6),
        Codec::Lz4Flex => lz4_flex_compress(data.as_slice()),
        Codec::Libdeflate => libdeflate_compress(data.as_slice()),
    }
}

/// Decompresses `frame` with the given codec, `expected` being the size the
/// original bytes had. On success the result is exactly what the codec's
/// decoder yields for `frame`; an expected size over the block-mode LZ4
/// limit is refused before any call is made.
pub fn codec_decompress(c: Codec, frame: &Vec<u8>, expected: usize) -> (r: Result<
    Vec<u8>,
    String,
>)
    ensures
        r matches Ok(v) ==> v@ == codec_decoded(c, frame@),
        c == Codec::Memcpy ==> (r matches Ok(v) && v@ == frame@),
        c == Codec::Lz4 && expected > LZ4_BLOCK_MAX_INPUT ==> r is Err,
{
    match c {
        Codec::Memcpy => Ok(slice_to_vec(frame.as_slice())),
        Codec::Flate2Gzip => flate2_decompress(frame.as_slice()),
        Codec::Snap => snap_decompress(frame.as_slice()),
        Codec::Lz4 => {
            if expected > LZ4_BLOCK_MAX_INPUT {
                Err("expected size exceeds the lz4 block limit".to_owned())
            } else {
                lz4_decompress(frame.as_slice(), expected)
            }
        },
        Codec::ZstdFastest => zstd_decompress(frame.as_slice(), expected),
        Codec::ZstdBalanced => zstd_decompress(frame.as_slice(), expected),
        Codec::ZstdMax => zstd_decompress(frame.as_slice(), expected),
        Codec::Xz2 => xz_decompress(frame.as_slice()),
        Codec::LzmaRs => lzma_rs_decompress(frame.as_slice()),
        Codec::MinizOxide => miniz_decompress(frame.as_slice(), expected),
        Codec::Lz4Flex => lz4_flex_decompress(frame.as_slice(), expected),
        Codec::Libdeflate => libdeflate_decompress(frame.as_slice(), expected),
    }
}

/// The round-trip law: whenever both phases succeed, decompressing what
/// `codec_compress` produced — with the original length as the expected
/// size — yields exactly the original input, for every codec and every
/// input, the empty buffer included. An input over the codec's size limit
/// is refused before any call is made.
pub fn codec_round_trip(c: Codec, data: &Vec<u8>) -> (r: Result<Vec<u8>, String>)
    ensures
        r matches Ok(v) ==> v@ == data@,
        c == Codec::Memcpy ==> (r matches Ok(v) && v@ == data@),
        exceeds_limit(c, data@.len()) ==> r is Err,
{
    let over_limit = match input_limit(c) {
        Some(m) => data.len() > m,
        None => false,
    };
    if over_limit {
        return Err("input exceeds the codec's input-size limit".to_owned());
    }
    let compressed = match codec_compress(c, data) {
        Ok(v) => v,
        Err(e) => return Err(e),
    };
    codec_decompress(c, &compressed, data.len())
}

} // verus!
