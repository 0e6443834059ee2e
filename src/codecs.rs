//! The calls into the outside codec crates. Each codec's output is a function
//! of its arguments alone and is named here; the contracts say what the
//! library relies on: the bytes written, and that a codec decodes what it
//! encoded.
use vstd::prelude::*;

use std::io::Write;

verus! {

/// The bytes that lz4_flex's block encoder produces.
pub uninterp spec fn lz4_encoding(s: Seq<u8>) -> Seq<u8>;

/// What lz4_flex's block decoder yields given unbounded room; `None` when it
/// rejects the input.
pub uninterp spec fn lz4_decoding(s: Seq<u8>) -> Option<Seq<u8>>;

/// The bytes of snap's raw (unframed) encoder.
pub uninterp spec fn snappy_encoding(s: Seq<u8>) -> Seq<u8>;

/// What snap's raw decoder yields given unbounded room.
pub uninterp spec fn snappy_decoding(s: Seq<u8>) -> Option<Seq<u8>>;

/// The zstd frame that zstd's bulk encoder produces at a level.
pub uninterp spec fn zstd_encoding(level: i32, s: Seq<u8>) -> Seq<u8>;

/// What zstd's bulk decoder yields given unbounded room.
pub uninterp spec fn zstd_decoding(s: Seq<u8>) -> Option<Seq<u8>>;

/// The brotli stream that brotli's encoder produces at a quality.
pub uninterp spec fn brotli_encoding(quality: i32, s: Seq<u8>) -> Seq<u8>;

/// What brotli's decoder writes given unbounded room.
pub uninterp spec fn brotli_decoding(s: Seq<u8>) -> Option<Seq<u8>>;

/// The compressed form that lzf produces, or `None` where lzf finds no
/// representation shorter than the input.
pub uninterp spec fn lzf_encoding(s: Seq<u8>) -> Option<Seq<u8>>;

/// What lzf's decoder yields given unbounded room.
pub uninterp spec fn lzf_decoding(s: Seq<u8>) -> Option<Seq<u8>>;

/// The gzip member that flate2's gzip encoder produces at a level.
pub uninterp spec fn gzip_encoding(level: u32, s: Seq<u8>) -> Seq<u8>;

/// The raw deflate stream that flate2's deflate encoder produces at a level.
pub uninterp spec fn deflate_encoding(level: u32, s: Seq<u8>) -> Seq<u8>;

/// The xz stream that xz2's encoder produces at a preset.
pub uninterp spec fn xz_encoding(level: u32, s: Seq<u8>) -> Seq<u8>;

/// The bzip2 stream that bzip2's encoder produces at a block size.
pub uninterp spec fn bzip2_encoding(level: u32, s: Seq<u8>) -> Seq<u8>;

/// What flate2's gzip reader yields up to a clean end; `None` where it fails
/// before one.
pub uninterp spec fn gzip_decoding(s: Seq<u8>) -> Option<Seq<u8>>;

/// What flate2's raw deflate reader yields up to a clean end.
pub uninterp spec fn deflate_decoding(s: Seq<u8>) -> Option<Seq<u8>>;

/// What xz2's reader yields up to a clean end.
pub uninterp spec fn xz_decoding(s: Seq<u8>) -> Option<Seq<u8>>;

/// What bzip2's reader yields up to a clean end.
pub uninterp spec fn bzip2_decoding(s: Seq<u8>) -> Option<Seq<u8>>;

/// A decoding that fits into `cap` bytes.
pub open spec fn fits(d: Option<Seq<u8>>, cap: int) -> bool {
    d is Some && d->0.len() <= cap
}

/// lz4_flex's documented worst case of a block for `n` input bytes.
pub open spec fn lz4_bound(n: int) -> int {
    20 + n * 110 / 100
}

/// snap's worst case for `n` input bytes; 0 where the input is too large to
/// be encoded at all.
pub open spec fn snappy_bound(n: int) -> int {
    if n > 0xffff_ffff || 32 + n + n / 6 > 0xffff_ffff {
        0
    } else {
        32 + n + n / 6
    }
}

/// zstd's documented worst case `ZSTD_COMPRESSBOUND` for `n` input bytes.
pub open spec fn zstd_bound(n: int) -> int {
    n + n / 256 + if n < 0x20000 {
        (0x20000 - n) / 2048
    } else {
        0
    }
}

/// The inputs that zstd's bulk encoder accepts: below `ZSTD_MAX_INPUT_SIZE`
/// of the word size at hand.
pub open spec fn zstd_accepts(n: int) -> bool {
    if usize::MAX == u32::MAX {
        n < 0xff00_ff00
    } else {
        n < 0xff00_ff00_ff00_ff00
    }
}

/// The longest input that lzf's encoder takes: it counts its output in an
/// `i32`, which a few bytes more could overflow.
pub const LZF_INPUT_LIMIT: usize = 0x7fff_fff0;

/// The largest room that lzf's decoder is given: it computes positions in
/// its output as `i32`.
pub const LZF_ROOM_LIMIT: usize = 0x7fff_ffff;

/// Why a decoder writing into a fixed buffer failed.
pub enum DecodeFailure {
    /// The content needs more room than the buffer has.
    TooSmall,
    /// The input is not valid for the codec.
    Invalid(String),
}

/// lz4_flex's `get_maximum_output_size`: `16 + 4 + n * 110 / 100`.
pub(crate) fn lz4_max_output(n: usize) -> (r: usize)
    requires
        n * 110 <= u64::MAX,
        lz4_bound(n as int) <= usize::MAX,
    ensures
        r == lz4_bound(n as int),
{
    let scaled = n as u64 * 110 / 100;
    16 + 4 + scaled as usize
}

/// snap's `max_compress_len`: `32 + n + n / 6`, or 0 where that or `n`
/// exceeds `u32::MAX`.
pub(crate) fn snappy_max_output(n: usize) -> (r: usize)
    ensures
        r == snappy_bound(n as int),
{
    if n as u64 > 0xffff_ffff {
        return 0;
    }
    let max = 32 + n as u64 + n as u64 / 6;
    if max > 0xffff_ffff {
        0
    } else {
        max as usize
    }
}

/// Relies on lz4_flex::block::compress_into: it refuses an `output` shorter
/// than `get_maximum_output_size` of the input before writing anything, and
/// otherwise writes the block.
#[verifier::external_body]
pub(crate) fn lz4_compress_into(input: &[u8], output: &mut [u8]) -> (r: Result<usize, String>)
    ensures
        final(output)@.len() == old(output)@.len(),
        r is Ok ==> r->Ok_0 <= old(output)@.len() && final(output)@.take(r->Ok_0 as int)
            == lz4_encoding(input@),
        r is Ok ==> lz4_decoding(final(output)@.take(r->Ok_0 as int)) == Some(input@),
        r is Ok ==> r->Ok_0 <= lz4_bound(input@.len() as int),
        r is Err ==> final(output)@ == old(output)@,
        input@.len() * 110 <= u64::MAX && lz4_bound(input@.len() as int) <= usize::MAX ==> (r is Ok
            <==> old(output)@.len() >= lz4_bound(input@.len() as int)),
{
    lz4_flex::block::compress_into(input, output).map_err(|e| e.to_string())
}

/// Relies on lz4_flex::block::decompress_into: it fails with
/// `OutputTooSmall` where a literal or a match would pass `output`'s end, and
/// otherwise where the input is not a block; the latter failures come at the
/// same point however much room there is.
#[verifier::external_body]
pub(crate) fn lz4_decompress_into(input: &[u8], output: &mut [u8]) -> (r: Result<
    usize,
    DecodeFailure,
>)
    ensures
        final(output)@.len() == old(output)@.len(),
        r is Ok ==> r->Ok_0 <= old(output)@.len() && lz4_decoding(input@) == Some(
            final(output)@.take(r->Ok_0 as int),
        ),
        fits(lz4_decoding(input@), old(output)@.len() as int) ==> r is Ok,
        r is Err && r->Err_0 is Invalid ==> lz4_decoding(input@) is None,
{
    lz4_flex::block::decompress_into(input, output).map_err(|e| match e {
        lz4_flex::block::DecompressError::OutputTooSmall { .. } => DecodeFailure::TooSmall,
        other => DecodeFailure::Invalid(other.to_string()),
    })
}

/// Relies on snap::raw::Encoder::compress: it refuses an output shorter than
/// `max_compress_len` and an input too large to encode before writing
/// anything, and otherwise writes the encoding.
#[verifier::external_body]
pub(crate) fn snappy_compress_into(input: &[u8], output: &mut [u8]) -> (r: Result<usize, String>)
    ensures
        final(output)@.len() == old(output)@.len(),
        r is Ok ==> r->Ok_0 <= old(output)@.len() && final(output)@.take(r->Ok_0 as int)
            == snappy_encoding(input@),
        r is Ok ==> snappy_decoding(final(output)@.take(r->Ok_0 as int)) == Some(input@),
        r is Ok ==> r->Ok_0 <= snappy_bound(input@.len() as int),
        r is Err ==> final(output)@ == old(output)@,
        snappy_bound(input@.len() as int) > 0 && old(output)@.len() >= snappy_bound(
            input@.len() as int,
        ) ==> r is Ok,
{
    snap::raw::Encoder::new().compress(input, output).map_err(|e| e.to_string())
}

/// Relies on snap::raw::Decoder::decompress: it fails with `BufferTooSmall`
/// where the length in the header exceeds `output`, and otherwise where the
/// input is not valid snappy data.
#[verifier::external_body]
pub(crate) fn snappy_decompress_into(input: &[u8], output: &mut [u8]) -> (r: Result<
    usize,
    DecodeFailure,
>)
    ensures
        final(output)@.len() == old(output)@.len(),
        r is Ok ==> r->Ok_0 <= old(output)@.len() && snappy_decoding(input@) == Some(
            final(output)@.take(r->Ok_0 as int),
        ),
        fits(snappy_decoding(input@), old(output)@.len() as int) ==> r is Ok,
        r is Err && r->Err_0 is Invalid ==> snappy_decoding(input@) is None,
{
    snap::raw::Decoder::new().decompress(input, output).map_err(|e| match e {
        snap::Error::BufferTooSmall { .. } => DecodeFailure::TooSmall,
        other => DecodeFailure::Invalid(other.to_string()),
    })
}

/// Relies on zstd::bulk::compress: one zstd frame at `level`, written into a
/// buffer of `compress_bound` bytes, which holds it for every accepted input.
#[verifier::external_body]
pub(crate) fn zstd_compress(input: &[u8], level: i32) -> (r: Result<Vec<u8>, String>)
    requires
        1 <= level <= 22,
    ensures
        zstd_accepts(input@.len() as int) ==> r is Ok,
        r is Ok && zstd_accepts(input@.len() as int) ==> r->Ok_0@.len() <= zstd_bound(
            input@.len() as int,
        ),
        r is Ok ==> r->Ok_0@ == zstd_encoding(level, input@),
        r is Ok ==> zstd_decoding(r->Ok_0@) == Some(input@),
{
    zstd::bulk::compress(input, level).map_err(|e| e.to_string())
}

/// Relies on zstd::stream::decode_all: it decodes every frame of `input`
/// into a growable buffer, and fails only on invalid data.
#[verifier::external_body]
pub(crate) fn zstd_decompress(input: &[u8]) -> (r: Result<Vec<u8>, String>)
    ensures
        r is Ok <==> zstd_decoding(input@) is Some,
        r is Ok ==> zstd_decoding(input@) == Some(r->Ok_0@),
{
    zstd::stream::decode_all(input).map_err(|e| e.to_string())
}

/// Relies on brotli::BrotliCompress with the default parameters but the
/// quality, reading a slice and writing into a growable buffer, neither of
/// which fails.
#[verifier::external_body]
pub(crate) fn brotli_compress(input: &[u8], quality: i32) -> (r: Result<Vec<u8>, String>)
    requires
        1 <= quality <= 11,
    ensures
        r is Ok,
        r is Ok ==> r->Ok_0@ == brotli_encoding(quality, input@),
        r is Ok ==> brotli_decoding(r->Ok_0@) == Some(input@),
{
    let params = brotli::enc::BrotliEncoderParams { quality, ..Default::default() };
    let mut staged: Vec<u8> = Vec::new();
    brotli::BrotliCompress(&mut &input[..], &mut staged, &params).map_err(|e| e.to_string())?;
    Ok(staged)
}

/// Relies on brotli::BrotliDecompress writing into a growable buffer, which
/// takes every write: it fails only on invalid data.
#[verifier::external_body]
pub(crate) fn brotli_decompress(input: &[u8]) -> (r: Result<Vec<u8>, String>)
    ensures
        r is Ok <==> brotli_decoding(input@) is Some,
        r is Ok ==> brotli_decoding(input@) == Some(r->Ok_0@),
{
    let mut staged: Vec<u8> = Vec::new();
    brotli::BrotliDecompress(&mut &input[..], &mut staged).map_err(|e| e.to_string())?;
    Ok(staged)
}

/// Relies on lzf::compress. Its one error is `NoCompressionPossible`, given
/// where the result would not be shorter than the input (always for fewer
/// than two bytes); the result never exceeds the input's length.
#[verifier::external_body]
pub(crate) fn lzf_compress(input: &[u8]) -> (r: Option<Vec<u8>>)
    requires
        input@.len() <= LZF_INPUT_LIMIT,
    ensures
        r is Some <==> lzf_encoding(input@) is Some,
        r is Some ==> r->0@ == lzf_encoding(input@)->0,
        r is Some ==> r->0@.len() <= input@.len(),
        input@.len() < 2 ==> r is None,
        r is Some ==> lzf_decoding(r->0@) == Some(input@),
{
    lzf::compress(input).ok()
}

/// Relies on lzf::decompress: it fails with `BufferTooSmall` where the
/// content exceeds `cap` bytes, and otherwise on corrupt data, at the same
/// point however much room there is.
#[verifier::external_body]
pub(crate) fn lzf_decompress(input: &[u8], cap: usize) -> (r: Result<Vec<u8>, DecodeFailure>)
    requires
        cap <= LZF_ROOM_LIMIT,
    ensures
        r is Ok ==> r->Ok_0@.len() <= cap && lzf_decoding(input@) == Some(r->Ok_0@),
        fits(lzf_decoding(input@), cap as int) ==> r is Ok,
        r is Err && r->Err_0 is Invalid ==> lzf_decoding(input@) is None,
{
    lzf::decompress(input, cap).map_err(|e| match e {
        lzf::LzfError::BufferTooSmall => DecodeFailure::TooSmall,
        other => DecodeFailure::Invalid(format!("{other:?}")),
    })
}

/// Relies on flate2::write::GzEncoder over a growable buffer, which takes every write,
/// so that encoding does not fail.
#[verifier::external_body]
pub(crate) fn gzip_compress(input: &[u8], level: u32) -> (r: Result<Vec<u8>, String>)
    requires
        1 <= level <= 9,
    ensures
        r is Ok,
        r is Ok ==> r->Ok_0@ == gzip_encoding(level, input@),
        r is Ok ==> gzip_decoding(r->Ok_0@) == Some(input@),
{
    let mut encoder = flate2::write::GzEncoder::new(Vec::new(), flate2::Compression::new(level));
    encoder.write_all(input).map_err(|e| e.to_string())?;
    encoder.finish().map_err(|e| e.to_string())
}

/// Relies on flate2::write::DeflateEncoder over a growable buffer, which takes every write,
/// so that encoding does not fail.
#[verifier::external_body]
pub(crate) fn deflate_compress(input: &[u8], level: u32) -> (r: Result<Vec<u8>, String>)
    requires
        1 <= level <= 9,
    ensures
        r is Ok,
        r is Ok ==> r->Ok_0@ == deflate_encoding(level, input@),
        r is Ok ==> deflate_decoding(r->Ok_0@) == Some(input@),
{
    let mut encoder = flate2::write::DeflateEncoder::new(
        Vec::new(),
        flate2::Compression::new(level),
    );
    encoder.write_all(input).map_err(|e| e.to_string())?;
    encoder.finish().map_err(|e| e.to_string())
}

/// Relies on xz2::write::XzEncoder over a growable buffer, which takes every write,
/// so that encoding does not fail. Levels past 9 are refused (xz2 unwraps the
/// preset, bzip2's `Compression::new` panics), so they are left out.
#[verifier::external_body]
pub(crate) fn xz_compress(input: &[u8], level: u32) -> (r: Result<Vec<u8>, String>)
    requires
        1 <= level <= 9,
    ensures
        r is Ok,
        r is Ok ==> r->Ok_0@ == xz_encoding(level, input@),
        r is Ok ==> xz_decoding(r->Ok_0@) == Some(input@),
{
    let mut encoder = xz2::write::XzEncoder::new(Vec::new(), level);
    encoder.write_all(input).map_err(|e| e.to_string())?;
    encoder.finish().map_err(|e| e.to_string())
}

/// Relies on bzip2::write::BzEncoder over a growable buffer, which takes every write,
/// so that encoding does not fail. Levels past 9 are refused (xz2 unwraps the
/// preset, bzip2's `Compression::new` panics), so they are left out.
#[verifier::external_body]
pub(crate) fn bzip2_compress(input: &[u8], level: u32) -> (r: Result<Vec<u8>, String>)
    requires
        1 <= level <= 9,
    ensures
        r is Ok,
        r is Ok ==> r->Ok_0@ == bzip2_encoding(level, input@),
        r is Ok ==> bzip2_decoding(r->Ok_0@) == Some(input@),
{
    let mut encoder = bzip2::write::BzEncoder::new(Vec::new(), bzip2::Compression::new(level));
    encoder.write_all(input).map_err(|e| e.to_string())?;
    encoder.finish().map_err(|e| e.to_string())
}

} // verus!
