//! The codec adapters and the two dispatching operations, each working on
//! caller-owned buffers of fixed capacity.
use vstd::prelude::*;
use vstd::slice::slice_subrange;

use crate::algo::{clamp_level, normalize, CompressionAlgo};
use crate::codecs::{
    brotli_compress, brotli_decoding, brotli_decompress, brotli_encoding, bzip2_compress,
    bzip2_decoding, bzip2_encoding, deflate_compress, deflate_decoding, deflate_encoding, fits,
    gzip_compress, gzip_decoding, gzip_encoding, lz4_bound, lz4_compress_into, lz4_decoding,
    lz4_decompress_into, lz4_encoding, lz4_max_output, lzf_compress, lzf_decoding, lzf_decompress,
    lzf_encoding, snappy_bound, snappy_compress_into, snappy_decoding, snappy_decompress_into,
    snappy_encoding, snappy_max_output, xz_compress, xz_decoding, xz_encoding, zstd_accepts,
    zstd_bound, zstd_compress, zstd_decoding, zstd_decompress, zstd_encoding, DecodeFailure,
    LZF_INPUT_LIMIT, LZF_ROOM_LIMIT,
};
use crate::error::CompressError;
use crate::stream::{read_to_buffer, Bzip2Source, DeflateSource, GzipSource, XzSource};

verus! {

/// The stored-or-compressed framing of lzf: a flag byte, 1 before lzf's
/// compressed form, 0 before the input itself where lzf has none or the input
/// is too long for lzf's encoder.
pub open spec fn lzf_frame(s: Seq<u8>) -> Seq<u8> {
    if s.len() <= LZF_INPUT_LIMIT {
        match lzf_encoding(s) {
            Some(c) => seq![1u8] + c,
            None => seq![0u8] + s,
        }
    } else {
        seq![0u8] + s
    }
}

/// The content of an lzf frame.
pub open spec fn lzf_unframe(s: Seq<u8>) -> Option<Seq<u8>> {
    if s.len() == 0 {
        None
    } else if s[0] == 0 {
        Some(s.skip(1))
    } else if s[0] == 1 {
        lzf_decoding(s.skip(1))
    } else {
        None
    }
}

/// The bytes that `compress` writes for `s` at the effective level `level`.
pub open spec fn encoding(algo: CompressionAlgo, level: i32, s: Seq<u8>) -> Seq<u8> {
    match algo {
        CompressionAlgo::Lz4 => lz4_encoding(s),
        CompressionAlgo::Snappy => snappy_encoding(s),
        CompressionAlgo::Zstd => zstd_encoding(level, s),
        CompressionAlgo::Gzip => gzip_encoding(level as u32, s),
        CompressionAlgo::Brotli => brotli_encoding(level, s),
        CompressionAlgo::Lzma2 => xz_encoding(level as u32, s),
        CompressionAlgo::Bzip2 => bzip2_encoding(level as u32, s),
        CompressionAlgo::Lzf => lzf_frame(s),
        CompressionAlgo::Deflate => deflate_encoding(level as u32, s),
    }
}

/// What `decompress` yields for `s` given unbounded room; `None` for data
/// that is not valid for the codec.
pub open spec fn decoding(algo: CompressionAlgo, s: Seq<u8>) -> Option<Seq<u8>> {
    match algo {
        CompressionAlgo::Lz4 => lz4_decoding(s),
        CompressionAlgo::Snappy => snappy_decoding(s),
        CompressionAlgo::Zstd => zstd_decoding(s),
        CompressionAlgo::Gzip => gzip_decoding(s),
        CompressionAlgo::Brotli => brotli_decoding(s),
        CompressionAlgo::Lzma2 => xz_decoding(s),
        CompressionAlgo::Bzip2 => bzip2_decoding(s),
        CompressionAlgo::Lzf => lzf_unframe(s),
        CompressionAlgo::Deflate => deflate_decoding(s),
    }
}

/// The capacity that `compress` asks for. lz4 and snappy ask for their
/// documented worst case up front (snappy's is 0 where the input is too
/// large to encode); the others for their exact output.
pub open spec fn required_capacity(algo: CompressionAlgo, level: i32, s: Seq<u8>) -> int {
    match algo {
        CompressionAlgo::Lz4 => lz4_bound(s.len() as int),
        CompressionAlgo::Snappy => snappy_bound(s.len() as int),
        _ => encoding(algo, level, s).len() as int,
    }
}

/// The calls where a codec may fail on its own: lz4 and snappy inputs too
/// large for their worst case to be computed, zstd inputs past what it
/// accepts, and lzf frames longer than a `usize` can count.
pub open spec fn codec_can_fail(algo: CompressionAlgo, s: Seq<u8>) -> bool {
    match algo {
        CompressionAlgo::Lz4 => !(s.len() * 110 <= u64::MAX && lz4_bound(s.len() as int)
            <= usize::MAX),
        CompressionAlgo::Snappy => snappy_bound(s.len() as int) == 0,
        CompressionAlgo::Zstd => !zstd_accepts(s.len() as int),
        CompressionAlgo::Lzf => lzf_frame(s).len() > usize::MAX,
        _ => false,
    }
}

/// The calls that must succeed: the buffer holds what is required and no
/// codec failure can stop them.
pub open spec fn success_owed(algo: CompressionAlgo, level: i32, s: Seq<u8>, cap: int) -> bool {
    !codec_can_fail(algo, s) && cap >= required_capacity(algo, level, s)
}

/// The codecs whose output is bounded by the estimate.
pub open spec fn estimate_covers(algo: CompressionAlgo, n: nat) -> bool {
    match algo {
        CompressionAlgo::Lz4 | CompressionAlgo::Snappy | CompressionAlgo::Lzf => true,
        CompressionAlgo::Zstd => zstd_accepts(n as int),
        _ => false,
    }
}

/// What a compression at effective level `level` of `s` into a buffer of
/// `cap` bytes, now `out`, guarantees: on success the encoding stands at the
/// front of `out` and decodes back to `s`; where the buffer is shorter than
/// `required_capacity` the result is a capacity failure asking for it; an
/// internal failure comes only from a codec that can fail on `s`. A failure
/// leaves the buffer `before` as it was. For the
/// codecs with a documented worst case, the output never exceeds the
/// estimate, so a buffer of the estimate's size never falls short.
pub open spec fn compress_post(
    algo: CompressionAlgo,
    level: i32,
    s: Seq<u8>,
    before: Seq<u8>,
    out: Seq<u8>,
    r: Result<usize, CompressError>,
) -> bool {
    let cap = before.len() as int;
    &&& out.len() == cap
    &&& (r is Err ==> out == before)
    &&& match r {
        Ok(n) => {
            &&& n <= cap
            &&& out.take(n as int) == encoding(algo, level, s)
            &&& decoding(algo, out.take(n as int)) == Some(s)
        },
        Err(CompressError::BufferTooSmall { needed }) => {
            &&& needed == required_capacity(algo, level, s)
            &&& needed > cap
        },
        Err(CompressError::Internal(_)) => codec_can_fail(algo, s),
        Err(_) => false,
    }
    &&& (success_owed(algo, level, s, cap) ==> r is Ok)
    &&& (!codec_can_fail(algo, s) && cap < required_capacity(algo, level, s) ==> r is Err
        && r->Err_0 is BufferTooSmall)
    &&& (r is Ok && estimate_covers(algo, s.len()) ==> r->Ok_0 <= estimate_bound(algo, s.len()))
    &&& (estimate_covers(algo, s.len()) && estimate_in_range(algo, s.len()) && cap
        >= estimate_bound(algo, s.len()) ==> !(r is Err && r->Err_0 is BufferTooSmall))
}

/// The most content that is decoded for `s`: compressed lzf frames are
/// decoded into at most `LZF_ROOM_LIMIT` bytes.
pub open spec fn reach(algo: CompressionAlgo, s: Seq<u8>) -> int {
    if algo is Lzf && s.len() > 0 && s[0] == 1 {
        LZF_ROOM_LIMIT as int
    } else {
        usize::MAX as int
    }
}

/// What a decompression of `s` into a buffer of `cap` bytes, now `out`,
/// guarantees: for valid content within reach, success where it fits, with
/// the content at the front of `out`, and otherwise a capacity failure asking
/// for its exact length. Invalid data, and content past reach, is an internal
/// failure.
pub open spec fn decompress_post(
    algo: CompressionAlgo,
    s: Seq<u8>,
    cap: int,
    out: Seq<u8>,
    r: Result<usize, CompressError>,
) -> bool {
    &&& out.len() == cap
    &&& match r {
        Ok(n) => n <= cap && decoding(algo, s) == Some(out.take(n as int)),
        Err(CompressError::BufferTooSmall { needed }) => {
            &&& needed > cap
            &&& decoding(algo, s) is Some
            &&& needed == decoding(algo, s)->0.len()
        },
        Err(CompressError::Internal(_)) => decoding(algo, s) is None || decoding(algo, s)->0.len()
            > reach(algo, s),
        Err(_) => false,
    }
    &&& (decoding(algo, s) is Some && decoding(algo, s)->0.len() <= reach(algo, s) ==> if decoding(
        algo,
        s,
    )->0.len() <= cap {
        r is Ok
    } else {
        r is Err && r->Err_0 is BufferTooSmall
    })
}

/// What a decompression leaves in the buffer besides its result: a streaming
/// decoder fills it with the first bytes of content that does not fit, and lzf
/// writes nothing past its content and nothing at all when it fails.
pub open spec fn decompress_output_post(
    algo: CompressionAlgo,
    s: Seq<u8>,
    before: Seq<u8>,
    after: Seq<u8>,
    r: Result<usize, CompressError>,
) -> bool {
    &&& (is_streaming(algo) && decoding(algo, s) is Some && !fits(decoding(algo, s), before.len() as int)
        ==> after == decoding(algo, s)->0.take(before.len() as int))
    &&& (algo is Lzf && r is Err ==> after == before)
    &&& (algo is Lzf && r is Ok ==> after.skip(r->Ok_0 as int) == before.skip(r->Ok_0 as int))
}

/// The codecs decoded piece by piece through a reader.
pub open spec fn is_streaming(algo: CompressionAlgo) -> bool {
    algo is Gzip || algo is Deflate || algo is Lzma2 || algo is Bzip2
}

/// Copies `src` into `output` from position `at` on, leaving the rest.
fn copy_into(src: &[u8], output: &mut [u8], at: usize)
    requires
        at + src@.len() <= old(output)@.len(),
    ensures
        final(output)@ == old(output)@.take(at as int) + src@ + old(output)@.skip(
            at + src@.len(),
        ),
{
    let cap = output.len();
    let mut i: usize = 0;
    while i < src.len()
        invariant
            cap == output@.len(),
            i <= src@.len(),
            at + src@.len() <= output@.len(),
            output@.len() == old(output)@.len(),
            forall|k: int| 0 <= k < at ==> output@[k] == old(output)@[k],
            forall|k: int| 0 <= k < i ==> output@[at + k] == src@[k],
            forall|k: int| at + src@.len() <= k < output@.len() ==> output@[k] == old(output)@[k],
        decreases src@.len() - i,
    {
        output[at + i] = src[i];
        i = i + 1;
    }
    assert(output@ =~= old(output)@.take(at as int) + src@ + old(output)@.skip(at + src@.len()));
}

/// Places the result of a codec that writes into a growable buffer: its
/// bytes go to the front of `output` when they fit, else the failure asks for
/// their length; a codec failure is an internal one. A failure leaves
/// `output` as it was.
pub fn place_staged(staged: Result<Vec<u8>, String>, output: &mut [u8]) -> (r: Result<
    usize,
    CompressError,
>)
    ensures
        final(output)@.len() == old(output)@.len(),
        match staged {
            Ok(v) => if v@.len() <= old(output)@.len() {
                &&& r is Ok
                &&& r->Ok_0 == v@.len()
                &&& final(output)@.take(v@.len() as int) == v@
            } else {
                &&& r is Err
                &&& r->Err_0 is BufferTooSmall
                &&& r->Err_0->needed == v@.len()
            },
            Err(e) => r == Err::<usize, CompressError>(CompressError::Internal(e)),
        },
        r is Err ==> final(output)@ == old(output)@,
{
    match staged {
        Ok(v) => {
            if v.len() > output.len() {
                Err(CompressError::BufferTooSmall { needed: v.len() })
            } else {
                copy_into(v.as_slice(), output, 0);
                assert(output@.take(v@.len() as int) =~= v@);
                Ok(v.len())
            }
        },
        Err(e) => Err(CompressError::Internal(e)),
    }
}

/// Compresses `input` into `output` with `algo` at the requested `level`,
/// which is first normalized. Returns the number of bytes written.
pub fn compress(algo: CompressionAlgo, level: i32, input: &[u8], output: &mut [u8]) -> (r: Result<
    usize,
    CompressError,
>)
    ensures
        compress_post(
            algo,
            normalize(algo, level),
            input@,
            old(output)@,
            final(output)@,
            r,
        ),
        algo is Lzf ==> lzf_frame(input@).len() <= input@.len() + 1,
        algo is Lzf && input@.len() < 2 ==> lzf_encoding(input@) is None,

{
    let level = clamp_level(algo, level);
    match algo {
        CompressionAlgo::Lz4 => compress_lz4(input, output),
        CompressionAlgo::Snappy => compress_snappy(input, output),
        CompressionAlgo::Gzip => compress_gzip(input, output, level),
        CompressionAlgo::Deflate => compress_deflate(input, output, level),
        CompressionAlgo::Zstd => compress_zstd(input, output, level),
        CompressionAlgo::Brotli => compress_brotli(input, output, level),
        CompressionAlgo::Lzma2 => compress_lzma2(input, output, level),
        CompressionAlgo::Bzip2 => compress_bzip2(input, output, level),
        CompressionAlgo::Lzf => compress_lzf(input, output),
    }
}

fn compress_lz4(input: &[u8], output: &mut [u8]) -> (r: Result<usize, CompressError>)
    ensures
        compress_post(
            CompressionAlgo::Lz4,
            0,
            input@,
            old(output)@,
            final(output)@,
            r,
        ),
        r is Ok ==> r->Ok_0 <= lz4_bound(input@.len() as int),
{
    // Reading the length records that the capacity fits in a usize.
    let _cap = output.len();
    match lz4_compress_into(input, output) {
        Ok(n) => Ok(n),
        Err(e) => {
            let n = input.len();
            if estimate_fits(CompressionAlgo::Lz4, n) {
                Err(CompressError::BufferTooSmall { needed: lz4_max_output(n) })
            } else {
                Err(CompressError::Internal(e))
            }
        },
    }
}

fn compress_snappy(input: &[u8], output: &mut [u8]) -> (r: Result<usize, CompressError>)
    ensures
        compress_post(
            CompressionAlgo::Snappy,
            0,
            input@,
            old(output)@,
            final(output)@,
            r,
        ),
        r is Ok ==> r->Ok_0 <= snappy_bound(input@.len() as int),
{
    let max = snappy_max_output(input.len());
    if output.len() < max {
        return Err(CompressError::BufferTooSmall { needed: max });
    }
    match snappy_compress_into(input, output) {
        Ok(n) => Ok(n),
        Err(e) => Err(CompressError::Internal(e)),
    }
}

fn compress_gzip(input: &[u8], output: &mut [u8], level: i32) -> (r: Result<usize, CompressError>)
    requires
        1 <= level <= 9,
    ensures
        compress_post(
            CompressionAlgo::Gzip,
            level,
            input@,
            old(output)@,
            final(output)@,
            r,
        ),
{
    place_staged(gzip_compress(input, level as u32), output)
}

fn compress_deflate(input: &[u8], output: &mut [u8], level: i32) -> (r: Result<
    usize,
    CompressError,
>)
    requires
        1 <= level <= 9,
    ensures
        compress_post(
            CompressionAlgo::Deflate,
            level,
            input@,
            old(output)@,
            final(output)@,
            r,
        ),
{
    place_staged(deflate_compress(input, level as u32), output)
}

fn compress_zstd(input: &[u8], output: &mut [u8], level: i32) -> (r: Result<usize, CompressError>)
    requires
        1 <= level <= 22,
    ensures
        compress_post(
            CompressionAlgo::Zstd,
            level,
            input@,
            old(output)@,
            final(output)@,
            r,
        ),
        zstd_accepts(input@.len() as int) ==> zstd_encoding(level, input@).len() <= zstd_bound(
            input@.len() as int,
        ),
{
    place_staged(zstd_compress(input, level), output)
}

fn compress_brotli(input: &[u8], output: &mut [u8], level: i32) -> (r: Result<
    usize,
    CompressError,
>)
    requires
        1 <= level <= 11,
    ensures
        compress_post(
            CompressionAlgo::Brotli,
            level,
            input@,
            old(output)@,
            final(output)@,
            r,
        ),
{
    place_staged(brotli_compress(input, level), output)
}

fn compress_lzma2(input: &[u8], output: &mut [u8], level: i32) -> (r: Result<
    usize,
    CompressError,
>)
    requires
        1 <= level <= 9,
    ensures
        compress_post(
            CompressionAlgo::Lzma2,
            level,
            input@,
            old(output)@,
            final(output)@,
            r,
        ),
{
    place_staged(xz_compress(input, level as u32), output)
}

fn compress_bzip2(input: &[u8], output: &mut [u8], level: i32) -> (r: Result<
    usize,
    CompressError,
>)
    requires
        1 <= level <= 9,
    ensures
        compress_post(
            CompressionAlgo::Bzip2,
            level,
            input@,
            old(output)@,
            final(output)@,
            r,
        ),
{
    place_staged(bzip2_compress(input, level as u32), output)
}

/// lzf finds no shorter form for tiny or incompressible inputs; those, and
/// inputs too long for lzf's encoder, are stored as they are behind the flag
/// byte, so that every input round-trips.
fn compress_lzf(input: &[u8], output: &mut [u8]) -> (r: Result<usize, CompressError>)
    ensures
        compress_post(
            CompressionAlgo::Lzf,
            0,
            input@,
            old(output)@,
            final(output)@,
            r,
        ),
        lzf_frame(input@).len() <= input@.len() + 1,
        input@.len() < 2 ==> lzf_encoding(input@) is None,
{
    let packed = if input.len() <= LZF_INPUT_LIMIT {
        lzf_compress(input)
    } else {
        None
    };
    let (flag, body): (u8, &[u8]) = match &packed {
        Some(c) => (1u8, c.as_slice()),
        None => (0u8, input),
    };
    assert(seq![flag] + body@ == lzf_frame(input@));
    if body.len() >= output.len() {
        if body.len() == usize::MAX {
            return Err(CompressError::Internal("lzf: input too large".to_owned()));
        }
        return Err(CompressError::BufferTooSmall { needed: 1 + body.len() });
    }
    let total = 1 + body.len();
    output[0] = flag;
    copy_into(body, output, 1);
    assert(output@.take(total as int) =~= lzf_frame(input@));
    assert(output@.take(total as int).skip(1) =~= body@);
    Ok(total)
}

/// The conservative output size that callers allocate before compressing:
/// lz4's and snappy's documented worst cases, a loose bound for the deflate
/// family, and twice the input plus a constant for the rest.
pub open spec fn estimate_bound(algo: CompressionAlgo, n: nat) -> int {
    match algo {
        CompressionAlgo::Lz4 => lz4_bound(n as int),
        CompressionAlgo::Snappy => snappy_bound(n as int),
        CompressionAlgo::Gzip | CompressionAlgo::Deflate => (n + n / 8 + 32) as int,
        _ => (2 * n + 64) as int,
    }
}

/// The input lengths whose estimate can be computed in machine integers.
pub open spec fn estimate_in_range(algo: CompressionAlgo, n: nat) -> bool {
    match algo {
        CompressionAlgo::Lz4 => n * 110 <= u64::MAX && lz4_bound(n as int) <= usize::MAX,
        CompressionAlgo::Snappy => true,
        _ => estimate_bound(algo, n) <= usize::MAX,
    }
}

/// Whether the estimate for `input_len` can be computed.
pub fn estimate_fits(algo: CompressionAlgo, input_len: usize) -> (r: bool)
    ensures
        r == estimate_in_range(algo, input_len as nat),
{
    match algo {
        CompressionAlgo::Lz4 => {
            if input_len as u64 > u64::MAX / 110 {
                false
            } else {
                let scaled = input_len as u64 * 110 / 100;
                scaled <= (usize::MAX - 20) as u64
            }
        },
        CompressionAlgo::Snappy => true,
        CompressionAlgo::Gzip | CompressionAlgo::Deflate => input_len <= usize::MAX - 32
            - input_len / 8,
        _ => input_len <= (usize::MAX - 64) / 2,
    }
}

/// A conservative estimate of the compressed size of `input_len` bytes; the
/// level plays no part.
pub fn estimate_max_output_size(algo: CompressionAlgo, _level: i32, input_len: usize) -> (r: usize)
    requires
        estimate_in_range(algo, input_len as nat),
    ensures
        r == estimate_bound(algo, input_len as nat),
{
    match algo {
        CompressionAlgo::Lz4 => lz4_max_output(input_len),
        CompressionAlgo::Snappy => snappy_max_output(input_len),
        CompressionAlgo::Gzip | CompressionAlgo::Deflate => input_len + input_len / 8 + 32,
        _ => input_len * 2 + 64,
    }
}

/// Decompresses `input` into `output` with `algo`. Returns the number of
/// bytes written.
pub fn decompress(algo: CompressionAlgo, input: &[u8], output: &mut [u8]) -> (r: Result<
    usize,
    CompressError,
>)
    ensures
        decompress_post(algo, input@, old(output)@.len() as int, final(output)@, r),
        decompress_output_post(algo, input@, old(output)@, final(output)@, r),
{
    match algo {
        CompressionAlgo::Lz4 => decompress_lz4(input, output),
        CompressionAlgo::Snappy => decompress_snappy(input, output),
        CompressionAlgo::Gzip => decompress_gzip(input, output),
        CompressionAlgo::Deflate => decompress_deflate(input, output),
        CompressionAlgo::Zstd => decompress_zstd(input, output),
        CompressionAlgo::Brotli => decompress_brotli(input, output),
        CompressionAlgo::Lzma2 => decompress_lzma2(input, output),
        CompressionAlgo::Bzip2 => decompress_bzip2(input, output),
        CompressionAlgo::Lzf => decompress_lzf(input, output),
    }
}

fn decompress_lz4(input: &[u8], output: &mut [u8]) -> (r: Result<usize, CompressError>)
    ensures
        decompress_post(CompressionAlgo::Lz4, input@, old(output)@.len() as int, final(output)@, r),
{
    block_decompress(CompressionAlgo::Lz4, input, output)
}

fn decompress_snappy(input: &[u8], output: &mut [u8]) -> (r: Result<usize, CompressError>)
    ensures
        decompress_post(
            CompressionAlgo::Snappy,
            input@,
            old(output)@.len() as int,
            final(output)@,
            r,
        ),
{
    block_decompress(CompressionAlgo::Snappy, input, output)
}

fn decompress_zstd(input: &[u8], output: &mut [u8]) -> (r: Result<usize, CompressError>)
    ensures
        decompress_post(
            CompressionAlgo::Zstd,
            input@,
            old(output)@.len() as int,
            final(output)@,
            r,
        ),
{
    place_staged(zstd_decompress(input), output)
}

fn decompress_brotli(input: &[u8], output: &mut [u8]) -> (r: Result<usize, CompressError>)
    ensures
        decompress_post(
            CompressionAlgo::Brotli,
            input@,
            old(output)@.len() as int,
            final(output)@,
            r,
        ),
{
    place_staged(brotli_decompress(input), output)
}

/// The decoders that write into a buffer of fixed size and tell a buffer too
/// small from invalid data, without saying how much room they need.
pub open spec fn is_block(algo: CompressionAlgo) -> bool {
    algo is Lz4 || algo is Snappy || algo is Lzf
}

/// What a block decoder yields given unbounded room.
pub open spec fn block_decoding(algo: CompressionAlgo, s: Seq<u8>) -> Option<Seq<u8>> {
    match algo {
        CompressionAlgo::Lz4 => lz4_decoding(s),
        CompressionAlgo::Snappy => snappy_decoding(s),
        _ => lzf_decoding(s),
    }
}

/// The most room a block decoder is given.
pub open spec fn block_room(algo: CompressionAlgo) -> int {
    if algo is Lzf {
        LZF_ROOM_LIMIT as int
    } else {
        usize::MAX as int
    }
}

fn room_limit(algo: CompressionAlgo) -> (r: usize)
    ensures
        r == block_room(algo),
{
    match algo {
        CompressionAlgo::Lzf => LZF_ROOM_LIMIT,
        _ => usize::MAX,
    }
}

/// One block decoding into `buf`, given at most `block_room` bytes of it.
fn block_decode_into(algo: CompressionAlgo, input: &[u8], buf: &mut [u8]) -> (r: Result<
    usize,
    DecodeFailure,
>)
    requires
        is_block(algo),
    ensures
        final(buf)@.len() == old(buf)@.len(),
        r is Ok ==> r->Ok_0 <= old(buf)@.len() && block_decoding(algo, input@) == Some(
            final(buf)@.take(r->Ok_0 as int),
        ),
        fits(
            block_decoding(algo, input@),
            if old(buf)@.len() < block_room(algo) {
                old(buf)@.len() as int
            } else {
                block_room(algo)
            },
        ) ==> r is Ok,
        r is Err && r->Err_0 is Invalid ==> block_decoding(algo, input@) is None,
        algo is Lzf && r is Err ==> final(buf)@ == old(buf)@,
        algo is Lzf && r is Ok ==> final(buf)@.skip(r->Ok_0 as int) == old(buf)@.skip(
            r->Ok_0 as int,
        ),
{
    let cap = buf.len();
    match algo {
        CompressionAlgo::Lz4 => lz4_decompress_into(input, buf),
        CompressionAlgo::Snappy => snappy_decompress_into(input, buf),
        _ => {
            let room = if cap < LZF_ROOM_LIMIT {
                cap
            } else {
                LZF_ROOM_LIMIT
            };
            match lzf_decompress(input, room) {
                Ok(content) => {
                    let ghost before = buf@;
                    copy_into(content.as_slice(), buf, 0);
                    assert(buf@.take(content@.len() as int) =~= content@);
                    assert(buf@.skip(content@.len() as int) =~= before.skip(
                        content@.len() as int,
                    ));
                    Ok(content.len())
                },
                Err(e) => Err(e),
            }
        },
    }
}

/// Decodes a block into `output`. Where the content does not fit, decodes it
/// again into scratch buffers of growing size, to learn its exact length.
fn block_decompress(algo: CompressionAlgo, input: &[u8], output: &mut [u8]) -> (r: Result<
    usize,
    CompressError,
>)
    requires
        is_block(algo),
    ensures
        final(output)@.len() == old(output)@.len(),
        match r {
            Ok(n) => n <= old(output)@.len() && block_decoding(algo, input@) == Some(
                final(output)@.take(n as int),
            ),
            Err(CompressError::BufferTooSmall { needed }) => {
                &&& needed > old(output)@.len()
                &&& block_decoding(algo, input@) is Some
                &&& needed == block_decoding(algo, input@)->0.len()
            },
            Err(CompressError::Internal(_)) => block_decoding(algo, input@) is None
                || block_decoding(algo, input@)->0.len() > block_room(algo),
            Err(_) => false,
        },
        block_decoding(algo, input@) is Some && block_decoding(algo, input@)->0.len()
            <= block_room(algo) ==> if block_decoding(algo, input@)->0.len()
            <= old(output)@.len() {
            r is Ok
        } else {
            r is Err && r->Err_0 is BufferTooSmall
        },
        algo is Lzf && r is Err ==> final(output)@ == old(output)@,
        algo is Lzf && r is Ok ==> final(output)@.skip(r->Ok_0 as int) == old(output)@.skip(
            r->Ok_0 as int,
        ),
{
    let cap = output.len();
    let limit = room_limit(algo);
    match block_decode_into(algo, input, output) {
        Ok(n) => {
            return Ok(n);
        },
        Err(DecodeFailure::Invalid(e)) => {
            return Err(CompressError::Internal(e));
        },
        Err(DecodeFailure::TooSmall) => {},
    }
    if cap >= limit {
        return Err(CompressError::Internal("content exceeds the decoder's room".to_owned()));
    }
    let ghost kept = output@;
    let mut size: usize = cap;
    loop
        invariant
            is_block(algo),
            cap <= size <= limit,
            limit == block_room(algo),
            cap == old(output)@.len(),
            output@ == kept,
            kept.len() == cap,
            algo is Lzf ==> kept == old(output)@,
            block_decoding(algo, input@) is Some ==> block_decoding(algo, input@)->0.len() > size,
        decreases limit - size,
    {
        if size == limit {
            return Err(CompressError::Internal("content exceeds the decoder's room".to_owned()));
        }
        let next: usize = if size > (limit - 1) / 2 {
            limit
        } else {
            2 * size + 1
        };
        let mut scratch: Vec<u8> = vec![0u8; next];
        match block_decode_into(algo, input, scratch.as_mut_slice()) {
            Ok(n) => {
                return Err(CompressError::BufferTooSmall { needed: n });
            },
            Err(DecodeFailure::Invalid(e)) => {
                return Err(CompressError::Internal(e));
            },
            Err(DecodeFailure::TooSmall) => {
                size = next;
            },
        }
    }
}

fn decompress_gzip(input: &[u8], output: &mut [u8]) -> (r: Result<usize, CompressError>)
    ensures
        decompress_post(
            CompressionAlgo::Gzip,
            input@,
            old(output)@.len() as int,
            final(output)@,
            r,
        ),
        decompress_output_post(CompressionAlgo::Gzip, input@, old(output)@, final(output)@, r),
{
    let mut decoder = GzipSource::open(input);
    read_to_buffer(&mut decoder, output)
}

fn decompress_deflate(input: &[u8], output: &mut [u8]) -> (r: Result<usize, CompressError>)
    ensures
        decompress_post(
            CompressionAlgo::Deflate,
            input@,
            old(output)@.len() as int,
            final(output)@,
            r,
        ),
        decompress_output_post(CompressionAlgo::Deflate, input@, old(output)@, final(output)@, r),
{
    let mut decoder = DeflateSource::open(input);
    read_to_buffer(&mut decoder, output)
}

fn decompress_lzma2(input: &[u8], output: &mut [u8]) -> (r: Result<usize, CompressError>)
    ensures
        decompress_post(
            CompressionAlgo::Lzma2,
            input@,
            old(output)@.len() as int,
            final(output)@,
            r,
        ),
        decompress_output_post(CompressionAlgo::Lzma2, input@, old(output)@, final(output)@, r),
{
    let mut decoder = XzSource::open(input);
    read_to_buffer(&mut decoder, output)
}

fn decompress_bzip2(input: &[u8], output: &mut [u8]) -> (r: Result<usize, CompressError>)
    ensures
        decompress_post(
            CompressionAlgo::Bzip2,
            input@,
            old(output)@.len() as int,
            final(output)@,
            r,
        ),
        decompress_output_post(CompressionAlgo::Bzip2, input@, old(output)@, final(output)@, r),
{
    let mut decoder = Bzip2Source::open(input);
    read_to_buffer(&mut decoder, output)
}

/// Reads the flag byte of an lzf frame: stored bytes are copied as they are,
/// a compressed body goes through lzf, anything else is corrupt.
fn decompress_lzf(input: &[u8], output: &mut [u8]) -> (r: Result<usize, CompressError>)
    ensures
        decompress_post(CompressionAlgo::Lzf, input@, old(output)@.len() as int, final(output)@, r),
        decompress_output_post(CompressionAlgo::Lzf, input@, old(output)@, final(output)@, r),
{
    if input.len() == 0 {
        return Err(CompressError::Internal("lzf: empty input".to_owned()));
    }
    let flag = input[0];
    let payload = slice_subrange(input, 1, input.len());
    assert(payload@ == input@.skip(1));
    if flag == 0 {
        if payload.len() > output.len() {
            return Err(CompressError::BufferTooSmall { needed: payload.len() });
        }
        let ghost before = output@;
        copy_into(payload, output, 0);
        assert(output@.take(payload@.len() as int) =~= payload@);
        assert(output@.skip(payload@.len() as int) =~= before.skip(payload@.len() as int));
        Ok(payload.len())
    } else if flag == 1 {
        block_decompress(CompressionAlgo::Lzf, payload, output)
    } else {
        Err(CompressError::Internal("lzf: unknown flag".to_owned()))
    }
}

/// Whatever `compress` reports as written decompresses, through
/// `decompress` into any buffer that can hold the input, to exactly the input:
/// every outcome that `decompress` admits there is that success.
pub proof fn lemma_round_trip(
    algo: CompressionAlgo,
    level: i32,
    input: Seq<u8>,
    compress_before: Seq<u8>,
    compressed: Seq<u8>,
    written: usize,
    cap: int,
    out: Seq<u8>,
    r: Result<usize, CompressError>,
)
    requires
        compress_post(algo, level, input, compress_before, compressed, Ok(written)),
        input.len() <= cap <= usize::MAX,
        decompress_post(algo, compressed.take(written as int), cap, out, r),
    ensures
        r == Ok::<usize, CompressError>(input.len() as usize),
        out.take(input.len() as int) == input,
{
}

} // verus!
