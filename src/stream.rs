//! Decoders that yield their output piece by piece, and the loop that drains
//! one into a fixed-capacity buffer.
use vstd::prelude::*;

use std::io::Read;

use crate::codecs::{bzip2_decoding, deflate_decoding, gzip_decoding, xz_decoding};
use crate::error::CompressError;

verus! {

#[verifier::external_type_specification]
#[verifier::external_body]
#[verifier::reject_recursive_types(R)]
pub struct ExGzDecoder<R>(flate2::read::GzDecoder<R>);

#[verifier::external_type_specification]
#[verifier::external_body]
#[verifier::reject_recursive_types(R)]
pub struct ExDeflateDecoder<R>(flate2::read::DeflateDecoder<R>);

/// Holds xz2's reader. Its type cannot be declared to Verus, as it carries a
/// `Read` bound that Verus does not take; so it is kept behind this opaque
/// struct, which nothing reads but `xz_read`.
#[verifier::external_body]
pub struct XzReader<'a> {
    inner: xz2::read::XzDecoder<&'a [u8]>,
}

#[verifier::external_type_specification]
#[verifier::external_body]
#[verifier::reject_recursive_types(R)]
pub struct ExBzDecoder<R>(bzip2::read::BzDecoder<R>);

/// A source of decoded bytes.
pub trait ByteSource {
    /// The bytes the source still yields before it reports its end, or `None`
    /// where it fails before reaching one.
    spec fn pending(&self) -> Option<Seq<u8>>;

    /// Whether the source has reported a failure, after which nothing is
    /// known of what it does.
    spec fn spent(&self) -> bool;

    /// Reads some bytes into `buf[from..]`.
    fn read_into(&mut self, buf: &mut [u8], from: usize) -> (r: Result<usize, String>)
        requires
            from <= old(buf)@.len(),
        ensures
            read_step(
                old(self).pending(),
                old(self).spent(),
                final(self).pending(),
                final(self).spent(),
                old(buf)@,
                final(buf)@,
                from,
                r,
            ),
    ;
}

/// One read of `from..` of a buffer: it keeps the bytes before `from`, and a
/// source with bytes pending yields a prefix of them, nothing only at its end
/// or into an empty room; a failing source may yield anything, but never
/// reports an end before it reports its failure. Once it has, it is spent
/// and nothing more is said of it.
pub open spec fn read_step(
    before: Option<Seq<u8>>,
    before_spent: bool,
    after: Option<Seq<u8>>,
    after_spent: bool,
    old_buf: Seq<u8>,
    new_buf: Seq<u8>,
    from: usize,
    r: Result<usize, String>,
) -> bool {
    &&& new_buf.len() == old_buf.len()
    &&& new_buf.take(from as int) == old_buf.take(from as int)
    &&& (r is Ok ==> r->Ok_0 <= old_buf.len() - from)
    &&& !before_spent ==> match before {
        Some(rest) => {
            &&& r is Ok
            &&& r->Ok_0 <= rest.len()
            &&& (r->Ok_0 == 0 ==> rest.len() == 0 || from == old_buf.len())
            &&& new_buf.subrange(from as int, from + r->Ok_0) == rest.take(r->Ok_0 as int)
            &&& after == Some(rest.skip(r->Ok_0 as int))
            &&& !after_spent
        },
        None => {
            &&& (r is Err ==> after_spent)
            &&& (r is Ok ==> after is None && !after_spent)
            &&& (r is Ok && from < old_buf.len() ==> r->Ok_0 > 0)
        },
    }
}

/// A gzip member being decoded.
pub struct GzipSource<'a> {
    decoder: flate2::read::GzDecoder<&'a [u8]>,
    pending: Ghost<Option<Seq<u8>>>,
    spent: Ghost<bool>,
}

/// A raw deflate stream being decoded.
pub struct DeflateSource<'a> {
    decoder: flate2::read::DeflateDecoder<&'a [u8]>,
    pending: Ghost<Option<Seq<u8>>>,
    spent: Ghost<bool>,
}

/// An xz stream being decoded.
pub struct XzSource<'a> {
    decoder: XzReader<'a>,
    pending: Ghost<Option<Seq<u8>>>,
    spent: Ghost<bool>,
}

/// A bzip2 stream being decoded.
pub struct Bzip2Source<'a> {
    decoder: bzip2::read::BzDecoder<&'a [u8]>,
    pending: Ghost<Option<Seq<u8>>>,
    spent: Ghost<bool>,
}

/// Relies on flate2::read::GzDecoder::new, which reads the gzip header
/// from `input`: reading the decoder it returns yields
/// the gzip content of `input`, as `gzip_decoding` names it.
#[verifier::external_body]
fn gzip_source<'a>(input: &'a [u8]) -> (r: GzipSource<'a>)
    ensures
        r.pending@ == gzip_decoding(input@),
        !r.spent@,
{
    GzipSource {
        decoder: flate2::read::GzDecoder::new(input),
        pending: Ghost(gzip_decoding(input@)),
        spent: Ghost(false),
    }
}

/// Relies on flate2::read::DeflateDecoder::new: reading the decoder it
/// returns yields the deflate content of `input`, as `deflate_decoding` names it.
#[verifier::external_body]
fn deflate_source<'a>(input: &'a [u8]) -> (r: DeflateSource<'a>)
    ensures
        r.pending@ == deflate_decoding(input@),
        !r.spent@,
{
    DeflateSource {
        decoder: flate2::read::DeflateDecoder::new(input),
        pending: Ghost(deflate_decoding(input@)),
        spent: Ghost(false),
    }
}

/// Relies on xz2::read::XzDecoder::new: reading the decoder it returns yields
/// the xz content of `input`, as `xz_decoding` names it.
#[verifier::external_body]
fn xz_source<'a>(input: &'a [u8]) -> (r: XzSource<'a>)
    ensures
        r.pending@ == xz_decoding(input@),
        !r.spent@,
{
    XzSource {
        decoder: XzReader { inner: xz2::read::XzDecoder::new(input) },
        pending: Ghost(xz_decoding(input@)),
        spent: Ghost(false),
    }
}

/// Relies on bzip2::read::BzDecoder::new: reading the decoder it returns
/// yields the bzip2 content of `input`, as `bzip2_decoding` names it.
#[verifier::external_body]
fn bzip2_source<'a>(input: &'a [u8]) -> (r: Bzip2Source<'a>)
    ensures
        r.pending@ == bzip2_decoding(input@),
        !r.spent@,
{
    Bzip2Source {
        decoder: bzip2::read::BzDecoder::new(input),
        pending: Ghost(bzip2_decoding(input@)),
        spent: Ghost(false),
    }
}

impl<'a> GzipSource<'a> {
    pub fn open(input: &'a [u8]) -> (r: GzipSource<'a>)
        ensures
            r.pending() == gzip_decoding(input@),
            !r.spent(),
    {
        gzip_source(input)
    }
}

impl<'a> DeflateSource<'a> {
    pub fn open(input: &'a [u8]) -> (r: DeflateSource<'a>)
        ensures
            r.pending() == deflate_decoding(input@),
            !r.spent(),
    {
        deflate_source(input)
    }
}

impl<'a> XzSource<'a> {
    pub fn open(input: &'a [u8]) -> (r: XzSource<'a>)
        ensures
            r.pending() == xz_decoding(input@),
            !r.spent(),
    {
        xz_source(input)
    }
}

impl<'a> Bzip2Source<'a> {
    pub fn open(input: &'a [u8]) -> (r: Bzip2Source<'a>)
        ensures
            r.pending() == bzip2_decoding(input@),
            !r.spent(),
    {
        bzip2_source(input)
    }
}

/// Relies on `Read::read` of flate2::read::GzDecoder: it fills `buf[from..]` with the next
/// decoded bytes, returns 0 only at the end of the stream or into an empty
/// room, and fails on corrupt data rather than reporting an end.
#[verifier::external_body]
fn gzip_read(src: &mut GzipSource<'_>, buf: &mut [u8], from: usize) -> (r: Result<usize, String>)
    requires
        from <= old(buf)@.len(),
    ensures
        read_step(
            old(src).pending@,
            old(src).spent@,
            final(src).pending@,
            final(src).spent@,
            old(buf)@,
            final(buf)@,
            from,
            r,
        ),
{
    src.decoder.read(&mut buf[from..]).map_err(|e| e.to_string())
}

impl<'a> ByteSource for GzipSource<'a> {
    closed spec fn pending(&self) -> Option<Seq<u8>> {
        self.pending@
    }

    closed spec fn spent(&self) -> bool {
        self.spent@
    }

    fn read_into(&mut self, buf: &mut [u8], from: usize) -> (r: Result<usize, String>) {
        gzip_read(self, buf, from)
    }
}

/// Relies on `Read::read` of flate2::read::DeflateDecoder: it fills `buf[from..]` with the next
/// decoded bytes, returns 0 only at the end of the stream or into an empty
/// room, and fails on corrupt data rather than reporting an end.
#[verifier::external_body]
fn deflate_read(src: &mut DeflateSource<'_>, buf: &mut [u8], from: usize) -> (r: Result<usize, String>)
    requires
        from <= old(buf)@.len(),
    ensures
        read_step(
            old(src).pending@,
            old(src).spent@,
            final(src).pending@,
            final(src).spent@,
            old(buf)@,
            final(buf)@,
            from,
            r,
        ),
{
    src.decoder.read(&mut buf[from..]).map_err(|e| e.to_string())
}

impl<'a> ByteSource for DeflateSource<'a> {
    closed spec fn pending(&self) -> Option<Seq<u8>> {
        self.pending@
    }

    closed spec fn spent(&self) -> bool {
        self.spent@
    }

    fn read_into(&mut self, buf: &mut [u8], from: usize) -> (r: Result<usize, String>) {
        deflate_read(self, buf, from)
    }
}

/// Relies on `Read::read` of xz2::read::XzDecoder: it fills `buf[from..]` with the next
/// decoded bytes, returns 0 only at the end of the stream or into an empty
/// room, and fails on corrupt data rather than reporting an end.
#[verifier::external_body]
fn xz_read(src: &mut XzSource<'_>, buf: &mut [u8], from: usize) -> (r: Result<usize, String>)
    requires
        from <= old(buf)@.len(),
    ensures
        read_step(
            old(src).pending@,
            old(src).spent@,
            final(src).pending@,
            final(src).spent@,
            old(buf)@,
            final(buf)@,
            from,
            r,
        ),
{
    src.decoder.inner.read(&mut buf[from..]).map_err(|e| e.to_string())
}

impl<'a> ByteSource for XzSource<'a> {
    closed spec fn pending(&self) -> Option<Seq<u8>> {
        self.pending@
    }

    closed spec fn spent(&self) -> bool {
        self.spent@
    }

    fn read_into(&mut self, buf: &mut [u8], from: usize) -> (r: Result<usize, String>) {
        xz_read(self, buf, from)
    }
}

/// Relies on `Read::read` of bzip2::read::BzDecoder: it fills `buf[from..]` with the next
/// decoded bytes, returns 0 only at the end of the stream or into an empty
/// room, and fails on corrupt data rather than reporting an end.
#[verifier::external_body]
fn bzip2_read(src: &mut Bzip2Source<'_>, buf: &mut [u8], from: usize) -> (r: Result<usize, String>)
    requires
        from <= old(buf)@.len(),
    ensures
        read_step(
            old(src).pending@,
            old(src).spent@,
            final(src).pending@,
            final(src).spent@,
            old(buf)@,
            final(buf)@,
            from,
            r,
        ),
{
    src.decoder.read(&mut buf[from..]).map_err(|e| e.to_string())
}

impl<'a> ByteSource for Bzip2Source<'a> {
    closed spec fn pending(&self) -> Option<Seq<u8>> {
        self.pending@
    }

    closed spec fn spent(&self) -> bool {
        self.spent@
    }

    fn read_into(&mut self, buf: &mut [u8], from: usize) -> (r: Result<usize, String>) {
        bzip2_read(self, buf, from)
    }
}

/// The size of the scratch buffer that counts the bytes past a full output.
pub const SCRATCH_LEN: usize = 512;

/// Drains `reader` into `output`. Its whole content comes back when it fits.
/// Where it does not, `output` holds its first bytes and the rest is counted
/// through a scratch buffer, so that the capacity failure asks for the exact
/// content length; a source that fails before its end is an internal failure
/// however many bytes it yielded.
pub fn read_to_buffer<S: ByteSource>(reader: &mut S, output: &mut [u8]) -> (r: Result<
    usize,
    CompressError,
>)
    requires
        !old(reader).spent(),
    ensures
        final(output)@.len() == old(output)@.len(),
        match old(reader).pending() {
            Some(x) => if x.len() <= old(output)@.len() {
                &&& r is Ok && r->Ok_0 == x.len()
                &&& final(output)@.take(x.len() as int) == x
            } else {
                &&& final(output)@ == x.take(old(output)@.len() as int)
                &&& x.len() <= usize::MAX ==> r == Err::<usize, CompressError>(
                    CompressError::BufferTooSmall { needed: x.len() as usize },
                )
                &&& x.len() > usize::MAX ==> r is Err && r->Err_0 is Internal
            },
            None => r is Err && r->Err_0 is Internal,
        },
{
    let ghost start = reader.pending();
    let cap = output.len();
    let mut total: usize = 0;
    while total < cap
        invariant
            start == old(reader).pending(),
            !reader.spent(),
            cap == output@.len(),
            total <= cap,
            output@.len() == old(output)@.len(),
            match start {
                Some(x) => {
                    &&& total <= x.len()
                    &&& reader.pending() == Some(x.skip(total as int))
                    &&& output@.take(total as int) == x.take(total as int)
                },
                None => reader.pending() is None,
            },
        decreases cap - total,
    {
        let ghost prev = output@;
        let got = reader.read_into(output, total);
        match got {
            Ok(0) => {
                proof {
                    if let Some(x) = start {
                        assert(x.skip(total as int).len() == 0);
                        assert(output@.take(total as int) =~= x);
                    }
                }
                return Ok(total);
            },
            Ok(n) => {
                proof {
                    if let Some(x) = start {
                        let rest = x.skip(total as int);
                        assert(output@.subrange(total as int, total + n) == rest.take(n as int));
                        assert(output@.take(total as int) == prev.take(total as int));
                        assert forall|i: int| 0 <= i < total + n implies output@[i] == x[i] by {
                            if i < total {
                                assert(output@.take(total as int)[i] == x.take(total as int)[i]);
                            } else {
                                assert(output@.subrange(total as int, total + n)[i - total]
                                    == rest.take(n as int)[i - total]);
                            }
                        }
                        assert(output@.take((total + n) as int) =~= x.take((total + n) as int));
                        assert(rest.skip(n as int) =~= x.skip(total + n));
                    }
                }
                total = total + n;
            },
            Err(e) => {
                return Err(CompressError::Internal(e));
            },
        }
    }
    proof {
        assert(output@ =~= output@.take(cap as int));
    }
    // The output is full: count what is left without keeping it.
    let mut scratch: Vec<u8> = vec![0u8; SCRATCH_LEN];
    let mut extra: usize = 0;
    loop
        invariant
            start == old(reader).pending(),
            !reader.spent(),
            cap == output@.len(),
            cap == old(output)@.len(),
            total == cap,
            extra <= usize::MAX - cap,
            scratch@.len() == SCRATCH_LEN,
            match start {
                Some(x) => {
                    &&& cap + extra <= x.len()
                    &&& reader.pending() == Some(x.skip(cap + extra))
                    &&& output@ == x.take(cap as int)
                },
                None => reader.pending() is None,
            },
        decreases usize::MAX - cap - extra,
    {
        let got = reader.read_into(scratch.as_mut_slice(), 0);
        match got {
            Ok(0) => {
                proof {
                    if let Some(x) = start {
                        assert(x.skip(cap + extra).len() == 0);
                        if extra == 0 {
                            assert(output@.take(cap as int) =~= x);
                        }
                    }
                }
                if extra == 0 {
                    return Ok(total);
                }
                return Err(CompressError::BufferTooSmall { needed: cap + extra });
            },
            Ok(n) => {
                if n > usize::MAX - cap - extra {
                    return Err(CompressError::Internal("content longer than usize::MAX".to_owned()));
                }
                proof {
                    if let Some(x) = start {
                        assert(x.skip(cap + extra).skip(n as int) =~= x.skip(cap + extra + n));
                    }
                }
                extra = extra + n;
            },
            Err(e) => {
                return Err(CompressError::Internal(e));
            },
        }
    }
}

} // verus!
