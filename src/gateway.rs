//! The boundary operations on plain values: argument checks in a fixed
//! order, then the registry, the normalizer and a codec adapter, with every
//! outcome reduced to a stable code and an optional byte count.
use vstd::prelude::*;

use crate::algo::{algo_of_tag, normalize, CompressionAlgo};
use crate::compress::{
    compress, compress_post, decompress, decompress_post, estimate_bound, estimate_fits,
    estimate_in_range, estimate_max_output_size,
};
use crate::error::{CompressError, INVALID_ARGUMENT, SUCCESS};

verus! {

/// A boundary result: the code, and the count written back to the caller
/// (the bytes written on success, the bytes needed on a capacity failure).
#[derive(Debug, Clone, Copy, PartialEq, Eq, Structural)]
pub struct NativeResult {
    pub code: i32,
    pub out_len: Option<usize>,
}

/// The boundary form of an operation's result.
pub open spec fn native_of(r: Result<usize, CompressError>) -> NativeResult {
    match r {
        Ok(n) => NativeResult { code: SUCCESS, out_len: Some(n) },
        Err(e) => NativeResult { code: e.spec_code(), out_len: e.spec_needed() },
    }
}

fn to_native(r: Result<usize, CompressError>) -> (n: NativeResult)
    ensures
        n == native_of(r),
{
    match r {
        Ok(n) => NativeResult { code: SUCCESS, out_len: Some(n) },
        Err(e) => NativeResult { code: e.to_code(), out_len: e.needed_size() },
    }
}

/// The liveness check.
pub fn native_ping() -> (r: i32)
    ensures
        r == 1,
{
    1
}

/// Compresses at the boundary. `regions_present` says whether the caller
/// gave all three memory regions; their absence is reported before the tag
/// is looked at, and an unknown tag before any codec runs.
pub fn compress_native_inner(
    algo: u8,
    level: i32,
    regions_present: bool,
    input: &[u8],
    output: &mut [u8],
) -> (r: NativeResult)
    ensures
        final(output)@.len() == old(output)@.len(),
        !regions_present || algo_of_tag(algo) is None ==> final(output)@ == old(output)@,
        !regions_present ==> r == (NativeResult { code: INVALID_ARGUMENT, out_len: None }),
        regions_present && algo_of_tag(algo) is None ==> r == native_of(
            Err(CompressError::AlgoNotFound(algo)),
        ),
        regions_present && algo_of_tag(algo) is Some ==> exists|res: Result<usize, CompressError>|
            {
                let a = algo_of_tag(algo)->0;
                &&& compress_post(
                    a,
                    normalize(a, level),
                    input@,
                    old(output)@,
                    final(output)@,
                    res,
                )
                &&& r == #[trigger] native_of(res)
            },
{
    if !regions_present {
        return NativeResult { code: INVALID_ARGUMENT, out_len: None };
    }
    let compression_algo = match CompressionAlgo::try_from(algo) {
        Ok(a) => a,
        Err(e) => {
            return to_native(Err(e));
        },
    };
    let res = compress(compression_algo, level, input, output);
    to_native(res)
}

/// Decompresses at the boundary, with the same order of checks as
/// `compress_native_inner`.
pub fn decompress_native_inner(
    algo: u8,
    regions_present: bool,
    input: &[u8],
    output: &mut [u8],
) -> (r: NativeResult)
    ensures
        final(output)@.len() == old(output)@.len(),
        !regions_present || algo_of_tag(algo) is None ==> final(output)@ == old(output)@,
        !regions_present ==> r == (NativeResult { code: INVALID_ARGUMENT, out_len: None }),
        regions_present && algo_of_tag(algo) is None ==> r == native_of(
            Err(CompressError::AlgoNotFound(algo)),
        ),
        regions_present && algo_of_tag(algo) is Some ==> exists|
            res: Result<usize, CompressError>,
        |
            {
                &&& decompress_post(
                    algo_of_tag(algo)->0,
                    input@,
                    old(output)@.len() as int,
                    final(output)@,
                    res,
                )
                &&& r == #[trigger] native_of(res)
            },
{
    if !regions_present {
        return NativeResult { code: INVALID_ARGUMENT, out_len: None };
    }
    let compression_algo = match CompressionAlgo::try_from(algo) {
        Ok(a) => a,
        Err(e) => {
            return to_native(Err(e));
        },
    };
    let res = decompress(compression_algo, input, output);
    to_native(res)
}

/// The estimate at the boundary: 0 for an unknown tag and for a length whose
/// estimate does not fit in a `usize`, as the result has no room for a code.
pub fn estimate_native_inner(algo: u8, level: i32, in_len: usize) -> (r: usize)
    ensures
        r == match algo_of_tag(algo) {
            None => 0,
            Some(a) => if estimate_in_range(a, in_len as nat) {
                estimate_bound(a, in_len as nat)
            } else {
                0
            },
        },
{
    match CompressionAlgo::try_from(algo) {
        Ok(a) => {
            if estimate_fits(a, in_len) {
                estimate_max_output_size(a, level, in_len)
            } else {
                0
            }
        },
        Err(_) => 0,
    }
}

} // verus!
