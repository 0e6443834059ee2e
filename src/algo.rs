use vstd::prelude::*;

use crate::error::CompressError;

verus! {

/// The supported codecs. Each one is bound for good to a small integer tag
/// (see `tag_of`); a tag is never reused for another codec.
#[derive(Debug, Clone, Copy, PartialEq, Eq, Structural)]
pub enum CompressionAlgo {
    Lz4,
    Snappy,
    Zstd,
    Gzip,
    Brotli,
    Lzma2,
    Bzip2,
    Lzf,
    Deflate,
}

/// The permanent tag of each codec.
pub open spec fn tag_of(a: CompressionAlgo) -> u8 {
    match a {
        CompressionAlgo::Lz4 => 1,
        CompressionAlgo::Snappy => 2,
        CompressionAlgo::Zstd => 3,
        CompressionAlgo::Gzip => 4,
        CompressionAlgo::Brotli => 5,
        CompressionAlgo::Lzma2 => 6,
        CompressionAlgo::Bzip2 => 7,
        CompressionAlgo::Lzf => 8,
        CompressionAlgo::Deflate => 9,
    }
}

/// The codec that a tag names, if any.
pub open spec fn algo_of_tag(t: u8) -> Option<CompressionAlgo> {
    match t {
        1 => Some(CompressionAlgo::Lz4),
        2 => Some(CompressionAlgo::Snappy),
        3 => Some(CompressionAlgo::Zstd),
        4 => Some(CompressionAlgo::Gzip),
        5 => Some(CompressionAlgo::Brotli),
        6 => Some(CompressionAlgo::Lzma2),
        7 => Some(CompressionAlgo::Bzip2),
        8 => Some(CompressionAlgo::Lzf),
        9 => Some(CompressionAlgo::Deflate),
        _ => None,
    }
}

/// Every codec's tag resolves back to it, and a tag that resolves names the
/// codec that carries it: the registry is a bijection between the codecs and
/// the tags 1 to 9.
pub proof fn lemma_tags_are_a_bijection(a: CompressionAlgo, t: u8)
    ensures
        algo_of_tag(tag_of(a)) == Some(a),
        algo_of_tag(t) == Some(a) <==> tag_of(a) == t,
        algo_of_tag(t) is None <==> (t == 0 || t > 9),
{
}

impl CompressionAlgo {
    /// Resolves a tag; an unknown tag is `AlgoNotFound` carrying the tag.
    pub fn try_from(value: u8) -> (r: Result<CompressionAlgo, CompressError>)
        ensures
            match r {
                Ok(a) => algo_of_tag(value) == Some(a),
                Err(e) => algo_of_tag(value) is None && e == CompressError::AlgoNotFound(value),
            },
    {
        match value {
            1 => Ok(CompressionAlgo::Lz4),
            2 => Ok(CompressionAlgo::Snappy),
            3 => Ok(CompressionAlgo::Zstd),
            4 => Ok(CompressionAlgo::Gzip),
            5 => Ok(CompressionAlgo::Brotli),
            6 => Ok(CompressionAlgo::Lzma2),
            7 => Ok(CompressionAlgo::Bzip2),
            8 => Ok(CompressionAlgo::Lzf),
            9 => Ok(CompressionAlgo::Deflate),
            _ => Err(CompressError::AlgoNotFound(value)),
        }
    }
}

/// The level policy of a codec with a tunable level: the default taken for a
/// request of zero or less, and the inclusive range of valid levels.
pub struct LevelRange {
    pub default: i32,
    pub min: i32,
    pub max: i32,
}

/// `None` for the codecs without a level knob.
pub open spec fn level_range(a: CompressionAlgo) -> Option<LevelRange> {
    match a {
        CompressionAlgo::Lz4 | CompressionAlgo::Snappy | CompressionAlgo::Lzf => None,
        CompressionAlgo::Zstd => Some(LevelRange { default: 3, min: 1, max: 22 }),
        CompressionAlgo::Brotli => Some(LevelRange { default: 6, min: 1, max: 11 }),
        CompressionAlgo::Gzip | CompressionAlgo::Deflate | CompressionAlgo::Lzma2
        | CompressionAlgo::Bzip2 => Some(LevelRange { default: 6, min: 1, max: 9 }),
    }
}

/// The fixed level of the codecs without a knob.
pub const FIXED_LEVEL: i32 = 0;

/// The effective level for a requested one.
pub open spec fn normalize(a: CompressionAlgo, level: i32) -> i32 {
    match level_range(a) {
        None => FIXED_LEVEL,
        Some(r) => if level <= 0 {
            r.default
        } else if level < r.min {
            r.min
        } else if level > r.max {
            r.max
        } else {
            level
        },
    }
}

/// Normalizing an effective level gives it back unchanged.
pub proof fn lemma_normalize_idempotent(a: CompressionAlgo, level: i32)
    ensures
        normalize(a, normalize(a, level)) == normalize(a, level),
{
}

/// Every effective level lies in its codec's range.
pub proof fn lemma_normalize_in_range(a: CompressionAlgo, level: i32)
    ensures
        match level_range(a) {
            None => normalize(a, level) == FIXED_LEVEL,
            Some(r) => r.min <= normalize(a, level) <= r.max,
        },
{
}

fn clamp_into(level: i32, default: i32, min: i32, max: i32) -> (r: i32)
    ensures
        r == (if level <= 0 {
            default
        } else if level < min {
            min
        } else if level > max {
            max
        } else {
            level
        }),
{
    if level <= 0 {
        default
    } else if level < min {
        min
    } else if level > max {
        max
    } else {
        level
    }
}

/// Returns the effective level of `algo` for a requested `level`.
pub fn clamp_level(algo: CompressionAlgo, level: i32) -> (r: i32)
    ensures
        r == normalize(algo, level),
{
    match algo {
        // lz4_flex has no level control: always its fast mode.
        CompressionAlgo::Lz4 => FIXED_LEVEL,
        CompressionAlgo::Snappy => FIXED_LEVEL,
        CompressionAlgo::Zstd => clamp_into(level, 3, 1, 22),
        // flate2 level 0 would store without compressing.
        CompressionAlgo::Gzip => clamp_into(level, 6, 1, 9),
        CompressionAlgo::Brotli => clamp_into(level, 6, 1, 11),
        CompressionAlgo::Lzma2 => clamp_into(level, 6, 1, 9),
        // bzip2's level is its block size in units of 100 kB.
        CompressionAlgo::Bzip2 => clamp_into(level, 6, 1, 9),
        CompressionAlgo::Lzf => FIXED_LEVEL,
        CompressionAlgo::Deflate => clamp_into(level, 6, 1, 9),
    }
}

} // verus!
