use vstd::prelude::*;

verus! {

/// The operation succeeded; the written byte count is valid.
pub const SUCCESS: i32 = 0;

/// The output region was too small; the needed size is reported beside it.
pub const BUFFER_TOO_SMALL: i32 = -1;

/// The algorithm tag is not one of the known codecs.
pub const ALGO_NOT_FOUND: i32 = -2;

/// A required memory region was absent.
pub const INVALID_ARGUMENT: i32 = -3;

/// Any other failure: corrupt input or an error inside a codec.
pub const INTERNAL_ERROR: i32 = -50;

/// An internal fault was caught at the boundary.
pub const PANIC_CAUGHT: i32 = -99;

/// The closed set of failures an operation can report.
#[derive(Debug)]
pub enum CompressError {
    BufferTooSmall { needed: usize },
    AlgoNotFound(u8),
    InvalidArgument(String),
    Internal(String),
}

impl CompressError {
    /// The permanent numeric code of each failure kind.
    pub open spec fn spec_code(&self) -> i32 {
        match self {
            CompressError::BufferTooSmall { .. } => BUFFER_TOO_SMALL,
            CompressError::AlgoNotFound(_) => ALGO_NOT_FOUND,
            CompressError::InvalidArgument(_) => INVALID_ARGUMENT,
            CompressError::Internal(_) => INTERNAL_ERROR,
        }
    }

    /// The size hint, carried by capacity failures alone.
    pub open spec fn spec_needed(&self) -> Option<usize> {
        match self {
            CompressError::BufferTooSmall { needed } => Some(*needed),
            _ => None,
        }
    }

    pub fn to_code(&self) -> (r: i32)
        ensures
            r == self.spec_code(),
            r != SUCCESS,
    {
        match self {
            CompressError::BufferTooSmall { .. } => BUFFER_TOO_SMALL,
            CompressError::AlgoNotFound(_) => ALGO_NOT_FOUND,
            CompressError::InvalidArgument(_) => INVALID_ARGUMENT,
            CompressError::Internal(_) => INTERNAL_ERROR,
        }
    }

    pub fn needed_size(&self) -> (r: Option<usize>)
        ensures
            r == self.spec_needed(),
    {
        match self {
            CompressError::BufferTooSmall { needed } => Some(*needed),
            _ => None,
        }
    }
}

} // verus!
