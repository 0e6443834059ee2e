//! A uniform gateway over several byte codecs: one algorithm tag, one level,
//! caller-owned input and output buffers, and stable numeric result codes.

pub mod error;
pub mod algo;
pub mod codecs;
pub mod stream;
pub mod compress;
pub mod gateway;
