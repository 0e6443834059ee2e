use std::io::Read;

use native_compress::algo::CompressionAlgo;
use native_compress::compress::{compress, decompress, estimate_max_output_size};
use native_compress::error::{CompressError, BUFFER_TOO_SMALL, INTERNAL_ERROR};

fn make_test_data() -> Vec<u8> {
    "Hello world! ".repeat(100).into_bytes()
}

#[test]
fn lz4_roundtrip() {
    let input = make_test_data();
    let max = lz4_flex::block::get_maximum_output_size(input.len());
    let mut compressed = vec![0u8; max];
    let n = compress(CompressionAlgo::Lz4, -1, &input, &mut compressed).unwrap();
    let decompressed = lz4_flex::block::decompress(&compressed[..n], input.len()).unwrap();
    assert_eq!(input, decompressed);
}

#[test]
fn snappy_roundtrip() {
    let input = make_test_data();
    let max = snap::raw::max_compress_len(input.len());
    let mut compressed = vec![0u8; max];
    let n = compress(CompressionAlgo::Snappy, -1, &input, &mut compressed).unwrap();
    let decompressed = snap::raw::Decoder::new()
        .decompress_vec(&compressed[..n])
        .unwrap();
    assert_eq!(input, decompressed);
}

#[test]
fn gzip_roundtrip() {
    let input = make_test_data();
    let max = estimate_max_output_size(CompressionAlgo::Gzip, 6, input.len());
    let mut compressed = vec![0u8; max];
    let n = compress(CompressionAlgo::Gzip, 6, &input, &mut compressed).unwrap();
    let mut decoder = flate2::read::GzDecoder::new(&compressed[..n]);
    let mut decompressed = Vec::new();
    decoder.read_to_end(&mut decompressed).unwrap();
    assert_eq!(input, decompressed);
}

#[test]
fn deflate_roundtrip() {
    let input = make_test_data();
    let max = estimate_max_output_size(CompressionAlgo::Deflate, 6, input.len());
    let mut compressed = vec![0u8; max];
    let n = compress(CompressionAlgo::Deflate, 6, &input, &mut compressed).unwrap();
    let mut decoder = flate2::read::DeflateDecoder::new(&compressed[..n]);
    let mut decompressed = Vec::new();
    decoder.read_to_end(&mut decompressed).unwrap();
    assert_eq!(input, decompressed);
}

#[test]
fn buffer_too_small_returns_hint() {
    let input = make_test_data();
    let mut tiny = [0u8; 4];
    let err = compress(CompressionAlgo::Lz4, -1, &input, &mut tiny).unwrap_err();
    match err {
        CompressError::BufferTooSmall { needed } => assert!(needed > 4),
        other => panic!("expected BufferTooSmall, got: {other:?}"),
    }
}

#[test]
fn algo_not_found() {
    assert!(CompressionAlgo::try_from(255u8).is_err());
}

#[test]
fn lzf_roundtrip() {
    let input = make_test_data();
    let max = estimate_max_output_size(CompressionAlgo::Lzf, 0, input.len());
    let mut compressed = vec![0u8; max];
    let n = compress(CompressionAlgo::Lzf, 0, &input, &mut compressed).unwrap();
    assert!(n > 0);
    let mut decompressed = vec![0u8; input.len()];
    let m = decompress(CompressionAlgo::Lzf, &compressed[..n], &mut decompressed).unwrap();
    assert_eq!(m, input.len());
    assert_eq!(&decompressed[..m], &input[..]);
}

#[test]
fn lzf_single_byte_roundtrip() {
    let input = vec![42u8];
    let max = estimate_max_output_size(CompressionAlgo::Lzf, 0, input.len());
    let mut compressed = vec![0u8; max];
    let n = compress(CompressionAlgo::Lzf, 0, &input, &mut compressed).unwrap();
    assert!(n > 0);
    let mut decompressed = vec![0u8; input.len()];
    let m = decompress(CompressionAlgo::Lzf, &compressed[..n], &mut decompressed).unwrap();
    assert_eq!(m, input.len());
    assert_eq!(&decompressed[..m], &input[..]);
}

#[test]
fn lzf_random_roundtrip() {
    let input: Vec<u8> = (0..1024).map(|i| ((i * 37 + 13) % 256) as u8).collect();
    let max = estimate_max_output_size(CompressionAlgo::Lzf, 0, input.len());
    let mut compressed = vec![0u8; max];
    let n = compress(CompressionAlgo::Lzf, 0, &input, &mut compressed).unwrap();
    assert!(n > 0);
    let mut decompressed = vec![0u8; input.len()];
    let m = decompress(CompressionAlgo::Lzf, &compressed[..n], &mut decompressed).unwrap();
    assert_eq!(m, input.len());
    assert_eq!(&decompressed[..m], &input[..]);
}

#[test]
fn lz4_decompress_roundtrip() {
    let input = make_test_data();
    let max = lz4_flex::block::get_maximum_output_size(input.len());
    let mut compressed = vec![0u8; max];
    let n = compress(CompressionAlgo::Lz4, -1, &input, &mut compressed).unwrap();
    let mut decompressed = vec![0u8; input.len()];
    let m = decompress(CompressionAlgo::Lz4, &compressed[..n], &mut decompressed).unwrap();
    assert_eq!(m, input.len());
    assert_eq!(&decompressed[..m], &input[..]);
}

#[test]
fn snappy_decompress_roundtrip() {
    let input = make_test_data();
    let max = snap::raw::max_compress_len(input.len());
    let mut compressed = vec![0u8; max];
    let n = compress(CompressionAlgo::Snappy, -1, &input, &mut compressed).unwrap();
    let mut decompressed = vec![0u8; input.len()];
    let m = decompress(CompressionAlgo::Snappy, &compressed[..n], &mut decompressed).unwrap();
    assert_eq!(m, input.len());
    assert_eq!(&decompressed[..m], &input[..]);
}

#[test]
fn gzip_decompress_roundtrip() {
    let input = make_test_data();
    let max = estimate_max_output_size(CompressionAlgo::Gzip, 6, input.len());
    let mut compressed = vec![0u8; max];
    let n = compress(CompressionAlgo::Gzip, 6, &input, &mut compressed).unwrap();
    let mut decompressed = vec![0u8; input.len()];
    let m = decompress(CompressionAlgo::Gzip, &compressed[..n], &mut decompressed).unwrap();
    assert_eq!(m, input.len());
    assert_eq!(&decompressed[..m], &input[..]);
}

#[test]
fn deflate_decompress_roundtrip() {
    let input = make_test_data();
    let max = estimate_max_output_size(CompressionAlgo::Deflate, 6, input.len());
    let mut compressed = vec![0u8; max];
    let n = compress(CompressionAlgo::Deflate, 6, &input, &mut compressed).unwrap();
    let mut decompressed = vec![0u8; input.len()];
    let m = decompress(
        CompressionAlgo::Deflate,
        &compressed[..n],
        &mut decompressed,
    )
    .unwrap();
    assert_eq!(m, input.len());
    assert_eq!(&decompressed[..m], &input[..]);
}

#[test]
fn lzma2_roundtrip() {
    let input = make_test_data();
    let max = estimate_max_output_size(CompressionAlgo::Lzma2, 6, input.len());
    let mut compressed = vec![0u8; max];
    let n = compress(CompressionAlgo::Lzma2, 6, &input, &mut compressed).unwrap();
    assert!(n > 0);
    let mut decompressed = vec![0u8; input.len()];
    let m = decompress(CompressionAlgo::Lzma2, &compressed[..n], &mut decompressed).unwrap();
    assert_eq!(m, input.len());
    assert_eq!(&decompressed[..m], &input[..]);
}

#[test]
fn bzip2_roundtrip() {
    let input = make_test_data();
    let max = estimate_max_output_size(CompressionAlgo::Bzip2, 6, input.len());
    let mut compressed = vec![0u8; max];
    let n = compress(CompressionAlgo::Bzip2, 6, &input, &mut compressed).unwrap();
    assert!(n < input.len());
    let mut decompressed = vec![0u8; input.len()];
    let m = decompress(CompressionAlgo::Bzip2, &compressed[..n], &mut decompressed).unwrap();
    assert_eq!(m, input.len());
    assert_eq!(&decompressed[..m], &input[..]);
}

#[test]
fn brotli_roundtrip() {
    let input = make_test_data();
    let max = estimate_max_output_size(CompressionAlgo::Brotli, 6, input.len());
    let mut compressed = vec![0u8; max];
    let n = compress(CompressionAlgo::Brotli, 6, &input, &mut compressed).unwrap();
    assert!(n < input.len());
    let mut decompressed = vec![0u8; input.len()];
    let m = decompress(CompressionAlgo::Brotli, &compressed[..n], &mut decompressed).unwrap();
    assert_eq!(m, input.len());
    assert_eq!(&decompressed[..m], &input[..]);
}

#[test]
fn zstd_roundtrip() {
    let input = make_test_data();
    let max = estimate_max_output_size(CompressionAlgo::Zstd, 3, input.len());
    let mut compressed = vec![0u8; max];
    let n = compress(CompressionAlgo::Zstd, 3, &input, &mut compressed).unwrap();
    assert!(n < input.len());
    let mut decompressed = vec![0u8; input.len()];
    let m = decompress(CompressionAlgo::Zstd, &compressed[..n], &mut decompressed).unwrap();
    assert_eq!(m, input.len());
    assert_eq!(&decompressed[..m], &input[..]);
}

#[test]
fn decompress_buffer_too_small() {
    let input = make_test_data();
    let max = lz4_flex::block::get_maximum_output_size(input.len());
    let mut compressed = vec![0u8; max];
    let n = compress(CompressionAlgo::Lz4, -1, &input, &mut compressed).unwrap();
    let mut tiny = vec![0u8; 4];
    let err = decompress(CompressionAlgo::Lz4, &compressed[..n], &mut tiny).unwrap_err();
    // LZ4 decompress with too-small output should fail
    assert!(
        err.to_code() == INTERNAL_ERROR
            || err.to_code() == BUFFER_TOO_SMALL
    );
}
