use native_compress::error::{ALGO_NOT_FOUND, INTERNAL_ERROR, INVALID_ARGUMENT, SUCCESS};
use native_compress::gateway::{
    compress_native_inner, decompress_native_inner, estimate_native_inner, native_ping,
};

#[test]
fn ping_returns_one() {
    assert_eq!(native_ping(), 1);
}

#[test]
fn compress_null_ptr_returns_invalid_argument() {
    let mut out = [0u8; 64];

    // absent input region
    let result = compress_native_inner(1, -1, false, &[], &mut out);
    assert_eq!(result.code, INVALID_ARGUMENT);

    // absent output region
    let input = b"hello";
    let result = compress_native_inner(1, -1, false, input, &mut []);
    assert_eq!(result.code, INVALID_ARGUMENT);

    // absent length slot
    let result = compress_native_inner(1, -1, false, input, &mut out);
    assert_eq!(result.code, INVALID_ARGUMENT);
}

#[test]
fn compress_unknown_algo_returns_algo_not_found() {
    let input = b"hello";
    let mut out = [0u8; 64];
    let result = compress_native_inner(255, -1, true, input, &mut out);
    assert_eq!(result.code, ALGO_NOT_FOUND);
}

#[test]
fn estimate_unknown_algo_returns_zero() {
    assert_eq!(estimate_native_inner(255, -1, 1000), 0);
}

#[test]
fn decompress_null_ptr_returns_invalid_argument() {
    let mut out = [0u8; 64];
    let result = decompress_native_inner(1, false, &[], &mut out);
    assert_eq!(result.code, INVALID_ARGUMENT);
}

#[test]
fn decompress_unknown_algo_returns_algo_not_found() {
    let input = b"hello";
    let mut out = [0u8; 64];
    let result = decompress_native_inner(255, true, input, &mut out);
    assert_eq!(result.code, ALGO_NOT_FOUND);
}

#[test]
fn decompress_invalid_data_returns_error() {
    let input = b"hello";
    let mut out = [0u8; 64];
    let result = decompress_native_inner(1, true, input, &mut out);
    assert_eq!(result.code, INTERNAL_ERROR);
}

#[test]
fn absent_region_wins_over_unknown_algo() {
    let mut out = [0u8; 64];
    let result = compress_native_inner(255, -1, false, b"hello", &mut out);
    assert_eq!(result.code, INVALID_ARGUMENT);
    assert_eq!(result.out_len, None);
    let result = decompress_native_inner(255, false, b"hello", &mut out);
    assert_eq!(result.code, INVALID_ARGUMENT);
}

#[test]
fn gateway_success_reports_written_count() {
    let input = "Hello world! ".repeat(100).into_bytes();
    let cap = estimate_native_inner(1, -1, input.len());
    assert_eq!(cap, 20 + 1300 * 110 / 100);
    let mut out = vec![0u8; cap];
    let result = compress_native_inner(1, -1, true, &input, &mut out);
    assert_eq!(result.code, SUCCESS);
    let n = result.out_len.unwrap();
    assert!(n < 1300);
    let mut back = vec![0u8; input.len()];
    let result = decompress_native_inner(1, true, &out[..n], &mut back);
    assert_eq!(result.code, SUCCESS);
    assert_eq!(result.out_len, Some(1300));
    assert_eq!(back, input);
}

#[test]
fn gateway_capacity_failure_reports_needed() {
    let input = "Hello world! ".repeat(100).into_bytes();
    let mut out = [0u8; 4];
    let result = compress_native_inner(1, -1, true, &input, &mut out);
    assert_eq!(result.code, -1);
    assert_eq!(result.out_len, Some(20 + 1300 * 110 / 100));
}

#[test]
fn estimate_values_per_algo() {
    assert_eq!(estimate_native_inner(1, 0, 1000), 1120);
    assert_eq!(estimate_native_inner(2, 0, 1000), 32 + 1000 + 166);
    assert_eq!(estimate_native_inner(4, 6, 1000), 1000 + 125 + 32);
    assert_eq!(estimate_native_inner(9, 6, 1000), 1157);
    assert_eq!(estimate_native_inner(3, 3, 1000), 2064);
    assert_eq!(estimate_native_inner(8, 0, 0), 64);
    assert_eq!(estimate_native_inner(0, 0, 10), 0);
    assert_eq!(estimate_native_inner(10, 0, 10), 0);
    // too large to be estimated in a usize
    assert_eq!(estimate_native_inner(3, 3, usize::MAX), 0);
    assert_eq!(estimate_native_inner(1, 3, usize::MAX), 0);
    // snappy cannot encode this much at all
    assert_eq!(estimate_native_inner(2, 0, 0x1_0000_0000), 0);
}
