//! Tests for the per-context state and the boundary protocol around it.

use gzip_codec::CompressionOptions;
use gzip_codec::DecodeError;
use gzip_codec::LocalState;
use gzip_codec::options::FIXED_HUFFMAN_CODES;
use gzip_codec::options::NO_COMPRESSION;

fn compress_fresh(data: &[u8], options: CompressionOptions) -> Vec<u8> {
    let mut state = LocalState::new();
    state.gzip_compress(data, options);
    state.buffer().clone()
}

#[test]
fn compress_fills_buffer_and_returns_length() {
    let mut state = LocalState::new();
    let data = b"some bytes worth framing";
    let n = state.gzip_compress(data, CompressionOptions::empty());
    assert_eq!(n, state.buffer().len());
    assert!(n >= 18);
    assert_eq!(state.buffer()[0], 0x1f);
    assert_eq!(state.buffer()[1], 0x8b);
}

#[test]
fn compress_then_decompress_round_trips() {
    let mut state = LocalState::new();
    let data = b"round trip through the scratch buffer";
    state.gzip_compress(data, CompressionOptions::empty());
    let compressed = state.buffer().clone();
    let n = state.gzip_decompress(&compressed, false).expect("valid gzip");
    assert_eq!(n, data.len());
    assert_eq!(state.buffer().as_slice(), data);
}

#[test]
fn no_compression_output_is_at_least_input() {
    let mut state = LocalState::new();
    let data: Vec<u8> = (0..=255u8).cycle().take(1000).collect();
    let options = CompressionOptions { no_compression: true, fixed_huffman_codes: false };
    let n = state.gzip_compress(&data, options);
    assert!(n >= data.len() + 18);
    let compressed = state.buffer().clone();
    state.gzip_decompress(&compressed, false).expect("valid gzip");
    assert_eq!(state.buffer().as_slice(), data.as_slice());
}

#[test]
fn fixed_huffman_round_trips() {
    let data = b"fixed huffman codes still decode to the same bytes";
    let options = CompressionOptions { no_compression: false, fixed_huffman_codes: true };
    let compressed = compress_fresh(data, options);
    let mut state = LocalState::new();
    state.gzip_decompress(&compressed, false).expect("valid gzip");
    assert_eq!(state.buffer().as_slice(), data);
}

#[test]
fn both_flags_round_trip() {
    let data = b"stored blocks win when both flags are set";
    let options = CompressionOptions { no_compression: true, fixed_huffman_codes: true };
    let compressed = compress_fresh(data, options);
    assert!(compressed.len() >= data.len() + 18);
    let mut state = LocalState::new();
    state.gzip_decompress(&compressed, false).expect("valid gzip");
    assert_eq!(state.buffer().as_slice(), data);
}

#[test]
fn multi_member_concatenates_payloads() {
    let first = b"first member, ".to_vec();
    let second = b"second member".to_vec();
    let mut stream = compress_fresh(&first, CompressionOptions::empty());
    stream.extend_from_slice(&compress_fresh(&second, CompressionOptions::empty()));

    let mut state = LocalState::new();
    let n = state.gzip_decompress(&stream, true).expect("valid multi-member gzip");
    let mut expected = first.clone();
    expected.extend_from_slice(&second);
    assert_eq!(n, expected.len());
    assert_eq!(state.buffer().as_slice(), expected.as_slice());
}

#[test]
fn single_member_decode_stops_at_first_member() {
    let first = b"only this comes back".to_vec();
    let second = b"never this".to_vec();
    let mut stream = compress_fresh(&first, CompressionOptions::empty());
    stream.extend_from_slice(&compress_fresh(&second, CompressionOptions::empty()));

    let mut state = LocalState::new();
    let n = state.gzip_decompress(&stream, false).expect("valid gzip");
    assert_eq!(n, first.len());
    assert_eq!(state.buffer().as_slice(), first.as_slice());
}

#[test]
fn truncation_is_a_body_failure() {
    let compressed = compress_fresh(b"about to lose a trailer byte", CompressionOptions::empty());
    let truncated = &compressed[..compressed.len() - 1];

    let mut state = LocalState::new();
    let err = state.gzip_decompress(truncated, false).expect_err("truncated gzip");
    assert_eq!(err, DecodeError::InvalidBody);
    assert_eq!(state.error_message(), "invalid body");
    assert_eq!(state.error_message_len(), "invalid body".len());
    assert!(state.error_message_len() > 0);
    assert_eq!(state.buffer().len(), 0);

    let mut multi = LocalState::new();
    let err = multi.gzip_decompress(truncated, true).expect_err("truncated gzip");
    assert_eq!(err, DecodeError::InvalidBody);
}

#[test]
fn corrupt_magic_is_a_header_failure() {
    let mut compressed = compress_fresh(b"about to lose the magic pair", CompressionOptions::empty());
    compressed[0] = 0x00;
    compressed[1] = 0x00;

    let mut state = LocalState::new();
    let err = state.gzip_decompress(&compressed, false).expect_err("corrupt header");
    assert_eq!(err, DecodeError::InvalidHeader);
    assert_eq!(state.error_message(), "invalid header");
    assert_eq!(state.error_message_len(), "invalid header".len());
}

#[test]
fn short_input_is_a_header_failure() {
    let mut state = LocalState::new();
    let err = state.gzip_decompress(&[0x1f, 0x8b, 0x08], false).expect_err("too short");
    assert_eq!(err, DecodeError::InvalidHeader);
    let err = state.gzip_decompress(&[], true).expect_err("empty");
    assert_eq!(err, DecodeError::InvalidHeader);
}

#[test]
fn malformed_second_member_is_a_body_failure() {
    let mut stream = compress_fresh(b"good member", CompressionOptions::empty());
    stream.extend_from_slice(&[0x00; 16]);

    let mut state = LocalState::new();
    let err = state.gzip_decompress(&stream, true).expect_err("bad second member");
    assert_eq!(err, DecodeError::InvalidBody);
}

#[test]
fn buffer_reuse_leaks_nothing_between_calls() {
    let first: Vec<u8> = (0..200u8).collect();
    let second = b"a much shorter second input".to_vec();

    let mut reused = LocalState::new();
    reused.gzip_compress(&first, CompressionOptions::empty());
    let n = reused.gzip_compress(&second, CompressionOptions::empty());
    let from_reused = reused.buffer().clone();

    let from_fresh = compress_fresh(&second, CompressionOptions::empty());
    assert_eq!(n, from_fresh.len());
    assert_eq!(from_reused, from_fresh);
}

#[test]
fn error_slot_keeps_the_last_failure() {
    let mut state = LocalState::new();
    state.gzip_decompress(b"definitely not gzip", false).expect_err("garbage");
    assert_eq!(state.error_message(), "invalid header");

    state.gzip_compress(b"a later success", CompressionOptions::empty());
    assert_eq!(state.error_message(), "invalid header");
}

#[test]
fn deallocate_buffer_resets_both_slots() {
    let mut state = LocalState::new();
    state.gzip_compress(b"fill the buffer", CompressionOptions::empty());
    state.gzip_decompress(b"not gzip", false).expect_err("garbage");
    state.deallocate_buffer();
    assert_eq!(state.buffer().len(), 0);
    assert_eq!(state.error_message(), "");
    assert_eq!(state.error_message_len(), 0);
}

#[test]
fn fresh_state_is_empty() {
    let state = LocalState::new();
    assert_eq!(state.buffer().len(), 0);
    assert_eq!(state.error_message(), "");
    assert_eq!(state.error_message_len(), 0);
}

#[test]
fn options_from_bits() {
    let none = CompressionOptions::from_bits(0);
    assert!(!none.no_compression);
    assert!(!none.fixed_huffman_codes);
    assert_eq!(none, CompressionOptions::empty());

    let stored = CompressionOptions::from_bits(NO_COMPRESSION);
    assert!(stored.no_compression);
    assert!(!stored.fixed_huffman_codes);

    let fixed = CompressionOptions::from_bits(FIXED_HUFFMAN_CODES);
    assert!(!fixed.no_compression);
    assert!(fixed.fixed_huffman_codes);

    let both = CompressionOptions::from_bits(NO_COMPRESSION | FIXED_HUFFMAN_CODES);
    assert!(both.no_compression);
    assert!(both.fixed_huffman_codes);
}
