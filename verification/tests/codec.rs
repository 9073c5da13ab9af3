//! Sample normalization and canonical PCM byte encoding.

use capture_core::normalize::{
    encode_samples_le, normalize_scaled, normalize_unsigned, sample_le_bytes,
};

#[test]
fn unsigned_endpoints_and_midpoint() {
    assert_eq!(normalize_unsigned(0), -32768);
    assert_eq!(normalize_unsigned(65535), 32767);
    assert_eq!(normalize_unsigned(32768), 0);
}

#[test]
fn unsigned_mapping_is_monotonic() {
    let mut prev = normalize_unsigned(0);
    for s in [1u16, 100, 32767, 32768, 32769, 65000, 65535] {
        let cur = normalize_unsigned(s);
        assert!(prev <= cur);
        prev = cur;
    }
}

#[test]
fn float_normalization_is_monotonic_and_bounded() {
    let samples: [f32; 7] = [-1.0, -0.5, -0.001, 0.0, 0.001, 0.5, 1.0];
    let mut prev: Option<i16> = None;
    for x in samples {
        // scaling by 32767 and truncating is the floating-point step the
        // backend callback performs before handing the value over
        let scaled = (x * 32767.0) as i64;
        let v = normalize_scaled(scaled);
        assert!((-32768..=32767).contains(&(v as i32)));
        if let Some(p) = prev {
            assert!(p <= v);
        }
        prev = Some(v);
    }
    assert_eq!(normalize_scaled((0.0f32 * 32767.0) as i64), 0);
    assert_eq!(normalize_scaled((1.0f32 * 32767.0) as i64), 32767);
    assert_eq!(normalize_scaled((-1.0f32 * 32767.0) as i64), -32767);
    assert_eq!(normalize_scaled((0.5f32 * 32767.0) as i64), 16383);
}

#[test]
fn out_of_range_scaled_samples_clamp() {
    assert_eq!(normalize_scaled(40000), 32767);
    assert_eq!(normalize_scaled(-40000), -32768);
    assert_eq!(normalize_scaled(i64::MAX), 32767);
    assert_eq!(normalize_scaled(i64::MIN), -32768);
    assert_eq!(normalize_scaled(-12), -12);
}

#[test]
fn little_endian_sample_encoding() {
    assert_eq!(sample_le_bytes(0), (0x00, 0x00));
    assert_eq!(sample_le_bytes(1), (0x01, 0x00));
    assert_eq!(sample_le_bytes(-1), (0xFF, 0xFF));
    assert_eq!(sample_le_bytes(-32768), (0x00, 0x80));
    assert_eq!(sample_le_bytes(32767), (0xFF, 0x7F));
    assert_eq!(sample_le_bytes(258), (0x02, 0x01));
}

#[test]
fn sample_encoding_agrees_with_the_standard_library() {
    for s in [0i16, 1, -1, 2, -2, 12345, -12345, 32767, -32768, 258] {
        let (lo, hi) = sample_le_bytes(s);
        let expected = s.to_le_bytes();
        assert_eq!([lo, hi], expected);
    }
}

#[test]
fn buffer_encoding_matches_per_sample_encoding() {
    let samples: Vec<i16> = vec![0, 1, -1, -32768, 32767];
    let bytes = encode_samples_le(&samples);
    assert_eq!(bytes.len(), 10);
    let expected: Vec<u8> = vec![0x00, 0x00, 0x01, 0x00, 0xFF, 0xFF, 0x00, 0x80, 0xFF, 0x7F];
    assert_eq!(bytes, expected);
}
