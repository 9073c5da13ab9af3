//! Chunking behaviour of the input-device capture session.

use capture_core::chunk::ChunkBuffer;
use capture_core::session::{chunk_threshold, InputSession};
use capture_core::types::{NativeFormat, SampleFormat};

fn mono_16k() -> NativeFormat {
    NativeFormat { sample_rate: 16000, channels: 1, format: SampleFormat::Signed16 }
}

#[test]
fn threshold_16k_mono_is_1600_samples() {
    assert_eq!(chunk_threshold(16000, 1), 1600);
}

#[test]
fn threshold_scales_with_channels() {
    assert_eq!(chunk_threshold(44100, 2), 8820);
    assert_eq!(chunk_threshold(48000, 2), 9600);
    assert_eq!(chunk_threshold(8000, 1), 800);
}

#[test]
fn threshold_at_the_largest_format() {
    // floor(4294967295 / 10) * 65535
    assert_eq!(chunk_threshold(u32::MAX, u16::MAX), 429_496_729u64 * 65_535);
    assert_eq!(chunk_threshold(0, 1), 0);
    assert_eq!(chunk_threshold(9, 1), 0);
}

#[test]
fn stereo_chunks_interleave_both_channels() {
    let mut s = InputSession::new(NativeFormat {
        sample_rate: 16000,
        channels: 2,
        format: SampleFormat::Signed16,
    });
    // threshold is 3200 samples: a mono-sized batch completes nothing
    let out = s.on_signed_batch(&vec![1; 1600], true);
    assert_eq!(out.len(), 0);
    let out = s.on_signed_batch(&vec![1; 1600], true);
    assert_eq!(out.len(), 1);
    assert_eq!(out[0].data.len(), 6400);
}

#[test]
fn one_full_chunk_is_3200_bytes() {
    let mut s = InputSession::new(mono_16k());
    let batch: Vec<i16> = vec![7; 1600];
    let out = s.on_signed_batch(&batch, true);
    assert_eq!(out.len(), 1);
    assert_eq!(out[0].data.len(), 3200);
    assert_eq!(out[0].speaker, "local");
}

#[test]
fn no_partial_chunk_is_emitted() {
    let mut s = InputSession::new(mono_16k());
    let batch: Vec<i16> = vec![1; 1599];
    let out = s.on_signed_batch(&batch, true);
    assert_eq!(out.len(), 0);
    let out = s.on_signed_batch(&vec![2], true);
    assert_eq!(out.len(), 1);
    assert_eq!(out[0].data.len(), 3200);
    // the buffer drained: the next short batch completes nothing
    let out = s.on_signed_batch(&vec![3; 1599], true);
    assert_eq!(out.len(), 0);
}

#[test]
fn oversized_batch_yields_exact_chunks() {
    let mut s = InputSession::new(mono_16k());
    let batch: Vec<i16> = vec![0; 3300];
    let out = s.on_signed_batch(&batch, true);
    assert_eq!(out.len(), 2);
    assert_eq!(out[0].data.len(), 3200);
    assert_eq!(out[1].data.len(), 3200);
    // 100 samples stay buffered
    let out = s.on_signed_batch(&vec![0; 1500], true);
    assert_eq!(out.len(), 1);
}

#[test]
fn samples_are_dropped_while_not_capturing() {
    let mut s = InputSession::new(mono_16k());
    let out = s.on_signed_batch(&vec![9; 4800], true);
    assert_eq!(out.len(), 3);
    // flag cleared: nothing is buffered, nothing comes out
    let out = s.on_signed_batch(&vec![9; 5000], false);
    assert_eq!(out.len(), 0);
    // flag set again: the dropped samples left no trace
    let out = s.on_signed_batch(&vec![4; 1600], true);
    assert_eq!(out.len(), 1);
    assert_eq!(out[0].data[0], 4);
    assert_eq!(out[0].data[1], 0);
}

#[test]
fn chunks_keep_capture_order() {
    let mut b = ChunkBuffer::new(4);
    let chunks = b.push_batch(&vec![1, 2, 3, 4, 5, 6]);
    assert_eq!(chunks, vec![vec![1, 2, 3, 4]]);
    let chunks = b.push_batch(&vec![7, 8, 9, 10]);
    assert_eq!(chunks, vec![vec![5, 6, 7, 8]]);
    let chunks = b.push_batch(&vec![11, 12, 13, 14, 15, 16, 17, 18]);
    assert_eq!(chunks, vec![vec![9, 10, 11, 12], vec![13, 14, 15, 16]]);
}

#[test]
fn unsigned_batch_is_recentred_before_chunking() {
    let mut s = InputSession::new(NativeFormat {
        sample_rate: 16000,
        channels: 1,
        format: SampleFormat::Unsigned16,
    });
    let batch: Vec<u16> = vec![32768; 1600];
    let out = s.on_unsigned_batch(&batch, true);
    assert_eq!(out.len(), 1);
    // 32768 recentres to 0: every sample encodes as 0x00 0x00
    assert!(out[0].data.iter().all(|&b| b == 0));
}

#[test]
fn scaled_batch_is_clamped_before_chunking() {
    let mut s = InputSession::new(NativeFormat {
        sample_rate: 16000,
        channels: 1,
        format: SampleFormat::Float,
    });
    let batch: Vec<i64> = vec![1_000_000; 1600];
    let out = s.on_scaled_batch(&batch, true);
    assert_eq!(out.len(), 1);
    // every sample clamps to 32767 = 0xFF 0x7F little-endian
    assert_eq!(out[0].data[0], 0xFF);
    assert_eq!(out[0].data[1], 0x7F);
}
