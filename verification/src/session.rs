//! Input-device capture session.
//!
//! A session owns one backend audio stream and a private chunk buffer.
//! The backend delivers sample batches through a callback; each batch is
//! format-normalized, appended to the buffer, and every completed
//! 100-millisecond slice is handed back as a chunk tagged `"local"`. The
//! callback consults the local capture flag on every invocation: once the
//! flag clears, incoming samples are dropped without being buffered.

use vstd::prelude::*;

use crate::chunk::ChunkBuffer;
use crate::normalize::{
    clamp16, clamped_seq, encode_samples_le, le_bytes_of, normalize_scaled, normalize_unsigned,
    recentre16, recentred_seq,
};
use crate::types::{AudioChunk, NativeFormat};

verus! {

/// Samples per completed chunk: a 100-millisecond slice of the stream,
/// interleaved over all channels.
pub open spec fn chunk_threshold_spec(sample_rate: u32, channels: u16) -> int {
    (sample_rate as int / 10) * channels as int
}

/// Compute the chunk threshold for a stream format.
pub fn chunk_threshold(sample_rate: u32, channels: u16) -> (t: u64)
    ensures
        t == chunk_threshold_spec(sample_rate, channels),
{
    proof {
        assert((sample_rate as int / 10) * channels as int <= 429496729 * 65535int)
            by (nonlinear_arith)
            requires
                0 <= sample_rate as int / 10 <= 429496729,
                0 <= channels as int <= 65535,
        ;
    }
    (sample_rate as u64 / 10) * (channels as u64)
}

/// What one batch of a streaming session emits.
///
/// `pre` is what the session had buffered, `batch` the normalized samples
/// that arrived, `t` the chunk threshold and `label` the session's speaker
/// label; `out` are the emitted chunks and `post` what stays buffered.
/// Every emitted chunk carries exactly `t` samples (two bytes each) of the
/// combined sequence, in capture order; the remainder below one full chunk
/// stays buffered.
pub open spec fn batch_emission(
    pre: Seq<i16>,
    batch: Seq<i16>,
    t: int,
    label: Seq<char>,
    out: Seq<AudioChunk>,
    post: Seq<i16>,
) -> bool {
    let all = pre + batch;
    &&& out.len() == all.len() as int / t
    &&& forall|i: int| 0 <= i < out.len() ==> (#[trigger] out[i]).speaker@ == label
    &&& forall|i: int| 0 <= i < out.len() ==> (#[trigger] out[i]).data@.len() == 2 * t
    &&& forall|i: int|
        0 <= i < out.len() ==> (#[trigger] out[i]).data@ == le_bytes_of(
            all.subrange(i * t, (i + 1) * t),
        )
    &&& post == all.skip(out.len() * t)
}

/// One input-device capture session: speaker label, stream format and the
/// private buffer of normalized samples.
pub struct InputSession {
    speaker: String,
    sample_rate: u32,
    channels: u16,
    buffer: ChunkBuffer,
}

impl InputSession {
    /// Normalized samples waiting for the next completed chunk.
    pub closed spec fn buffered(&self) -> Seq<i16> {
        self.buffer.buffered()
    }

    /// Samples per completed chunk.
    pub closed spec fn threshold(&self) -> int {
        self.buffer.threshold()
    }

    /// Speaker label the session tags its chunks with.
    pub closed spec fn label(&self) -> Seq<char> {
        self.speaker@
    }

    /// Sample rate of the stream this session captures.
    pub closed spec fn sample_rate(&self) -> u32 {
        self.sample_rate
    }

    /// Channel count of the stream this session captures.
    pub closed spec fn channels(&self) -> u16 {
        self.channels
    }

    /// Well-formedness: the buffer never retains a completed chunk, the
    /// threshold is the 100-millisecond slice of the stream format, and
    /// chunks are tagged `"local"`.
    pub closed spec fn wf(&self) -> bool {
        &&& self.buffer.wf()
        &&& self.buffer.threshold() == chunk_threshold_spec(self.sample_rate, self.channels)
        &&& self.speaker@ == "local"@
    }

    /// Open a session for a resolved, normalizable device format.
    ///
    /// The format must give a positive chunk threshold that fits the
    /// machine's buffer sizes.
    pub fn new(fmt: NativeFormat) -> (s: Self)
        requires
            fmt.format.is_normalizable(),
            fmt.sample_rate >= 10,
            fmt.channels >= 1,
            chunk_threshold_spec(fmt.sample_rate, fmt.channels) <= usize::MAX as int,
        ensures
            s.wf(),
            s.buffered() == Seq::<i16>::empty(),
            s.threshold() == chunk_threshold_spec(fmt.sample_rate, fmt.channels),
            s.label() == "local"@,
            s.sample_rate() == fmt.sample_rate,
            s.channels() == fmt.channels,
    {
        proof {
            assert((fmt.sample_rate as int / 10) * fmt.channels as int >= 1) by (nonlinear_arith)
                requires
                    fmt.sample_rate as int / 10 >= 1,
                    fmt.channels as int >= 1,
            ;
        }
        let t64 = chunk_threshold(fmt.sample_rate, fmt.channels);
        let t = t64 as usize;
        InputSession {
            speaker: "local".to_owned(),
            sample_rate: fmt.sample_rate,
            channels: fmt.channels,
            buffer: ChunkBuffer::new(t),
        }
    }

    /// Accept a batch of native signed 16-bit samples (the canonical
    /// representation: they pass through unchanged).
    ///
    /// While the capture flag is clear the batch is dropped whole; nothing
    /// is buffered and nothing is emitted. Otherwise the samples join the
    /// buffer and every completed chunk comes back, tagged with the
    /// session's label.
    pub fn on_signed_batch(&mut self, data: &Vec<i16>, capturing: bool) -> (out: Vec<AudioChunk>)
        requires
            old(self).wf(),
        ensures
            final(self).wf(),
            final(self).threshold() == old(self).threshold(),
            final(self).label() == old(self).label(),
            final(self).sample_rate() == old(self).sample_rate(),
            final(self).channels() == old(self).channels(),
            !capturing ==> out@.len() == 0 && final(self).buffered() == old(self).buffered(),
            capturing ==> batch_emission(
                old(self).buffered(),
                data@,
                old(self).threshold(),
                old(self).label(),
                out@,
                final(self).buffered(),
            ),
    {
        if !capturing {
            return Vec::new();
        }
        let chunks = self.buffer.push_batch(data);
        let ghost all = old(self).buffered() + data@;
        let ghost t = old(self).threshold();
        let mut out: Vec<AudioChunk> = Vec::new();
        let mut i: usize = 0;
        while i < chunks.len()
            invariant
                i <= chunks.len(),
                out@.len() == i,
                self.speaker@ == old(self).label(),
                forall|k: int| 0 <= k < i ==> (#[trigger] out@[k]).speaker@ == old(self).label(),
                forall|k: int|
                    0 <= k < i ==> (#[trigger] out@[k]).data@ == le_bytes_of(chunks@[k]@),
            decreases chunks.len() - i,
        {
            let bytes = encode_samples_le(&chunks[i]);
            out.push(AudioChunk { speaker: self.speaker.clone(), data: bytes });
            i = i + 1;
        }
        proof {
            assert forall|k: int| 0 <= k < out@.len() implies (#[trigger] out@[k]).data@.len() == 2
                * t by {
                crate::chunk::lemma_chunk_slice_bounds(all.len() as int, t, k);
                assert((k + 1) * t == k * t + t) by (nonlinear_arith);
                assert(chunks@[k]@ == all.subrange(k * t, (k + 1) * t));
            }
        }
        out
    }

    /// Accept a batch of native unsigned 16-bit samples; each is recentred
    /// by subtracting the unsigned midpoint before buffering.
    pub fn on_unsigned_batch(&mut self, data: &Vec<u16>, capturing: bool) -> (out: Vec<AudioChunk>)
        requires
            old(self).wf(),
        ensures
            final(self).wf(),
            final(self).threshold() == old(self).threshold(),
            final(self).label() == old(self).label(),
            final(self).sample_rate() == old(self).sample_rate(),
            final(self).channels() == old(self).channels(),
            !capturing ==> out@.len() == 0 && final(self).buffered() == old(self).buffered(),
            capturing ==> batch_emission(
                old(self).buffered(),
                recentred_seq(data@),
                old(self).threshold(),
                old(self).label(),
                out@,
                final(self).buffered(),
            ),
    {
        let mut norm: Vec<i16> = Vec::new();
        let mut i: usize = 0;
        while i < data.len()
            invariant
                i <= data.len(),
                norm@.len() == i,
                forall|k: int| 0 <= k < i ==> norm@[k] == recentre16(data@[k]),
            decreases data.len() - i,
        {
            norm.push(normalize_unsigned(data[i]));
            i = i + 1;
        }
        proof {
            assert(norm@ =~= recentred_seq(data@));
        }
        self.on_signed_batch(&norm, capturing)
    }

    /// Accept a batch of scaled floating-point samples (each already
    /// multiplied by 32767 and truncated to a wide integer); each is
    /// clamped to the signed 16-bit range before buffering.
    pub fn on_scaled_batch(&mut self, data: &Vec<i64>, capturing: bool) -> (out: Vec<AudioChunk>)
        requires
            old(self).wf(),
        ensures
            final(self).wf(),
            final(self).threshold() == old(self).threshold(),
            final(self).label() == old(self).label(),
            final(self).sample_rate() == old(self).sample_rate(),
            final(self).channels() == old(self).channels(),
            !capturing ==> out@.len() == 0 && final(self).buffered() == old(self).buffered(),
            capturing ==> batch_emission(
                old(self).buffered(),
                clamped_seq(data@),
                old(self).threshold(),
                old(self).label(),
                out@,
                final(self).buffered(),
            ),
    {
        let mut norm: Vec<i16> = Vec::new();
        let mut i: usize = 0;
        while i < data.len()
            invariant
                i <= data.len(),
                norm@.len() == i,
                forall|k: int| 0 <= k < i ==> norm@[k] == clamp16(data@[k] as int),
            decreases data.len() - i,
        {
            norm.push(normalize_scaled(data[i]));
            i = i + 1;
        }
        proof {
            assert(norm@ =~= clamped_seq(data@));
        }
        self.on_signed_batch(&norm, capturing)
    }
}

} // verus!
