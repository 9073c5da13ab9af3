//! Remote loopback capture session logic.
//!
//! A loopback session captures what the default output device is playing,
//! through a platform loopback API, by polling a capture endpoint at a
//! bounded interval. Each poll either finds no frames (the loop sleeps
//! briefly and retries) or reads a packet of whole frames, which is
//! emitted directly as a byte chunk tagged `"remote"`: the negotiated
//! shared-mode format already matches the output byte layout, so no
//! per-sample conversion happens here. The remote capture flag is
//! consulted on every poll; once it clears, the loop stops the stream and
//! exits. On platforms without a loopback API the session fails fast with
//! a backend error instead of silently doing nothing.

use vstd::prelude::*;

use crate::types::{AudioChunk, AudioStreamConfig};

verus! {

/// What one poll of the loopback endpoint decides.
#[derive(Clone, Copy, Debug, PartialEq, Eq, Structural)]
pub enum PollAction {
    /// The capture flag cleared: stop the stream and exit the loop.
    Stop,
    /// No frames are pending: sleep briefly and poll again.
    Wait,
    /// Frames are pending: read one packet and emit it.
    Read,
}

/// The decision a poll takes, given the remote capture flag and the
/// number of frames the endpoint has pending.
pub open spec fn poll_action_spec(capturing: bool, frames_available: u32) -> PollAction {
    if !capturing {
        PollAction::Stop
    } else if frames_available == 0 {
        PollAction::Wait
    } else {
        PollAction::Read
    }
}

/// Decide one poll step. The flag is checked first: once it clears, no
/// packet is read and no chunk is emitted, whatever is pending.
pub fn poll_action(capturing: bool, frames_available: u32) -> (a: PollAction)
    ensures
        a == poll_action_spec(capturing, frames_available),
{
    if !capturing {
        PollAction::Stop
    } else if frames_available == 0 {
        PollAction::Wait
    } else {
        PollAction::Read
    }
}

/// The provisional configuration a remote start answers with before the
/// backend format is known.
pub fn provisional_remote_config() -> (c: AudioStreamConfig)
    ensures
        crate::controller::is_provisional_remote_config(c),
{
    AudioStreamConfig { sample_rate: 48000, channels: 2, speaker: "remote".to_owned() }
}

/// The corrected configuration announced once the backend has negotiated
/// the shared-mode mixer format.
pub fn negotiated_remote_config(sample_rate: u32, channels: u16) -> (c: AudioStreamConfig)
    ensures
        c.sample_rate == sample_rate,
        c.channels == channels,
        c.speaker@ == "remote"@,
{
    AudioStreamConfig { sample_rate, channels, speaker: "remote".to_owned() }
}

/// A zeroed read buffer for one packet of `frames` whole frames at the
/// negotiated block alignment.
pub fn packet_buffer(frames: u32, bytes_per_frame: u32) -> (b: Vec<u8>)
    requires
        frames as int * bytes_per_frame as int <= usize::MAX as int,
    ensures
        b@.len() == frames as int * bytes_per_frame as int,
        forall|i: int| 0 <= i < b@.len() ==> b@[i] == 0,
{
    let n: usize = (frames as usize) * (bytes_per_frame as usize);
    let mut b: Vec<u8> = Vec::new();
    let mut i: usize = 0;
    while i < n
        invariant
            i <= n,
            b@.len() == i,
            forall|k: int| 0 <= k < i ==> b@[k] == 0,
        decreases n - i,
    {
        b.push(0u8);
        i = i + 1;
    }
    b
}

/// Pack one packet the backend read into a chunk.
///
/// The backend reports how many whole frames it wrote into the buffer; a
/// packet of zero frames yields nothing, and a nonempty packet is
/// truncated to exactly the bytes read and tagged `"remote"`. Bytes
/// beyond the reported frames are never emitted.
pub fn accept_packet(buffer: Vec<u8>, frames_read: u32, bytes_per_frame: u32) -> (r: Option<
    AudioChunk,
>)
    requires
        frames_read as int * bytes_per_frame as int <= buffer@.len(),
    ensures
        r is Some <==> frames_read > 0,
        r matches Some(c) ==> c.speaker@ == "remote"@ && c.data@ == buffer@.take(
            frames_read as int * bytes_per_frame as int,
        ),
{
    if frames_read == 0 {
        return None;
    }
    let mut data = buffer;
    let available: usize = data.len();
    let mut n: usize = (frames_read as usize) * (bytes_per_frame as usize);
    if n > available {
        n = available;
    }
    data.truncate(n);
    proof {
        assert(data@ =~= buffer@.take(n as int));
    }
    Some(AudioChunk { speaker: "remote".to_owned(), data })
}

} // verus!
