//! Shared data types of the capture pipeline.

use vstd::prelude::*;

verus! {

/// Kind of device a capture backend exposes.
#[derive(Clone, Copy, Debug, PartialEq, Eq, Structural)]
pub enum DeviceType {
    Input,
    Output,
}

/// One entry of a device enumeration. Produced fresh on each request.
pub struct AudioDevice {
    /// Device name as the host audio subsystem reports it.
    pub name: String,
    /// Whether this is the current default device of its kind.
    pub is_default: bool,
    /// Device kind.
    pub device_type: DeviceType,
}

/// Format of the chunks a capture session emits. Immutable once a session
/// streams; a loopback session first announces a provisional default and
/// corrects it once the backend format is negotiated.
pub struct AudioStreamConfig {
    /// Sample rate in Hz.
    pub sample_rate: u32,
    /// Number of interleaved channels.
    pub channels: u16,
    /// Speaker label of the stream: `"local"` or `"remote"`.
    pub speaker: String,
}

/// One completed slice of captured audio, ready to be delivered.
pub struct AudioChunk {
    /// Speaker label of the originating session.
    pub speaker: String,
    /// Canonical PCM payload: signed 16-bit little-endian samples.
    pub data: Vec<u8>,
}

/// Native sample representation a backend device reports.
#[derive(Clone, Copy, Debug, PartialEq, Eq, Structural)]
pub enum SampleFormat {
    /// Floating-point samples in `[-1.0, 1.0]`.
    Float,
    /// Signed 16-bit samples; the canonical representation.
    Signed16,
    /// Unsigned 16-bit samples centred on 32768.
    Unsigned16,
    /// Any representation the normalizer does not accept.
    Other,
}

impl SampleFormat {
    /// Whether the normalizer can turn this representation into
    /// canonical signed 16-bit PCM.
    pub open spec fn is_normalizable(self) -> bool {
        self != SampleFormat::Other
    }
}

/// Native stream format of a resolved input device.
#[derive(Clone, Copy, Debug, PartialEq, Eq, Structural)]
pub struct NativeFormat {
    /// Sample rate in Hz.
    pub sample_rate: u32,
    /// Number of interleaved channels.
    pub channels: u16,
    /// Native sample representation.
    pub format: SampleFormat,
}

/// Everything that can go wrong when starting or running a capture session.
#[derive(Debug)]
pub enum CaptureError {
    /// A session of the same type is already running.
    AlreadyActive,
    /// The enumerator found no usable input device.
    NoDeviceAvailable,
    /// The device's native representation is not normalizable.
    UnsupportedFormat,
    /// The underlying audio subsystem failed; the message is
    /// platform-specific.
    Backend(String),
}

impl CaptureError {
    /// Human-readable description of the error.
    pub fn message(&self) -> (r: String)
        ensures
            self matches CaptureError::AlreadyActive ==> r@ == "capture already active"@,
            self matches CaptureError::NoDeviceAvailable ==> r@ == "no input device available"@,
            self matches CaptureError::UnsupportedFormat ==> r@ == "unsupported sample format"@,
            self matches CaptureError::Backend(m) ==> r@ == m@,
    {
        match self {
            CaptureError::AlreadyActive => "capture already active".to_owned(),
            CaptureError::NoDeviceAvailable => "no input device available".to_owned(),
            CaptureError::UnsupportedFormat => "unsupported sample format".to_owned(),
            CaptureError::Backend(m) => m.clone(),
        }
    }
}

} // verus!
