//! Capture controller: start and stop operations per session type.
//!
//! The controller owns the two capture flags, one per session type
//! (local input device, remote output loopback). A flag gates session
//! startup: a duplicate start of the same type is rejected while the flag
//! is set. The host shell shares each flag with the running session's
//! callback or poll loop, which consults it on every invocation and stops
//! forwarding samples once it clears. Stopping only clears the flags;
//! termination of the sessions is advisory and asynchronous.

use vstd::prelude::*;

use crate::types::{AudioStreamConfig, CaptureError, NativeFormat, SampleFormat};

verus! {

/// Whether `cfg` announces the stream of a local input-device session
/// with the given native format.
pub open spec fn is_local_config(cfg: AudioStreamConfig, fmt: NativeFormat) -> bool {
    &&& cfg.sample_rate == fmt.sample_rate
    &&& cfg.channels == fmt.channels
    &&& cfg.speaker@ == "local"@
}

/// Whether `cfg` is the provisional configuration a remote loopback start
/// answers with, before the backend format is negotiated.
pub open spec fn is_provisional_remote_config(cfg: AudioStreamConfig) -> bool {
    &&& cfg.sample_rate == 48000
    &&& cfg.channels == 2
    &&& cfg.speaker@ == "remote"@
}

/// Whether the enumerator resolved a device whose native representation
/// the normalizer accepts.
pub open spec fn device_normalizable(device: Option<NativeFormat>) -> bool {
    match device {
        Some(fmt) => fmt.format.is_normalizable(),
        None => false,
    }
}

/// A successful local start answers with the configuration derived from
/// the resolved device format; an error answers with none.
pub open spec fn local_ok_config(
    r: Result<AudioStreamConfig, CaptureError>,
    device: Option<NativeFormat>,
) -> bool {
    match r {
        Ok(cfg) => match device {
            Some(fmt) => is_local_config(cfg, fmt),
            None => false,
        },
        Err(_) => true,
    }
}

/// A successful remote start answers with the provisional default
/// configuration; an error answers with none.
pub open spec fn remote_ok_config(r: Result<AudioStreamConfig, CaptureError>) -> bool {
    match r {
        Ok(cfg) => is_provisional_remote_config(cfg),
        Err(_) => true,
    }
}

/// The two capture flags. Both start clear; each is set by the start
/// operation of its session type and cleared, together, by a stop.
#[derive(Clone, Copy, Debug, PartialEq, Eq, Structural)]
pub struct CaptureController {
    /// Whether a local input-device session is active.
    pub local_active: bool,
    /// Whether a remote loopback session is active.
    pub remote_active: bool,
}

impl CaptureController {
    /// A local start is rejected exactly while the local flag is set.
    pub open spec fn local_start_rejected(self) -> bool {
        self.local_active
    }

    /// A remote start is rejected exactly while the remote flag is set.
    pub open spec fn remote_start_rejected(self) -> bool {
        self.remote_active
    }

    /// The controller after an accepted local start: the local flag is
    /// set, the remote flag untouched.
    pub open spec fn after_local_start(self) -> CaptureController {
        CaptureController { local_active: true, ..self }
    }

    /// The controller after an accepted remote start: the remote flag is
    /// set, the local flag untouched.
    pub open spec fn after_remote_start(self) -> CaptureController {
        CaptureController { remote_active: true, ..self }
    }

    /// The controller after a stop: both flags clear.
    pub open spec fn after_stop(self) -> CaptureController {
        CaptureController { local_active: false, remote_active: false }
    }

    /// A controller with nothing active.
    pub fn new() -> (c: Self)
        ensures
            !c.local_active,
            !c.remote_active,
    {
        CaptureController { local_active: false, remote_active: false }
    }

    /// Start capturing from the default input device.
    ///
    /// `device` carries the resolved native format of the default input
    /// device, or `None` when the enumerator found no usable device. The
    /// call is rejected while a local session is active; otherwise it
    /// sets the local flag and answers with the configuration the new
    /// session will emit chunks in. A missing device or a native
    /// representation the normalizer does not accept is reported after
    /// the flag is set, exactly as an asynchronous backend failure would
    /// be: an explicit stop resets the state.
    pub fn start_local_capture(&mut self, device: Option<NativeFormat>) -> (r: Result<
        AudioStreamConfig,
        CaptureError,
    >)
        ensures
            r matches Err(CaptureError::AlreadyActive) <==> old(self).local_start_rejected(),
            old(self).local_start_rejected() ==> *final(self) == *old(self),
            !old(self).local_start_rejected() ==> *final(self) == old(self).after_local_start(),
            r matches Err(CaptureError::NoDeviceAvailable) <==> (!old(
                self,
            ).local_start_rejected() && device is None),
            r matches Err(CaptureError::UnsupportedFormat) <==> (!old(
                self,
            ).local_start_rejected() && device is Some && !device_normalizable(device)),
            r is Ok <==> (!old(self).local_start_rejected() && device_normalizable(device)),
            local_ok_config(r, device),
    {
        if self.local_active {
            return Err(CaptureError::AlreadyActive);
        }
        self.local_active = true;
        match device {
            None => Err(CaptureError::NoDeviceAvailable),
            Some(fmt) => {
                if fmt.format == SampleFormat::Other {
                    Err(CaptureError::UnsupportedFormat)
                } else {
                    Ok(
                        AudioStreamConfig {
                            sample_rate: fmt.sample_rate,
                            channels: fmt.channels,
                            speaker: "local".to_owned(),
                        },
                    )
                }
            },
        }
    }

    /// Start capturing the system output through the loopback backend.
    ///
    /// The call is rejected while a remote session is active; otherwise
    /// it sets the remote flag and answers at once with the provisional
    /// default configuration. The true format is only known after the
    /// backend negotiates it; the running session announces the corrected
    /// configuration later.
    pub fn start_remote_capture(&mut self) -> (r: Result<AudioStreamConfig, CaptureError>)
        ensures
            r matches Err(CaptureError::AlreadyActive) <==> old(self).remote_start_rejected(),
            old(self).remote_start_rejected() ==> *final(self) == *old(self),
            !old(self).remote_start_rejected() ==> *final(self) == old(self).after_remote_start(),
            r is Ok <==> !old(self).remote_start_rejected(),
            remote_ok_config(r),
    {
        if self.remote_active {
            return Err(CaptureError::AlreadyActive);
        }
        self.remote_active = true;
        Ok(AudioStreamConfig { sample_rate: 48000, channels: 2, speaker: "remote".to_owned() })
    }

    /// Stop all capture: clear both flags, unconditionally.
    ///
    /// Idempotent and always successful; stopping with nothing active has
    /// no effect. The running sessions observe the cleared flags at their
    /// next callback or poll and cease emitting.
    pub fn stop_capture(&mut self) -> (r: Result<(), CaptureError>)
        ensures
            r is Ok,
            *final(self) == old(self).after_stop(),
    {
        self.local_active = false;
        self.remote_active = false;
        Ok(())
    }
}

/// Starting a session type twice without an intervening stop: after an
/// accepted local start, a second local start is rejected. The two flags
/// are independent: the local start leaves the remote flag as it was, and
/// a remote start leaves the local flag as it was, so starting one type
/// while the other is active still succeeds.
pub proof fn lemma_second_local_start_rejected(c: CaptureController)
    requires
        !c.local_start_rejected(),
    ensures
        c.after_local_start().local_start_rejected(),
        c.after_local_start().remote_start_rejected() == c.remote_start_rejected(),
        c.after_remote_start().local_start_rejected() == c.local_start_rejected(),
{
}

/// The mirror image for the remote session type: a second remote start
/// without an intervening stop is rejected, and the local flag is
/// untouched by it.
pub proof fn lemma_second_remote_start_rejected(c: CaptureController)
    requires
        !c.remote_start_rejected(),
    ensures
        c.after_remote_start().remote_start_rejected(),
        c.after_remote_start().local_start_rejected() == c.local_start_rejected(),
{
}

/// A stop clears both flags whatever the state was, it is idempotent,
/// and stopping with nothing active does not change the controller.
pub proof fn lemma_stop_clears_both(c: CaptureController)
    ensures
        !c.after_stop().local_start_rejected(),
        !c.after_stop().remote_start_rejected(),
        c.after_stop().after_stop() == c.after_stop(),
        (!c.local_active && !c.remote_active) ==> c.after_stop() == c,
{
}

} // verus!
