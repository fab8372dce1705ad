//! The device session: what was negotiated with the audio host.
//!
//! The host itself is queried outside this library. What it answered comes
//! in as a `HostProbe`, and `DeviceSession::negotiate` decides what it means.

use vstd::prelude::*;
use crate::error::AudioError;

verus! {

/// The format in which the device takes its samples.
#[derive(Clone, Copy, Debug, PartialEq, Eq, Structural)]
pub enum SampleFormat {
    I8,
    I16,
    I32,
    I64,
    U8,
    U16,
    U32,
    U64,
    F32,
    F64,
}

/// The buffer sizes, in frames, that the device supports.
#[derive(Clone, Copy, Debug, PartialEq, Eq, Structural)]
pub enum BufferSize {
    /// The device does not tell before a stream runs.
    Unknown,
    Range { min: u32, max: u32 },
}

/// A stream configuration that the output device offered.
#[derive(Clone, Copy, Debug, PartialEq, Eq, Structural)]
pub struct StreamConfig {
    /// The number of samples in one frame.
    pub channels: u16,
    /// Frames per second.
    pub sample_rate: u32,
    pub buffer_size: BufferSize,
    pub sample_format: SampleFormat,
}

/// What the host answered when it was asked for its default output device
/// and that device's default configuration.
#[derive(Clone, Copy, Debug, PartialEq, Eq, Structural)]
pub enum OutputProbe {
    /// The host has no output device.
    Missing,
    /// The device is there, but offered no configuration.
    Unsupported,
    Ready(StreamConfig),
}

/// What the host answered about its default devices.
#[derive(Clone, Copy, Debug, PartialEq, Eq, Structural)]
pub struct HostProbe {
    /// Whether the host has an input device. It need not have one.
    pub has_input: bool,
    pub output: OutputProbe,
}

/// A negotiated configuration. It stays as it is until the engine is
/// initialized again.
#[derive(Clone, Copy, Debug, PartialEq, Eq, Structural)]
pub struct DeviceSession {
    pub config: StreamConfig,
    pub has_input: bool,
}

/// The session that a probe leads to, or why it leads to none.
pub open spec fn negotiated(probe: HostProbe) -> Result<DeviceSession, AudioError> {
    match probe.output {
        OutputProbe::Missing => Err(AudioError::NoOutputDevice),
        OutputProbe::Unsupported => Err(AudioError::UnsupportedConfig),
        OutputProbe::Ready(config) => Ok(DeviceSession { config, has_input: probe.has_input }),
    }
}

impl DeviceSession {
    /// Binds the output device's configuration. A missing input device is
    /// no failure; a missing output device or configuration is.
    pub fn negotiate(probe: HostProbe) -> (result: Result<DeviceSession, AudioError>)
        ensures
            result == negotiated(probe),
    {
        match probe.output {
            OutputProbe::Missing => Err(AudioError::NoOutputDevice),
            OutputProbe::Unsupported => Err(AudioError::UnsupportedConfig),
            OutputProbe::Ready(config) => Ok(DeviceSession { config, has_input: probe.has_input }),
        }
    }
}

} // verus!
