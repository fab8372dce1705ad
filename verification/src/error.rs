//! The failures that control operations report.

use vstd::prelude::*;

verus! {

/// Why a control operation was refused.
#[derive(Clone, Copy, Debug, PartialEq, Eq, Structural)]
pub enum AudioError {
    /// The host offers no default output device.
    NoOutputDevice,
    /// The output device offered no usable stream configuration.
    UnsupportedConfig,
    /// The engine has no negotiated configuration yet.
    NotInitialized,
    /// A stream is live, so the configuration cannot be replaced.
    EngineBusy,
    /// No channel of the mixer carries the given id.
    ChannelNotFound,
    /// A parameter lies outside its valid range.
    InvalidParameter,
    /// The running stream reported a device or driver error.
    StreamFailure,
}

/// The text that describes a failure.
pub open spec fn error_text(error: AudioError) -> Seq<char> {
    match error {
        AudioError::NoOutputDevice => "no output device available"@,
        AudioError::UnsupportedConfig => "the output device offers no supported configuration"@,
        AudioError::NotInitialized => "the audio engine is not initialized"@,
        AudioError::EngineBusy => "the audio engine is busy: a stream is live"@,
        AudioError::ChannelNotFound => "no channel carries this id"@,
        AudioError::InvalidParameter => "the parameter is out of range"@,
        AudioError::StreamFailure => "the audio stream failed"@,
    }
}

impl AudioError {
    /// A description of the failure for whoever issued the command.
    pub fn message(&self) -> (text: String)
        ensures
            text@ == error_text(*self),
    {
        match self {
            AudioError::NoOutputDevice => "no output device available".to_string(),
            AudioError::UnsupportedConfig => "the output device offers no supported configuration".to_string(),
            AudioError::NotInitialized => "the audio engine is not initialized".to_string(),
            AudioError::EngineBusy => "the audio engine is busy: a stream is live".to_string(),
            AudioError::ChannelNotFound => "no channel carries this id".to_string(),
            AudioError::InvalidParameter => "the parameter is out of range".to_string(),
            AudioError::StreamFailure => "the audio stream failed".to_string(),
        }
    }
}

} // verus!
