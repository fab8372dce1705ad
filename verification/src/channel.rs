//! A mixer channel and the validated changes to its parameters.

use vstd::prelude::*;
use crate::error::AudioError;
use crate::frame::{MAX_GAIN, UNITY};

verus! {

/// Whether `volume` is a gain between silence and `MAX_GAIN`.
pub open spec fn valid_volume(volume: i32) -> bool {
    0 <= volume <= MAX_GAIN
}

/// Whether `pan` lies between the far left, `-UNITY`, and the far right,
/// `UNITY`.
pub open spec fn valid_pan(pan: i32) -> bool {
    -UNITY <= pan <= UNITY
}

/// The mix parameters of one channel.
#[derive(Clone, Copy, Debug, PartialEq, Eq, Structural)]
pub struct Channel {
    /// Addresses this channel for as long as it lives.
    pub id: u32,
    /// Linear gain in units of 1/`UNITY`.
    pub volume: i32,
    /// Stereo position in units of 1/`UNITY`; 0 is the centre.
    pub pan: i32,
    pub muted: bool,
    pub solo: bool,
}

/// One parameter of a channel together with the value it is to take.
#[derive(Clone, Copy, Debug, PartialEq, Eq, Structural)]
pub enum ChannelParam {
    Volume(i32),
    Pan(i32),
    Mute(bool),
    Solo(bool),
}

impl ChannelParam {
    /// Whether the value lies in the range of its parameter.
    pub open spec fn valid(self) -> bool {
        match self {
            ChannelParam::Volume(volume) => valid_volume(volume),
            ChannelParam::Pan(pan) => valid_pan(pan),
            ChannelParam::Mute(_) => true,
            ChannelParam::Solo(_) => true,
        }
    }
}

impl Channel {
    /// The channel that `id` names when it is created: unity gain, centred,
    /// neither muted nor soloed.
    pub open spec fn fresh(id: u32) -> Channel {
        Channel { id, volume: UNITY, pan: 0, muted: false, solo: false }
    }

    /// Whether volume and pan lie in their ranges.
    pub open spec fn wf(self) -> bool {
        valid_volume(self.volume) && valid_pan(self.pan)
    }

    /// This channel with one parameter replaced.
    pub open spec fn with_param(self, param: ChannelParam) -> Channel {
        match param {
            ChannelParam::Volume(volume) => Channel { volume, ..self },
            ChannelParam::Pan(pan) => Channel { pan, ..self },
            ChannelParam::Mute(muted) => Channel { muted, ..self },
            ChannelParam::Solo(solo) => Channel { solo, ..self },
        }
    }

    /// A channel with the default parameters.
    pub fn new(id: u32) -> (channel: Channel)
        ensures
            channel == Channel::fresh(id),
            channel.wf(),
    {
        Channel { id, volume: UNITY, pan: 0, muted: false, solo: false }
    }

    /// Sets the gain, or refuses one outside `0..=MAX_GAIN` and changes
    /// nothing.
    pub fn set_volume(&mut self, volume: i32) -> (result: Result<(), AudioError>)
        ensures
            valid_volume(volume) ==> result == Ok::<(), AudioError>(()) && *final(self) == old(
                self,
            ).with_param(ChannelParam::Volume(volume)),
            !valid_volume(volume) ==> result == Err::<(), AudioError>(
                AudioError::InvalidParameter,
            ) && *final(self) == *old(self),
    {
        if volume < 0 || volume > MAX_GAIN {
            return Err(AudioError::InvalidParameter);
        }
        self.volume = volume;
        Ok(())
    }

    /// Sets the stereo position, or refuses one outside `-UNITY..=UNITY` and
    /// changes nothing.
    pub fn set_pan(&mut self, pan: i32) -> (result: Result<(), AudioError>)
        ensures
            valid_pan(pan) ==> result == Ok::<(), AudioError>(()) && *final(self) == old(
                self,
            ).with_param(ChannelParam::Pan(pan)),
            !valid_pan(pan) ==> result == Err::<(), AudioError>(AudioError::InvalidParameter)
                && *final(self) == *old(self),
    {
        if pan < -UNITY || pan > UNITY {
            return Err(AudioError::InvalidParameter);
        }
        self.pan = pan;
        Ok(())
    }

    /// Mutes or unmutes the channel.
    pub fn set_muted(&mut self, muted: bool)
        ensures
            *final(self) == old(self).with_param(ChannelParam::Mute(muted)),
    {
        self.muted = muted;
    }

    /// Puts the channel in or out of solo.
    pub fn set_solo(&mut self, solo: bool)
        ensures
            *final(self) == old(self).with_param(ChannelParam::Solo(solo)),
    {
        self.solo = solo;
    }

    /// Applies one parameter change, or refuses a value outside the
    /// parameter's range and changes nothing.
    pub fn apply(&mut self, param: ChannelParam) -> (result: Result<(), AudioError>)
        ensures
            param.valid() ==> result == Ok::<(), AudioError>(()) && *final(self) == old(
                self,
            ).with_param(param),
            !param.valid() ==> result == Err::<(), AudioError>(AudioError::InvalidParameter)
                && *final(self) == *old(self),
            old(self).wf() ==> final(self).wf(),
    {
        match param {
            ChannelParam::Volume(volume) => self.set_volume(volume),
            ChannelParam::Pan(pan) => self.set_pan(pan),
            ChannelParam::Mute(muted) => {
                self.set_muted(muted);
                Ok(())
            },
            ChannelParam::Solo(solo) => {
                self.set_solo(solo);
                Ok(())
            },
        }
    }
}

} // verus!
