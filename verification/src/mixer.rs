//! The mixer: an ordered set of channels under a master volume.

use vstd::prelude::*;
use std::collections::HashMap;
use crate::channel::{valid_pan, valid_volume, Channel, ChannelParam};
use crate::error::AudioError;
use crate::frame::{finish_sample, Frame, Side, MAX_GAIN, UNITY};
use crate::mix::{
    lemma_term_bounded, lemma_total_step, mixed, pan_weight, solo_active, source_frame, total,
    TERM_LIMIT,
};

verus! {

/// The number of ids a mixer can hand out in its lifetime.
pub const ID_LIMIT: u64 = 4294967296;

/// What a mixer holds, as a mathematical value.
pub struct MixerState {
    /// The live channels, oldest first.
    pub channels: Seq<Channel>,
    pub master_volume: i32,
    /// The id that the next new channel receives.
    pub next_id: int,
}

impl MixerState {
    /// The state of a new mixer: no channels, master at unity.
    pub open spec fn empty() -> MixerState {
        MixerState { channels: Seq::empty(), master_volume: UNITY, next_id: 0 }
    }

    /// Every channel's parameters are in range, the ids ascend along the
    /// channels and lie below `next_id`, and the master volume is in range.
    pub open spec fn wf(self) -> bool {
        &&& forall|i: int| 0 <= i < self.channels.len() ==> (#[trigger] self.channels[i]).wf()
        &&& forall|i: int, j: int|
            0 <= i < j < self.channels.len() ==> (#[trigger] self.channels[i]).id < (
            #[trigger] self.channels[j]).id
        &&& forall|i: int|
            0 <= i < self.channels.len() ==> (#[trigger] self.channels[i]).id < self.next_id
        &&& 0 <= self.next_id <= ID_LIMIT
        &&& valid_volume(self.master_volume)
    }

    /// Whether a live channel carries `id`.
    pub open spec fn contains(self, id: u32) -> bool {
        exists|i: int| 0 <= i < self.channels.len() && (#[trigger] self.channels[i]).id == id
    }

    /// The position of the channel that carries `id`.
    pub open spec fn index_of(self, id: u32) -> int
        recommends
            self.contains(id),
    {
        choose|i: int| 0 <= i < self.channels.len() && (#[trigger] self.channels[i]).id == id
    }

    /// The channel that carries `id`, if one does.
    pub open spec fn lookup(self, id: u32) -> Option<Channel> {
        if self.contains(id) {
            Some(self.channels[self.index_of(id)])
        } else {
            None
        }
    }

    /// The state after a channel with default parameters joined at the end.
    pub open spec fn with_new_channel(self) -> MixerState {
        MixerState {
            channels: self.channels.push(Channel::fresh(self.next_id as u32)),
            next_id: self.next_id + 1,
            ..self
        }
    }

    /// The state after the channel that carries `id` left. The others keep
    /// their order.
    pub open spec fn without(self, id: u32) -> MixerState {
        if self.contains(id) {
            MixerState { channels: self.channels.remove(self.index_of(id)), ..self }
        } else {
            self
        }
    }

    /// The state after one parameter of the channel that carries `id`
    /// changed.
    pub open spec fn with_param(self, id: u32, param: ChannelParam) -> MixerState {
        if self.contains(id) {
            let i = self.index_of(id);
            MixerState {
                channels: self.channels.update(i, self.channels[i].with_param(param)),
                ..self
            }
        } else {
            self
        }
    }

    /// The state with another master volume.
    pub open spec fn with_master(self, volume: i32) -> MixerState {
        MixerState { master_volume: volume, ..self }
    }

    /// Whether `id` was handed out and its channel has since been removed.
    pub open spec fn retired(self, id: u32) -> bool {
        id < self.next_id && !self.contains(id)
    }

    /// The output sample on one side for the given input frames.
    pub open spec fn mix(self, sources: Map<u32, Frame>, side: Side) -> int {
        mixed(self.channels, self.master_volume as int, sources, side)
    }
}

/// In a valid state the channel at position `i` is the one that its id
/// names.
pub proof fn lemma_index_of(state: MixerState, i: int)
    requires
        state.wf(),
        0 <= i < state.channels.len(),
    ensures
        state.contains(state.channels[i].id),
        state.index_of(state.channels[i].id) == i,
{
    let id = state.channels[i].id;
    let j = state.index_of(id);
    assert(0 <= j < state.channels.len() && state.channels[j].id == id);
    if j < i {
        assert(state.channels[j].id < state.channels[i].id);
    } else if i < j {
        assert(state.channels[i].id < state.channels[j].id);
    }
}

/// An ordered set of channels and a master volume.
pub struct Mixer {
    channels: Vec<Channel>,
    master_volume: i32,
    next_id: u64,
}

impl View for Mixer {
    type V = MixerState;

    closed spec fn view(&self) -> MixerState {
        MixerState {
            channels: self.channels@,
            master_volume: self.master_volume,
            next_id: self.next_id as int,
        }
    }
}

impl Mixer {
    #[verifier::type_invariant]
    pub open spec fn inv(&self) -> bool {
        self@.wf()
    }

    /// A mixer without channels, its master volume at unity.
    pub fn new() -> (mixer: Mixer)
        ensures
            mixer@ == MixerState::empty(),
            mixer@.wf(),
    {
        Mixer { channels: Vec::new(), master_volume: UNITY, next_id: 0 }
    }

    /// The position of the channel that carries `id`.
    fn find(&self, id: u32) -> (found: Option<usize>)
        ensures
            self@.wf(),
            match found {
                Some(i) => self@.contains(id) && i == self@.index_of(id),
                None => !self@.contains(id),
            },
    {
        proof {
            use_type_invariant(self);
        }
        let mut i: usize = 0;
        while i < self.channels.len()
            invariant
                self@.wf(),
                0 <= i <= self.channels.len(),
                forall|j: int| 0 <= j < i ==> (#[trigger] self.channels@[j]).id != id,
            decreases self.channels.len() - i,
        {
            if self.channels[i].id == id {
                proof {
                    lemma_index_of(self@, i as int);
                }
                return Some(i);
            }
            i += 1;
        }
        None
    }

    /// Whether any channel is soloed.
    fn any_solo(&self) -> (solo: bool)
        ensures
            solo == solo_active(self@.channels),
    {
        let mut i: usize = 0;
        while i < self.channels.len()
            invariant
                0 <= i <= self.channels.len(),
                forall|j: int| 0 <= j < i ==> !(#[trigger] self.channels@[j]).solo,
            decreases self.channels.len() - i,
        {
            if self.channels[i].solo {
                return true;
            }
            i += 1;
        }
        false
    }

    /// Adds a channel with default parameters at the end and returns its id,
    /// which no channel of this mixer carried before.
    pub fn add_channel(&mut self) -> (id: u32)
        requires
            old(self)@.next_id < ID_LIMIT,
        ensures
            id == old(self)@.next_id,
            final(self)@ == old(self)@.with_new_channel(),
            final(self)@.wf(),
    {
        proof {
            use_type_invariant(&*self);
        }
        let id: u32 = self.next_id as u32;
        // The list leaves `self` while it changes, so that `self` is valid
        // at every step.
        let mut channels: Vec<Channel> = Vec::new();
        std::mem::swap(&mut self.channels, &mut channels);
        channels.push(Channel::new(id));
        self.next_id = self.next_id + 1;
        assert(channels@ == old(self)@.with_new_channel().channels);
        std::mem::swap(&mut self.channels, &mut channels);
        id
    }

    /// Whether `add_channel` still has an id to hand out.
    pub fn has_free_id(&self) -> (free: bool)
        ensures
            free == (self@.next_id < ID_LIMIT),
    {
        self.next_id < ID_LIMIT
    }

    /// Removes the channel that carries `id`. The others keep their order,
    /// and the id is not handed out again.
    pub fn remove_channel(&mut self, id: u32) -> (result: Result<(), AudioError>)
        ensures
            old(self)@.contains(id) ==> result == Ok::<(), AudioError>(()),
            !old(self)@.contains(id) ==> result == Err::<(), AudioError>(
                AudioError::ChannelNotFound,
            ),
            final(self)@ == old(self)@.without(id),
            final(self)@.wf(),
    {
        match self.find(id) {
            Some(i) => {
                let mut channels: Vec<Channel> = Vec::new();
                std::mem::swap(&mut self.channels, &mut channels);
                channels.remove(i);
                std::mem::swap(&mut self.channels, &mut channels);
                Ok(())
            },
            None => Err(AudioError::ChannelNotFound),
        }
    }

    /// Changes one parameter of the channel that carries `id`. An unknown id
    /// is reported before a value out of range; either way nothing changes.
    pub fn set_channel_param(&mut self, id: u32, param: ChannelParam) -> (result: Result<
        (),
        AudioError,
    >)
        ensures
            !old(self)@.contains(id) ==> result == Err::<(), AudioError>(
                AudioError::ChannelNotFound,
            ) && final(self)@ == old(self)@,
            old(self)@.contains(id) && !param.valid() ==> result == Err::<(), AudioError>(
                AudioError::InvalidParameter,
            ) && final(self)@ == old(self)@,
            old(self)@.contains(id) && param.valid() ==> result == Ok::<(), AudioError>(())
                && final(self)@ == old(self)@.with_param(id, param),
            final(self)@.wf(),
    {
        match self.find(id) {
            Some(i) => {
                let mut channel = self.channels[i];
                match channel.apply(param) {
                    Ok(()) => {
                        let mut channels: Vec<Channel> = Vec::new();
                        std::mem::swap(&mut self.channels, &mut channels);
                        channels[i] = channel;
                        std::mem::swap(&mut self.channels, &mut channels);
                        Ok(())
                    },
                    Err(error) => Err(error),
                }
            },
            None => Err(AudioError::ChannelNotFound),
        }
    }

    /// Sets the gain of the channel that carries `id`.
    pub fn set_channel_volume(&mut self, id: u32, volume: i32) -> (result: Result<(), AudioError>)
        ensures
            !old(self)@.contains(id) ==> result == Err::<(), AudioError>(
                AudioError::ChannelNotFound,
            ) && final(self)@ == old(self)@,
            old(self)@.contains(id) && !valid_volume(volume) ==> result == Err::<(), AudioError>(
                AudioError::InvalidParameter,
            ) && final(self)@ == old(self)@,
            old(self)@.contains(id) && valid_volume(volume) ==> result == Ok::<(), AudioError>(())
                && final(self)@ == old(self)@.with_param(id, ChannelParam::Volume(volume)),
            final(self)@.wf(),
    {
        self.set_channel_param(id, ChannelParam::Volume(volume))
    }

    /// Sets the stereo position of the channel that carries `id`.
    pub fn set_channel_pan(&mut self, id: u32, pan: i32) -> (result: Result<(), AudioError>)
        ensures
            !old(self)@.contains(id) ==> result == Err::<(), AudioError>(
                AudioError::ChannelNotFound,
            ) && final(self)@ == old(self)@,
            old(self)@.contains(id) && !valid_pan(pan) ==> result == Err::<(), AudioError>(
                AudioError::InvalidParameter,
            ) && final(self)@ == old(self)@,
            old(self)@.contains(id) && valid_pan(pan) ==> result == Ok::<(), AudioError>(())
                && final(self)@ == old(self)@.with_param(id, ChannelParam::Pan(pan)),
            final(self)@.wf(),
    {
        self.set_channel_param(id, ChannelParam::Pan(pan))
    }

    /// Mutes or unmutes the channel that carries `id`.
    pub fn set_channel_mute(&mut self, id: u32, muted: bool) -> (result: Result<(), AudioError>)
        ensures
            old(self)@.contains(id) ==> result == Ok::<(), AudioError>(()),
            !old(self)@.contains(id) ==> result == Err::<(), AudioError>(
                AudioError::ChannelNotFound,
            ),
            final(self)@ == old(self)@.with_param(id, ChannelParam::Mute(muted)),
            final(self)@.wf(),
    {
        self.set_channel_param(id, ChannelParam::Mute(muted))
    }

    /// Puts the channel that carries `id` in or out of solo.
    pub fn set_channel_solo(&mut self, id: u32, solo: bool) -> (result: Result<(), AudioError>)
        ensures
            old(self)@.contains(id) ==> result == Ok::<(), AudioError>(()),
            !old(self)@.contains(id) ==> result == Err::<(), AudioError>(
                AudioError::ChannelNotFound,
            ),
            final(self)@ == old(self)@.with_param(id, ChannelParam::Solo(solo)),
            final(self)@.wf(),
    {
        self.set_channel_param(id, ChannelParam::Solo(solo))
    }

    /// Sets the master volume, or refuses one outside `0..=MAX_GAIN` and
    /// changes nothing.
    pub fn set_master_volume(&mut self, volume: i32) -> (result: Result<(), AudioError>)
        ensures
            valid_volume(volume) ==> result == Ok::<(), AudioError>(()) && final(self)@ == old(
                self,
            )@.with_master(volume),
            !valid_volume(volume) ==> result == Err::<(), AudioError>(
                AudioError::InvalidParameter,
            ) && final(self)@ == old(self)@,
            final(self)@.wf(),
    {
        proof {
            use_type_invariant(&*self);
        }
        if volume < 0 || volume > MAX_GAIN {
            return Err(AudioError::InvalidParameter);
        }
        assert(old(self)@.with_master(volume).wf());
        self.master_volume = volume;
        Ok(())
    }

    /// The master volume.
    pub fn master_volume(&self) -> (volume: i32)
        ensures
            volume == self@.master_volume,
            valid_volume(volume),
    {
        proof {
            use_type_invariant(self);
        }
        self.master_volume
    }

    /// The number of live channels.
    pub fn channel_count(&self) -> (count: usize)
        ensures
            count == self@.channels.len(),
    {
        self.channels.len()
    }

    /// The parameters of the channel that carries `id`, if one does.
    pub fn channel(&self, id: u32) -> (found: Option<Channel>)
        ensures
            found == self@.lookup(id),
            self@.wf(),
    {
        match self.find(id) {
            Some(i) => Some(self.channels[i]),
            None => None,
        }
    }

    /// Mixes one output frame from the frames that `sources` holds for the
    /// channels' ids; a channel without a frame counts as silent. One pass
    /// over the channels, no allocation.
    pub fn mix_frame(&self, sources: &HashMap<u32, Frame>) -> (out: Frame)
        ensures
            out.left == self@.mix(sources@, Side::Left),
            out.right == self@.mix(sources@, Side::Right),
    {
        broadcast use vstd::std_specs::hash::group_hash_axioms;

        proof {
            use_type_invariant(self);
        }
        let solo = self.any_solo();
        let mut left: i128 = 0;
        let mut right: i128 = 0;
        let mut i: usize = 0;
        while i < self.channels.len()
            invariant
                self@.wf(),
                0 <= i <= self.channels.len(),
                left == total(self@.channels.take(i as int), solo, sources@, Side::Left),
                right == total(self@.channels.take(i as int), solo, sources@, Side::Right),
                -(TERM_LIMIT * i) <= left <= TERM_LIMIT * i,
                -(TERM_LIMIT * i) <= right <= TERM_LIMIT * i,
            decreases self.channels.len() - i,
        {
            let channel = self.channels[i];
            proof {
                let frame = source_frame(sources@, channel.id);
                lemma_total_step(self@.channels, solo, sources@, Side::Left, i as int);
                lemma_total_step(self@.channels, solo, sources@, Side::Right, i as int);
                lemma_term_bounded(channel, solo, frame, Side::Left);
                lemma_term_bounded(channel, solo, frame, Side::Right);
                assert(TERM_LIMIT * (i + 1) == TERM_LIMIT * i + TERM_LIMIT
                    && TERM_LIMIT * (i + 1) <= TERM_LIMIT * 0x1_0000_0000_0000_0000)
                    by (nonlinear_arith)
                    requires
                        i < 0x1_0000_0000_0000_0000,
                        TERM_LIMIT > 0,
                ;
            }
            if !channel.muted && (channel.solo || !solo) {
                let frame = match sources.get(&channel.id) {
                    Some(frame) => *frame,
                    None => Frame::silence(),
                };
                let (gain_left, gain_right) = side_gains(&channel);
                proof {
                    let volume = channel.volume as int;
                    let weight_left = pan_weight(channel.pan as int, Side::Left);
                    let weight_right = pan_weight(channel.pan as int, Side::Right);
                    assert(frame.left * (volume * weight_left) == frame.left * volume
                        * weight_left) by (nonlinear_arith);
                    assert(frame.right * (volume * weight_right) == frame.right * volume
                        * weight_right) by (nonlinear_arith);
                    assert(frame == source_frame(sources@, channel.id));
                }
                left = left + (frame.left as i128) * (gain_left as i128);
                right = right + (frame.right as i128) * (gain_right as i128);
            }
            i += 1;
        }
        assert(self@.channels.take(i as int) =~= self@.channels);
        Frame {
            left: finish_sample(left, self.master_volume),
            right: finish_sample(right, self.master_volume),
        }
    }
}

/// A channel's volume times its pan weight, for the left and the right side.
fn side_gains(channel: &Channel) -> (gains: (i64, i64))
    requires
        channel.wf(),
    ensures
        gains.0 == channel.volume * pan_weight(channel.pan as int, Side::Left),
        gains.1 == channel.volume * pan_weight(channel.pan as int, Side::Right),
{
    let volume: i64 = channel.volume as i64;
    let pan: i64 = channel.pan as i64;
    let unity: i64 = UNITY as i64;
    let weight_left: i64 = if pan > 0 {
        unity - pan
    } else {
        unity
    };
    let weight_right: i64 = if pan < 0 {
        unity + pan
    } else {
        unity
    };
    assert(0 <= volume * weight_left <= 262144 * 65536 && 0 <= volume * weight_right <= 262144
        * 65536) by (nonlinear_arith)
        requires
            0 <= volume <= 262144,
            0 <= weight_left <= 65536,
            0 <= weight_right <= 65536,
    ;
    (volume * weight_left, volume * weight_right)
}

impl Default for Mixer {
    fn default() -> (mixer: Mixer)
        ensures
            mixer@ == MixerState::empty(),
    {
        Mixer::new()
    }
}

} // verus!
