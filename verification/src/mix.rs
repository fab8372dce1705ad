//! What a mix is: the audible channels' samples, weighted by volume and pan,
//! summed exactly, scaled by the master volume and clipped.
//!
//! The pan law is linear and leaves the centre at unity: moving a channel to
//! one side lowers its weight on the other side in proportion and keeps the
//! weight on its own side at `UNITY`. Both weights are continuous in the pan
//! position. Clipping is hard.

use vstd::prelude::*;
use crate::channel::Channel;
use crate::frame::{finish, Frame, Side, UNITY};

verus! {

/// The largest magnitude of one channel's term: a full-scale sample at
/// `MAX_GAIN` with a pan weight of `UNITY`.
pub const TERM_LIMIT: i128 = 562949953421312;

/// The weight that a channel at position `pan` has on one side.
pub open spec fn pan_weight(pan: int, side: Side) -> int {
    match side {
        Side::Left => if pan > 0 {
            UNITY - pan
        } else {
            UNITY as int
        },
        Side::Right => if pan < 0 {
            UNITY + pan
        } else {
            UNITY as int
        },
    }
}

/// Whether any of the channels is soloed.
pub open spec fn solo_active(channels: Seq<Channel>) -> bool {
    exists|i: int| 0 <= i < channels.len() && (#[trigger] channels[i]).solo
}

/// Whether a channel is heard: it is not muted, and it is soloed if any
/// channel is.
pub open spec fn audible(channel: Channel, solo: bool) -> bool {
    !channel.muted && (channel.solo || !solo)
}

/// The frame that `sources` holds for a channel, silence where it holds none.
pub open spec fn source_frame(sources: Map<u32, Frame>, id: u32) -> Frame {
    if sources.contains_key(id) {
        sources[id]
    } else {
        Frame::silent()
    }
}

/// What one channel adds to one side of the sum, in units of 1/`UNITY`^2 of
/// a sample step.
pub open spec fn term(channel: Channel, solo: bool, frame: Frame, side: Side) -> int {
    if audible(channel, solo) {
        frame.sample(side) * channel.volume * pan_weight(channel.pan as int, side)
    } else {
        0
    }
}

/// The sum of the channels' terms on one side.
pub open spec fn total(channels: Seq<Channel>, solo: bool, sources: Map<u32, Frame>, side: Side)
    -> int
    decreases channels.len(),
{
    if channels.len() == 0 {
        0
    } else {
        total(channels.drop_last(), solo, sources, side) + term(
            channels.last(),
            solo,
            source_frame(sources, channels.last().id),
            side,
        )
    }
}

/// The output sample on one side for the given channels, master volume and
/// input frames.
pub open spec fn mixed(channels: Seq<Channel>, master: int, sources: Map<u32, Frame>, side: Side)
    -> int {
    finish(total(channels, solo_active(channels), sources, side), master)
}

/// A valid channel's term stays within `TERM_LIMIT`.
pub proof fn lemma_term_bounded(channel: Channel, solo: bool, frame: Frame, side: Side)
    requires
        channel.wf(),
    ensures
        -TERM_LIMIT <= term(channel, solo, frame, side) <= TERM_LIMIT,
{
    let sample = frame.sample(side);
    let volume = channel.volume as int;
    let weight = pan_weight(channel.pan as int, side);
    assert(-562949953421312 <= sample * volume * weight <= 562949953421312) by (nonlinear_arith)
        requires
            -32768 <= sample <= 32767,
            0 <= volume <= 262144,
            0 <= weight <= 65536,
    ;
}

/// The sum over the first `n + 1` channels is the sum over the first `n`
/// plus the term of channel `n`.
pub proof fn lemma_total_step(
    channels: Seq<Channel>,
    solo: bool,
    sources: Map<u32, Frame>,
    side: Side,
    n: int,
)
    requires
        0 <= n < channels.len(),
    ensures
        total(channels.take(n + 1), solo, sources, side) == total(
            channels.take(n),
            solo,
            sources,
            side,
        ) + term(channels[n], solo, source_frame(sources, channels[n].id), side),
{
    assert(channels.take(n + 1).drop_last() =~= channels.take(n));
}

} // verus!
