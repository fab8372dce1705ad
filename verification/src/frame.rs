//! Samples, stereo frames and the fixed-point scale they are mixed in.

use vstd::prelude::*;

verus! {

/// The fixed-point value of 1.0: a gain that leaves a sample as it is, and
/// the pan position of the far right.
pub const UNITY: i32 = 65536;

/// The largest gain a channel or the master may carry, 4.0.
pub const MAX_GAIN: i32 = 262144;

/// The smallest sample value.
pub const SAMPLE_MIN: i16 = -32768;

/// The largest sample value.
pub const SAMPLE_MAX: i16 = 32767;

/// The weight of a sample that passed three gains of `UNITY`: the channel's
/// volume, its pan weight and the master volume.
pub const SCALE: i128 = 281474976710656;

/// One of the two output channels.
#[derive(Clone, Copy, Debug, PartialEq, Eq, Structural)]
pub enum Side {
    Left,
    Right,
}

/// One sample for each output channel at a single point in time.
#[derive(Clone, Copy, Debug, PartialEq, Eq, Structural)]
pub struct Frame {
    pub left: i16,
    pub right: i16,
}

impl Frame {
    /// The sample of this frame on one side.
    pub open spec fn sample(self, side: Side) -> int {
        match side {
            Side::Left => self.left as int,
            Side::Right => self.right as int,
        }
    }

    /// The frame that is silent on both sides.
    pub open spec fn silent() -> Frame {
        Frame { left: 0, right: 0 }
    }

    /// A frame of the two given samples.
    pub fn new(left: i16, right: i16) -> (frame: Frame)
        ensures
            frame == (Frame { left, right }),
    {
        Frame { left, right }
    }

    /// A frame of two zero samples.
    pub fn silence() -> (frame: Frame)
        ensures
            frame == Frame::silent(),
    {
        Frame { left: 0, right: 0 }
    }
}

/// Hard clipping: the sample value nearest to `value`.
pub open spec fn clip(value: int) -> int {
    if value < SAMPLE_MIN {
        SAMPLE_MIN as int
    } else if value > SAMPLE_MAX {
        SAMPLE_MAX as int
    } else {
        value
    }
}

/// The output sample for an exact sum of channel terms and a master gain:
/// the product is divided by `SCALE`, rounded down, and clipped.
pub open spec fn finish(total: int, master: int) -> int {
    clip((total * master) / (SCALE as int))
}

/// Computes `finish` for any sum and any gain, without leaving the range of
/// `i128`: a product too large for it lies beyond the sample range anyway.
pub fn finish_sample(total: i128, master: i32) -> (sample: i16)
    ensures
        sample == finish(total as int, master as int),
{
    let ceiling: i128 = (SAMPLE_MAX as i128) * SCALE;
    let floor: i128 = (SAMPLE_MIN as i128) * SCALE;
    match total.checked_mul(master as i128) {
        Some(product) => {
            if product >= ceiling {
                SAMPLE_MAX
            } else if product < floor {
                SAMPLE_MIN
            } else {
                let lifted: i128 = (product - floor) / SCALE;
                let sample: i128 = lifted + (SAMPLE_MIN as i128);
                sample as i16
            }
        },
        None => {
            if (total > 0) == (master > 0) {
                assert(total * master >= 0) by (nonlinear_arith)
                    requires
                        (total > 0) == (master > 0),
                ;
                SAMPLE_MAX
            } else {
                assert(total * master <= 0) by (nonlinear_arith)
                    requires
                        (total > 0) != (master > 0),
                ;
                SAMPLE_MIN
            }
        },
    }
}

} // verus!
