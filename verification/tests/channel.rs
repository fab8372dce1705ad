use audio_mixer::channel::{Channel, ChannelParam};
use audio_mixer::error::AudioError;
use audio_mixer::frame::{finish_sample, Frame, MAX_GAIN, SAMPLE_MAX, SAMPLE_MIN, SCALE, UNITY};

#[test]
fn new_channel_has_default_parameters() {
    let channel = Channel::new(7);
    assert_eq!(channel.id, 7);
    assert_eq!(channel.volume, UNITY);
    assert_eq!(channel.pan, 0);
    assert!(!channel.muted);
    assert!(!channel.solo);
}

#[test]
fn set_volume_accepts_the_whole_range() {
    let mut channel = Channel::new(0);
    assert_eq!(channel.set_volume(0), Ok(()));
    assert_eq!(channel.volume, 0);
    assert_eq!(channel.set_volume(MAX_GAIN), Ok(()));
    assert_eq!(channel.volume, MAX_GAIN);
    assert_eq!(channel.set_volume(98304), Ok(()));
    assert_eq!(channel.volume, 98304);
}

#[test]
fn set_volume_refuses_what_lies_outside() {
    let mut channel = Channel::new(0);
    channel.set_volume(1234).unwrap();
    assert_eq!(channel.set_volume(-1), Err(AudioError::InvalidParameter));
    assert_eq!(channel.set_volume(-UNITY), Err(AudioError::InvalidParameter));
    assert_eq!(channel.set_volume(MAX_GAIN + 1), Err(AudioError::InvalidParameter));
    assert_eq!(channel.set_volume(i32::MIN), Err(AudioError::InvalidParameter));
    assert_eq!(channel.set_volume(i32::MAX), Err(AudioError::InvalidParameter));
    assert_eq!(channel.volume, 1234);
}

#[test]
fn set_pan_accepts_the_whole_range() {
    let mut channel = Channel::new(0);
    assert_eq!(channel.set_pan(-UNITY), Ok(()));
    assert_eq!(channel.pan, -UNITY);
    assert_eq!(channel.set_pan(UNITY), Ok(()));
    assert_eq!(channel.pan, UNITY);
    assert_eq!(channel.set_pan(0), Ok(()));
    assert_eq!(channel.pan, 0);
}

#[test]
fn set_pan_refuses_what_lies_outside() {
    let mut channel = Channel::new(0);
    channel.set_pan(-100).unwrap();
    assert_eq!(channel.set_pan(2 * UNITY), Err(AudioError::InvalidParameter));
    assert_eq!(channel.set_pan(UNITY + 1), Err(AudioError::InvalidParameter));
    assert_eq!(channel.set_pan(-UNITY - 1), Err(AudioError::InvalidParameter));
    assert_eq!(channel.pan, -100);
}

#[test]
fn mute_and_solo_toggle_without_condition() {
    let mut channel = Channel::new(0);
    channel.set_muted(true);
    channel.set_solo(true);
    assert!(channel.muted && channel.solo);
    channel.set_muted(false);
    channel.set_solo(false);
    assert!(!channel.muted && !channel.solo);
}

#[test]
fn apply_changes_one_parameter_only() {
    let mut channel = Channel::new(3);
    assert_eq!(channel.apply(ChannelParam::Volume(1000)), Ok(()));
    assert_eq!(channel.apply(ChannelParam::Pan(-2000)), Ok(()));
    assert_eq!(channel.apply(ChannelParam::Mute(true)), Ok(()));
    assert_eq!(channel.apply(ChannelParam::Solo(true)), Ok(()));
    assert_eq!(
        channel,
        Channel { id: 3, volume: 1000, pan: -2000, muted: true, solo: true }
    );
    assert_eq!(channel.apply(ChannelParam::Volume(-5)), Err(AudioError::InvalidParameter));
    assert_eq!(channel.apply(ChannelParam::Pan(70000)), Err(AudioError::InvalidParameter));
    assert_eq!(
        channel,
        Channel { id: 3, volume: 1000, pan: -2000, muted: true, solo: true }
    );
}

#[test]
fn frames_hold_their_samples() {
    assert_eq!(Frame::new(5, -6), Frame { left: 5, right: -6 });
    assert_eq!(Frame::silence(), Frame { left: 0, right: 0 });
}

#[test]
fn finish_sample_scales_by_the_master() {
    let unity = UNITY as i128;
    assert_eq!(finish_sample(1000 * unity * unity, UNITY), 1000);
    assert_eq!(finish_sample(1000 * unity * unity, UNITY / 2), 500);
    assert_eq!(finish_sample(1000 * unity * unity, 0), 0);
    assert_eq!(finish_sample(-1000 * unity * unity, 2 * UNITY), -2000);
    assert_eq!(finish_sample(0, MAX_GAIN), 0);
}

#[test]
fn finish_sample_rounds_down() {
    assert_eq!(finish_sample(SCALE - 1, 1), 0);
    assert_eq!(finish_sample(SCALE, 1), 1);
    assert_eq!(finish_sample(-1, 1), -1);
    assert_eq!(finish_sample(-SCALE, 1), -1);
    assert_eq!(finish_sample(-SCALE - 1, 1), -2);
}

#[test]
fn finish_sample_clips_hard() {
    let unity = UNITY as i128;
    assert_eq!(finish_sample(32767 * unity * unity, UNITY), SAMPLE_MAX);
    assert_eq!(finish_sample(32768 * unity * unity, UNITY), SAMPLE_MAX);
    assert_eq!(finish_sample(-32768 * unity * unity, UNITY), SAMPLE_MIN);
    assert_eq!(finish_sample(-32769 * unity * unity, UNITY), SAMPLE_MIN);
    assert_eq!(finish_sample(2417851639229258349412352, MAX_GAIN), SAMPLE_MAX);
    assert_eq!(finish_sample(-2417851639229258349412352, MAX_GAIN), SAMPLE_MIN);
    assert_eq!(finish_sample(i128::MAX, MAX_GAIN), SAMPLE_MAX);
    assert_eq!(finish_sample(i128::MIN, MAX_GAIN), SAMPLE_MIN);
    assert_eq!(finish_sample(i128::MIN, -1), SAMPLE_MAX);
    assert_eq!(finish_sample(i128::MAX, i32::MIN), SAMPLE_MIN);
    assert_eq!(finish_sample(i128::MAX, 0), 0);
    assert_eq!(finish_sample(32767 * unity * unity - 1, UNITY), 32766);
}
