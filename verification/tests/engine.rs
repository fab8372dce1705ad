use std::collections::HashMap;
use std::sync::{Arc, Mutex};

use audio_mixer::engine::{AudioEngine, EngineState, StreamAction};
use audio_mixer::error::AudioError;
use audio_mixer::frame::Frame;
use audio_mixer::session::{
    BufferSize, DeviceSession, HostProbe, OutputProbe, SampleFormat, StreamConfig,
};

fn stereo() -> StreamConfig {
    StreamConfig {
        channels: 2,
        sample_rate: 48000,
        buffer_size: BufferSize::Range { min: 64, max: 4096 },
        sample_format: SampleFormat::F32,
    }
}

fn mono() -> StreamConfig {
    StreamConfig {
        channels: 1,
        sample_rate: 44100,
        buffer_size: BufferSize::Unknown,
        sample_format: SampleFormat::I16,
    }
}

fn ready(config: StreamConfig, has_input: bool) -> HostProbe {
    HostProbe { has_input, output: OutputProbe::Ready(config) }
}

#[test]
fn negotiate_binds_the_offered_configuration() {
    assert_eq!(
        DeviceSession::negotiate(ready(stereo(), true)),
        Ok(DeviceSession { config: stereo(), has_input: true })
    );
    assert_eq!(
        DeviceSession::negotiate(ready(mono(), false)),
        Ok(DeviceSession { config: mono(), has_input: false })
    );
}

#[test]
fn negotiate_fails_without_output() {
    let probe = HostProbe { has_input: true, output: OutputProbe::Missing };
    assert_eq!(DeviceSession::negotiate(probe), Err(AudioError::NoOutputDevice));
    let probe = HostProbe { has_input: true, output: OutputProbe::Unsupported };
    assert_eq!(DeviceSession::negotiate(probe), Err(AudioError::UnsupportedConfig));
}

#[test]
fn new_engine_is_uninitialized() {
    let engine = AudioEngine::new();
    assert_eq!(engine.state(), EngineState::Uninitialized);
    assert!(!engine.is_playing());
    assert_eq!(engine.session(), None);
    assert_eq!(engine.mixer().channel_count(), 0);
    let engine = AudioEngine::default();
    assert_eq!(engine.state(), EngineState::Uninitialized);
}

#[test]
fn play_before_initialize_is_refused() {
    let mut engine = AudioEngine::new();
    assert_eq!(engine.play(), Err(AudioError::NotInitialized));
    assert_eq!(engine.state(), EngineState::Uninitialized);
    assert!(!engine.is_playing());
}

#[test]
fn play_after_initialize_starts_a_stream() {
    let mut engine = AudioEngine::new();
    assert_eq!(engine.initialize(ready(stereo(), false)), Ok(()));
    assert_eq!(engine.state(), EngineState::Idle);
    assert_eq!(engine.session(), Some(DeviceSession { config: stereo(), has_input: false }));
    assert_eq!(engine.play(), Ok(StreamAction::Start));
    assert!(engine.is_playing());
    assert_eq!(engine.state(), EngineState::Playing);
}

#[test]
fn play_while_playing_changes_nothing() {
    let mut engine = AudioEngine::new();
    engine.initialize(ready(stereo(), false)).unwrap();
    engine.play().unwrap();
    assert_eq!(engine.play(), Ok(StreamAction::Unchanged));
    assert!(engine.is_playing());
}

#[test]
fn stop_then_play_resumes_on_the_same_session() {
    let mut engine = AudioEngine::new();
    engine.initialize(ready(stereo(), true)).unwrap();
    engine.play().unwrap();
    assert_eq!(engine.stop(), StreamAction::Halt);
    assert_eq!(engine.state(), EngineState::Stopped);
    assert!(!engine.is_playing());
    assert_eq!(engine.play(), Ok(StreamAction::Start));
    assert!(engine.is_playing());
    assert_eq!(engine.session(), Some(DeviceSession { config: stereo(), has_input: true }));
}

#[test]
fn stop_while_not_playing_changes_nothing() {
    let mut engine = AudioEngine::new();
    assert_eq!(engine.stop(), StreamAction::Unchanged);
    assert_eq!(engine.state(), EngineState::Uninitialized);
    engine.initialize(ready(stereo(), false)).unwrap();
    assert_eq!(engine.stop(), StreamAction::Unchanged);
    assert_eq!(engine.state(), EngineState::Idle);
    engine.play().unwrap();
    engine.stop();
    assert_eq!(engine.stop(), StreamAction::Unchanged);
    assert_eq!(engine.state(), EngineState::Stopped);
}

#[test]
fn initialize_reports_what_the_host_lacks() {
    let mut engine = AudioEngine::new();
    let probe = HostProbe { has_input: true, output: OutputProbe::Missing };
    assert_eq!(engine.initialize(probe), Err(AudioError::NoOutputDevice));
    assert_eq!(engine.state(), EngineState::Uninitialized);
    let probe = HostProbe { has_input: false, output: OutputProbe::Unsupported };
    assert_eq!(engine.initialize(probe), Err(AudioError::UnsupportedConfig));
    assert_eq!(engine.state(), EngineState::Uninitialized);
    assert_eq!(engine.session(), None);
}

#[test]
fn initialize_is_busy_while_playing() {
    let mut engine = AudioEngine::new();
    engine.initialize(ready(stereo(), false)).unwrap();
    engine.play().unwrap();
    assert_eq!(engine.initialize(ready(mono(), true)), Err(AudioError::EngineBusy));
    assert!(engine.is_playing());
    assert_eq!(engine.session(), Some(DeviceSession { config: stereo(), has_input: false }));
}

#[test]
fn initialize_again_replaces_the_session() {
    let mut engine = AudioEngine::new();
    engine.initialize(ready(stereo(), false)).unwrap();
    assert_eq!(engine.initialize(ready(mono(), true)), Ok(()));
    assert_eq!(engine.session(), Some(DeviceSession { config: mono(), has_input: true }));
    engine.play().unwrap();
    engine.stop();
    assert_eq!(engine.initialize(ready(stereo(), false)), Ok(()));
    assert_eq!(engine.state(), EngineState::Idle);
    assert_eq!(engine.session(), Some(DeviceSession { config: stereo(), has_input: false }));
}

#[test]
fn failed_initialize_keeps_the_earlier_session() {
    let mut engine = AudioEngine::new();
    engine.initialize(ready(stereo(), false)).unwrap();
    engine.play().unwrap();
    engine.stop();
    let probe = HostProbe { has_input: false, output: OutputProbe::Missing };
    assert_eq!(engine.initialize(probe), Err(AudioError::NoOutputDevice));
    assert_eq!(engine.state(), EngineState::Stopped);
    assert_eq!(engine.session(), Some(DeviceSession { config: stereo(), has_input: false }));
    assert_eq!(engine.play(), Ok(StreamAction::Start));
}

#[test]
fn stream_failure_stops_and_is_reported_once() {
    let mut engine = AudioEngine::new();
    engine.initialize(ready(stereo(), false)).unwrap();
    engine.play().unwrap();
    assert_eq!(engine.poll(), Ok(()));
    assert_eq!(engine.stream_failed(), StreamAction::Halt);
    assert_eq!(engine.state(), EngineState::Stopped);
    assert_eq!(engine.poll(), Err(AudioError::StreamFailure));
    assert_eq!(engine.poll(), Ok(()));
    assert_eq!(engine.play(), Ok(StreamAction::Start));
}

#[test]
fn stream_failure_without_a_stream_is_ignored() {
    let mut engine = AudioEngine::new();
    assert_eq!(engine.stream_failed(), StreamAction::Unchanged);
    assert_eq!(engine.poll(), Ok(()));
    engine.initialize(ready(stereo(), false)).unwrap();
    assert_eq!(engine.stream_failed(), StreamAction::Unchanged);
    assert_eq!(engine.state(), EngineState::Idle);
    assert_eq!(engine.poll(), Ok(()));
}

#[test]
fn render_frame_is_silent_unless_playing() {
    let mut engine = AudioEngine::new();
    let id = engine.mixer_mut().add_channel();
    let mut sources = HashMap::new();
    sources.insert(id, Frame::new(1200, -3400));
    assert_eq!(engine.render_frame(&sources), Frame::silence());
    engine.initialize(ready(stereo(), false)).unwrap();
    assert_eq!(engine.render_frame(&sources), Frame::silence());
    engine.play().unwrap();
    assert_eq!(engine.render_frame(&sources), Frame::new(1200, -3400));
    engine.stop();
    assert_eq!(engine.render_frame(&sources), Frame::silence());
}

#[test]
fn mixer_changes_leave_playback_alone() {
    let mut engine = AudioEngine::new();
    engine.initialize(ready(stereo(), false)).unwrap();
    engine.play().unwrap();
    let id = engine.mixer_mut().add_channel();
    engine.mixer_mut().set_channel_volume(id, 32768).unwrap();
    assert!(engine.is_playing());
    assert_eq!(engine.mixer().channel(id).unwrap().volume, 32768);
    let mut sources = HashMap::new();
    sources.insert(id, Frame::new(1000, 1000));
    assert_eq!(engine.render_frame(&sources), Frame::new(500, 500));
}

#[test]
fn every_error_has_its_message() {
    assert_eq!(AudioError::NoOutputDevice.message(), "no output device available");
    assert_eq!(
        AudioError::UnsupportedConfig.message(),
        "the output device offers no supported configuration"
    );
    assert_eq!(AudioError::NotInitialized.message(), "the audio engine is not initialized");
    assert_eq!(AudioError::EngineBusy.message(), "the audio engine is busy: a stream is live");
    assert_eq!(AudioError::ChannelNotFound.message(), "no channel carries this id");
    assert_eq!(AudioError::InvalidParameter.message(), "the parameter is out of range");
    assert_eq!(AudioError::StreamFailure.message(), "the audio stream failed");
}

#[test]
fn callback_side_reads_what_the_command_side_set() {
    let shared = Arc::new(Mutex::new(AudioEngine::new()));
    let callback = Arc::clone(&shared);
    let frames: Arc<Mutex<HashMap<u32, Frame>>> = Arc::new(Mutex::new(HashMap::new()));
    let id = {
        let mut engine = shared.lock().unwrap();
        engine.initialize(ready(stereo(), false)).unwrap();
        assert!(engine.mixer().has_free_id());
        let id = engine.mixer_mut().add_channel();
        engine.mixer_mut().set_master_volume(131072).unwrap();
        assert_eq!(engine.play(), Ok(StreamAction::Start));
        id
    };
    frames.lock().unwrap().insert(id, Frame::new(-250, 4000));
    let out = match (callback.try_lock(), frames.try_lock()) {
        (Ok(engine), Ok(frames)) => engine.render_frame(&frames),
        _ => Frame::silence(),
    };
    assert_eq!(out, Frame::new(-500, 8000));
    let held = shared.lock().unwrap();
    let out = match callback.try_lock() {
        Ok(engine) => engine.render_frame(&HashMap::new()),
        Err(_) => Frame::silence(),
    };
    assert_eq!(out, Frame::silence());
    assert!(held.is_playing());
}
