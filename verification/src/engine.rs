//! The engine: a mixer, a device session and the playback state between
//! them.
//!
//! The engine decides; it does not touch the device. `play`, `stop` and
//! `stream_failed` answer with the `StreamAction` that the caller owes the
//! device stream. Stopping tears the stream down: the caller first silences
//! the callback, then releases the stream, and keeps the device for the next
//! `play`, which starts a new stream on the same configuration.

use vstd::prelude::*;
use std::collections::HashMap;
use crate::error::AudioError;
use crate::frame::{Frame, Side};
use crate::mixer::{Mixer, MixerState};
use crate::session::{negotiated, DeviceSession, HostProbe};

verus! {

/// Where the engine stands.
#[derive(Clone, Copy, Debug, PartialEq, Eq, Structural)]
pub enum EngineState {
    /// No configuration has been negotiated yet.
    Uninitialized,
    /// A configuration is bound and no stream has run on it.
    Idle,
    /// A stream is live.
    Playing,
    /// The stream was halted; the configuration is kept.
    Stopped,
}

/// What the caller has to do with the device stream.
#[derive(Clone, Copy, Debug, PartialEq, Eq, Structural)]
pub enum StreamAction {
    /// Nothing: the stream is as it should be.
    Unchanged,
    /// Start a stream on the session's configuration.
    Start,
    /// Silence the callback, then release the stream.
    Halt,
}

/// Whether a stream may run in the session.
#[derive(Clone, Copy, Debug, PartialEq, Eq, Structural)]
enum Playback {
    Idle,
    Playing,
    Stopped,
}

/// What an engine holds, as a mathematical value.
pub struct EngineView {
    pub mixer: MixerState,
    pub state: EngineState,
    /// The negotiated session, once there is one.
    pub session: Option<DeviceSession>,
    /// Whether a stream failure waits to be reported.
    pub failure_pending: bool,
}

impl EngineView {
    /// A session is bound exactly when the engine has left `Uninitialized`,
    /// so no stream is live without one; and the mixer is valid.
    pub open spec fn wf(self) -> bool {
        &&& self.mixer.wf()
        &&& (self.state == EngineState::Uninitialized <==> self.session is None)
    }

    /// The view of a new engine.
    pub open spec fn initial() -> EngineView {
        EngineView {
            mixer: MixerState::empty(),
            state: EngineState::Uninitialized,
            session: None,
            failure_pending: false,
        }
    }

    /// What `initialize` answers: busy while a stream is live, else what the
    /// negotiation gives.
    pub open spec fn initialize_result(self, probe: HostProbe) -> Result<(), AudioError> {
        if self.state == EngineState::Playing {
            Err(AudioError::EngineBusy)
        } else {
            match negotiated(probe) {
                Ok(_) => Ok(()),
                Err(error) => Err(error),
            }
        }
    }

    /// The view after `initialize`: on success the new session replaces the
    /// old one and the engine is idle; on failure nothing changes.
    pub open spec fn after_initialize(self, probe: HostProbe) -> EngineView {
        if self.initialize_result(probe) is Ok {
            EngineView {
                state: EngineState::Idle,
                session: Some(negotiated(probe)->Ok_0),
                ..self
            }
        } else {
            self
        }
    }

    /// What `play` answers.
    pub open spec fn play_result(self) -> Result<StreamAction, AudioError> {
        match self.state {
            EngineState::Uninitialized => Err(AudioError::NotInitialized),
            EngineState::Playing => Ok(StreamAction::Unchanged),
            EngineState::Idle => Ok(StreamAction::Start),
            EngineState::Stopped => Ok(StreamAction::Start),
        }
    }

    /// The view after `play`.
    pub open spec fn after_play(self) -> EngineView {
        if self.state == EngineState::Uninitialized {
            self
        } else {
            EngineView { state: EngineState::Playing, ..self }
        }
    }

    /// What `stop` answers.
    pub open spec fn stop_action(self) -> StreamAction {
        if self.state == EngineState::Playing {
            StreamAction::Halt
        } else {
            StreamAction::Unchanged
        }
    }

    /// The view after `stop`.
    pub open spec fn after_stop(self) -> EngineView {
        if self.state == EngineState::Playing {
            EngineView { state: EngineState::Stopped, ..self }
        } else {
            self
        }
    }

    /// The view after the live stream reported a failure: the engine is
    /// stopped and the failure waits for the next `poll`. Without a live
    /// stream nothing changes.
    pub open spec fn after_failure(self) -> EngineView {
        if self.state == EngineState::Playing {
            EngineView { state: EngineState::Stopped, failure_pending: true, ..self }
        } else {
            self
        }
    }

    /// What the callback puts out on one side: the mix while playing,
    /// silence otherwise.
    pub open spec fn output(self, sources: Map<u32, Frame>, side: Side) -> int {
        if self.state == EngineState::Playing {
            self.mixer.mix(sources, side)
        } else {
            0
        }
    }
}

/// A mixer bound to a device session, with the state of its playback.
pub struct AudioEngine {
    mixer: Mixer,
    session: Option<(DeviceSession, Playback)>,
    failed: bool,
}

impl View for AudioEngine {
    type V = EngineView;

    closed spec fn view(&self) -> EngineView {
        EngineView {
            mixer: self.mixer@,
            state: match self.session {
                None => EngineState::Uninitialized,
                Some((_, Playback::Idle)) => EngineState::Idle,
                Some((_, Playback::Playing)) => EngineState::Playing,
                Some((_, Playback::Stopped)) => EngineState::Stopped,
            },
            session: match self.session {
                None => None,
                Some((session, _)) => Some(session),
            },
            failure_pending: self.failed,
        }
    }
}

impl AudioEngine {
    /// An engine without a session, with an empty mixer.
    pub fn new() -> (engine: AudioEngine)
        ensures
            engine@ == EngineView::initial(),
            engine@.wf(),
    {
        AudioEngine { mixer: Mixer::new(), session: None, failed: false }
    }

    /// Binds the engine to what the host answered. While a stream is live
    /// the engine is busy; after a failure the earlier session stands.
    pub fn initialize(&mut self, probe: HostProbe) -> (result: Result<(), AudioError>)
        ensures
            result == old(self)@.initialize_result(probe),
            final(self)@ == old(self)@.after_initialize(probe),
    {
        if self.is_playing() {
            return Err(AudioError::EngineBusy);
        }
        match DeviceSession::negotiate(probe) {
            Ok(session) => {
                self.session = Some((session, Playback::Idle));
                Ok(())
            },
            Err(error) => Err(error),
        }
    }

    /// Whether a stream is live.
    pub fn is_playing(&self) -> (playing: bool)
        ensures
            playing == (self@.state == EngineState::Playing),
    {
        match self.session {
            Some((_, Playback::Playing)) => true,
            _ => false,
        }
    }

    /// Starts playback on the bound session. While playing already, nothing
    /// is to be done.
    pub fn play(&mut self) -> (result: Result<StreamAction, AudioError>)
        ensures
            result == old(self)@.play_result(),
            final(self)@ == old(self)@.after_play(),
    {
        match self.session {
            None => Err(AudioError::NotInitialized),
            Some((_, Playback::Playing)) => Ok(StreamAction::Unchanged),
            Some((session, _)) => {
                self.session = Some((session, Playback::Playing));
                Ok(StreamAction::Start)
            },
        }
    }

    /// Halts playback and keeps the session. While not playing, nothing is
    /// to be done.
    pub fn stop(&mut self) -> (action: StreamAction)
        ensures
            action == old(self)@.stop_action(),
            final(self)@ == old(self)@.after_stop(),
    {
        match self.session {
            Some((session, Playback::Playing)) => {
                self.session = Some((session, Playback::Stopped));
                StreamAction::Halt
            },
            _ => StreamAction::Unchanged,
        }
    }

    /// Takes note that the live stream failed: the engine stops, and the
    /// failure is kept for the next `poll`. The stream's error callback
    /// cannot report to anyone itself.
    pub fn stream_failed(&mut self) -> (action: StreamAction)
        ensures
            action == old(self)@.stop_action(),
            final(self)@ == old(self)@.after_failure(),
    {
        match self.session {
            Some((session, Playback::Playing)) => {
                self.session = Some((session, Playback::Stopped));
                self.failed = true;
                StreamAction::Halt
            },
            _ => StreamAction::Unchanged,
        }
    }

    /// Reports a stream failure that has not been reported yet, once.
    pub fn poll(&mut self) -> (result: Result<(), AudioError>)
        ensures
            old(self)@.failure_pending ==> result == Err::<(), AudioError>(
                AudioError::StreamFailure,
            ),
            !old(self)@.failure_pending ==> result == Ok::<(), AudioError>(()),
            final(self)@ == (EngineView { failure_pending: false, ..old(self)@ }),
    {
        if self.failed {
            self.failed = false;
            Err(AudioError::StreamFailure)
        } else {
            Ok(())
        }
    }

    /// Where the engine stands.
    pub fn state(&self) -> (state: EngineState)
        ensures
            state == self@.state,
            self@.wf(),
    {
        proof {
            use_type_invariant(&self.mixer);
        }
        match self.session {
            None => EngineState::Uninitialized,
            Some((_, Playback::Idle)) => EngineState::Idle,
            Some((_, Playback::Playing)) => EngineState::Playing,
            Some((_, Playback::Stopped)) => EngineState::Stopped,
        }
    }

    /// The negotiated session, once there is one.
    pub fn session(&self) -> (session: Option<DeviceSession>)
        ensures
            session == self@.session,
    {
        match self.session {
            None => None,
            Some((session, _)) => Some(session),
        }
    }

    /// The engine's mixer, to read.
    pub fn mixer(&self) -> (mixer: &Mixer)
        ensures
            mixer@ == self@.mixer,
    {
        &self.mixer
    }

    /// The engine's mixer, to change. Playback and session stay as they
    /// are.
    pub fn mixer_mut(&mut self) -> (mixer: &mut Mixer)
        ensures
            mixer@ == old(self)@.mixer,
            final(self)@ == (EngineView { mixer: final(mixer)@, ..old(self)@ }),
    {
        &mut self.mixer
    }

    /// The next output frame, as the stream's callback needs it: the mix of
    /// `sources` while playing, silence otherwise. It takes no lock and
    /// allocates nothing.
    pub fn render_frame(&self, sources: &HashMap<u32, Frame>) -> (out: Frame)
        ensures
            out.left == self@.output(sources@, Side::Left),
            out.right == self@.output(sources@, Side::Right),
    {
        if self.is_playing() {
            self.mixer.mix_frame(sources)
        } else {
            Frame::silence()
        }
    }
}

impl Default for AudioEngine {
    fn default() -> (engine: AudioEngine)
        ensures
            engine@ == EngineView::initial(),
    {
        AudioEngine::new()
    }
}

} // verus!
