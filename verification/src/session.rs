//! One streaming session: the path that consumes what the service sends, and
//! the phases of the sending side from connect to close.

use crate::audio::{le_bytes, priming_frame, samples_to_bytes, CaptureError, PRIMING_SAMPLES};
use crate::protocol::{Inbound, SessionConfig, SessionError};
use crate::text::{trim_text, trimmed};
use crate::transcript::{Accumulator, AccumulatorView};
use vstd::prelude::*;
use vstd::string::*;

verus! {

/// What the receiving side has to do after one inbound event.
#[derive(Clone, Debug, PartialEq, Eq)]
pub enum ReceiveAction {
    /// Nothing; wait for the next event.
    Continue,
    /// Store and announce the new display text, then wait for the next event.
    Publish(String),
    /// Report the error; the path has ended.
    Fail(SessionError),
    /// The path has ended without an error.
    Stop,
}

/// State of the receiving side.
pub struct ReceivePathView {
    pub text: AccumulatorView,
    /// Whether further events are taken in.
    pub open: bool,
}

/// The receiving side of a session: takes inbound events one by one, in
/// arrival order, and accumulates the transcript.
#[derive(Clone, Debug, PartialEq, Eq)]
pub struct ReceivePath {
    accumulator: Accumulator,
    open: bool,
}

impl View for ReceivePath {
    type V = ReceivePathView;

    closed spec fn view(&self) -> ReceivePathView {
        ReceivePathView { text: self.accumulator@, open: self.open }
    }
}

impl ReceivePath {
    /// An open path with an empty transcript.
    pub fn new() -> (path: ReceivePath)
        ensures
            path@.open,
            path@.text.final_text == Seq::<char>::empty(),
            path@.text.pending_text == Seq::<char>::empty(),
    {
        ReceivePath { accumulator: Accumulator::new(), open: true }
    }

    pub fn is_open(&self) -> (open: bool)
        ensures
            open == self@.open,
    {
        self.open
    }

    /// The final text accumulated so far, as received.
    pub fn final_text(&self) -> (text: String)
        ensures
            text@ == self@.text.final_text,
    {
        self.accumulator.final_text()
    }

    /// Takes in one inbound event.
    ///
    /// A path that has ended stays ended. Otherwise the path ends when the
    /// message reports an error or completion, on a close frame, a transport
    /// failure or the end of the stream; whether recording is still active
    /// plays no part, so that what is in flight when recording stops still
    /// arrives. Every other message that can be decoded is a batch, with
    /// tokens or without: it is merged into the transcript and the display
    /// text is published. A message that cannot be decoded is skipped. Final
    /// text is never changed by any event.
    pub fn on_inbound(&mut self, inbound: Inbound) -> (action: ReceiveAction)
        ensures
            old(self)@.text.final_text.is_prefix_of(final(self)@.text.final_text),
            !old(self)@.open ==> action == ReceiveAction::Stop && final(self)@ == old(self)@,
            old(self)@.open ==> match inbound {
                Inbound::Message(message) => if message.carries_error() {
                    &&& action matches ReceiveAction::Fail(SessionError::Remote { code, message: text })
                    &&& code == message.reported_code()
                    &&& text@ == message.reported_text()
                    &&& !final(self)@.open
                    &&& final(self)@.text == old(self)@.text
                } else if message.finished {
                    &&& action == ReceiveAction::Stop
                    &&& !final(self)@.open
                    &&& final(self)@.text == old(self)@.text
                } else {
                    &&& action matches ReceiveAction::Publish(shown)
                    &&& shown@ == final(self)@.text.display()
                    &&& final(self)@.text == old(self)@.text.after_batch(message.tokens@)
                    &&& final(self)@.open
                },
                Inbound::Malformed | Inbound::Other => {
                    &&& action == ReceiveAction::Continue
                    &&& final(self)@ == old(self)@
                },
                Inbound::Closed | Inbound::TransportError | Inbound::End => {
                    &&& action == ReceiveAction::Stop
                    &&& !final(self)@.open
                    &&& final(self)@.text == old(self)@.text
                },
            },
    {
        if !self.open {
            return ReceiveAction::Stop;
        }
        match inbound {
            Inbound::Message(message) => {
                match message.remote_error() {
                    Some(error) => {
                        self.open = false;
                        ReceiveAction::Fail(error)
                    },
                    None => {
                        if message.finished {
                            self.open = false;
                            ReceiveAction::Stop
                        } else {
                            self.accumulator.process_batch(message.tokens.as_slice());
                            ReceiveAction::Publish(self.accumulator.display_text())
                        }
                    },
                }
            },
            Inbound::Malformed => ReceiveAction::Continue,
            Inbound::Other => ReceiveAction::Continue,
            Inbound::Closed => {
                self.open = false;
                ReceiveAction::Stop
            },
            Inbound::TransportError => {
                self.open = false;
                ReceiveAction::Stop
            },
            Inbound::End => {
                self.open = false;
                ReceiveAction::Stop
            },
        }
    }
}

/// Longest time, in milliseconds, that the sending side waits for a frame
/// before it looks at the recording state again.
pub const SEND_TICK_MS: u64 = 100;

/// Where the sending side of a session stands.
#[derive(Clone, Copy, Debug, PartialEq, Eq)]
pub enum SessionPhase {
    Connecting,
    Configuring,
    Priming,
    Streaming,
    Draining,
    Closed,
    Failed,
}

/// What happened outside since the last action.
#[derive(Clone, Debug, PartialEq, Eq)]
pub enum SessionEvent {
    /// The connection is open.
    Connected,
    /// The connection could not be opened.
    ConnectFailed(String),
    /// The configuration could not be encoded.
    ConfigEncodeFailed(String),
    /// The configuration went out.
    ConfigSent,
    /// The configuration could not be sent.
    ConfigSendFailed(String),
    /// The priming frame went out.
    PrimingSent,
    /// The priming frame could not be sent.
    PrimingFailed(String),
    /// The input device could not be captured.
    CaptureFailed(CaptureError),
    /// The capture side delivered a frame.
    Frame(Vec<i16>),
    /// The periodic wake-up came and no frame was waiting.
    Tick,
    /// A frame could not be sent.
    AudioSendFailed,
    /// The receiving side has ended; the text is its final text.
    ReceiveFinished(String),
}

/// What the application has to do next.
#[derive(Clone, Debug, PartialEq, Eq)]
pub enum SessionAction {
    /// Encode this configuration and send it as a text message.
    SendConfig(SessionConfig),
    /// Send these bytes, the priming frame, as a binary message.
    SendPriming(Vec<u8>),
    /// Send these bytes, a captured frame, as a binary message.
    SendAudio(Vec<u8>),
    /// Start the capture and the receiving side, then wait for frames and ticks.
    StartStreaming,
    /// Wait for the next frame or tick.
    Wait,
    /// Stop the capture, send a close frame and wait for the receiving side.
    Drain,
    /// The session is closed; this is its transcript. The capture is to be
    /// stopped and the connection closed, unless draining has done so already.
    Complete(String),
    /// The session has failed. The capture is to be stopped and the
    /// connection closed, as far as they exist.
    Abort(SessionError),
    /// The event does not belong to the phase; there is nothing to do.
    Ignore,
}

impl SessionPhase {
    /// No event leads out of a terminal phase.
    pub open spec fn is_terminal(self) -> bool {
        self == SessionPhase::Closed || self == SessionPhase::Failed
    }

    /// The phase that follows `self` on `event`, where `recording` says
    /// whether recording is still active.
    pub open spec fn next(self, recording: bool, event: SessionEvent) -> SessionPhase {
        match (self, event) {
            (SessionPhase::Connecting, SessionEvent::Connected) => SessionPhase::Configuring,
            (SessionPhase::Connecting, SessionEvent::ConnectFailed(_)) => SessionPhase::Failed,
            (SessionPhase::Configuring, SessionEvent::ConfigSent) => SessionPhase::Priming,
            (SessionPhase::Configuring, SessionEvent::ConfigEncodeFailed(_)) => SessionPhase::Failed,
            (SessionPhase::Configuring, SessionEvent::ConfigSendFailed(_)) => SessionPhase::Failed,
            (SessionPhase::Priming, SessionEvent::PrimingSent) => SessionPhase::Streaming,
            (SessionPhase::Priming, SessionEvent::PrimingFailed(_)) => SessionPhase::Failed,
            (SessionPhase::Streaming, SessionEvent::CaptureFailed(_)) => SessionPhase::Failed,
            (SessionPhase::Streaming, SessionEvent::AudioSendFailed) => SessionPhase::Draining,
            (SessionPhase::Streaming, SessionEvent::Frame(_)) => if recording {
                SessionPhase::Streaming
            } else {
                SessionPhase::Draining
            },
            (SessionPhase::Streaming, SessionEvent::Tick) => if recording {
                SessionPhase::Streaming
            } else {
                SessionPhase::Draining
            },
            (SessionPhase::Streaming, SessionEvent::ReceiveFinished(_)) => SessionPhase::Closed,
            (SessionPhase::Draining, SessionEvent::ReceiveFinished(_)) => SessionPhase::Closed,
            _ => self,
        }
    }
}

/// The sending side of one session. A session is used for one recording
/// cycle and then discarded.
#[derive(Clone, Debug, PartialEq, Eq)]
pub struct TranscriptionSession {
    phase: SessionPhase,
    api_key: String,
}

impl TranscriptionSession {
    pub closed spec fn phase(self) -> SessionPhase {
        self.phase
    }

    /// The credential the session was created with.
    pub closed spec fn credential(self) -> Seq<char> {
        self.api_key@
    }

    /// A session that is about to connect.
    pub fn new(api_key: String) -> (session: TranscriptionSession)
        ensures
            session.phase() == SessionPhase::Connecting,
            session.credential() == api_key@,
    {
        TranscriptionSession { phase: SessionPhase::Connecting, api_key }
    }

    pub fn current_phase(&self) -> (phase: SessionPhase)
        ensures
            phase == self.phase(),
    {
        self.phase
    }

    /// Advances the session by one event and says what to do next.
    ///
    /// The phase moves as `SessionPhase::next` says, and the credential never
    /// changes. An event that does not belong to the phase is ignored, so a
    /// closed or failed session stays as it is. While streaming, the session
    /// fails when the input device cannot be captured, starts draining as
    /// soon as an event finds recording inactive, and closes when the
    /// receiving side ends, as it does while draining; the transcript is then
    /// the final text without surrounding whitespace.
    pub fn handle(&mut self, recording: bool, event: SessionEvent) -> (action: SessionAction)
        ensures
            final(self).phase() == old(self).phase().next(recording, event),
            final(self).credential() == old(self).credential(),
            match (old(self).phase(), event) {
                (SessionPhase::Connecting, SessionEvent::Connected) => {
                    &&& action matches SessionAction::SendConfig(config)
                    &&& config.api_key@ == old(self).credential()
                    &&& config.model@ == crate::protocol::model_text()
                    &&& config.audio_format@ == crate::protocol::audio_format_text()
                    &&& config.sample_rate == crate::audio::TARGET_SAMPLE_RATE
                    &&& config.num_channels == 1
                },
                (SessionPhase::Connecting, SessionEvent::ConnectFailed(report)) => {
                    &&& action matches SessionAction::Abort(SessionError::ConnectFailed(text))
                    &&& text@ == report@
                },
                (SessionPhase::Configuring, SessionEvent::ConfigSent) => {
                    &&& action matches SessionAction::SendPriming(bytes)
                    &&& bytes@ == le_bytes(Seq::new(PRIMING_SAMPLES as nat, |k: int| 0i16))
                },
                (SessionPhase::Configuring, SessionEvent::ConfigEncodeFailed(report)) => {
                    &&& action matches SessionAction::Abort(SessionError::ConfigEncodeFailed(text))
                    &&& text@ == report@
                },
                (SessionPhase::Configuring, SessionEvent::ConfigSendFailed(report)) => {
                    &&& action matches SessionAction::Abort(SessionError::ConfigSendFailed(text))
                    &&& text@ == report@
                },
                (SessionPhase::Priming, SessionEvent::PrimingSent) => action
                    == SessionAction::StartStreaming,
                (SessionPhase::Priming, SessionEvent::PrimingFailed(report)) => {
                    &&& action matches SessionAction::Abort(SessionError::PrimingFailed(text))
                    &&& text@ == report@
                },
                (SessionPhase::Streaming, SessionEvent::CaptureFailed(error)) => {
                    &&& action matches SessionAction::Abort(SessionError::CaptureFailed(text))
                    &&& text@ == error.text()
                },
                (SessionPhase::Streaming, SessionEvent::AudioSendFailed) => action
                    == SessionAction::Drain,
                (SessionPhase::Streaming, SessionEvent::Frame(samples)) => if recording {
                    &&& action matches SessionAction::SendAudio(bytes)
                    &&& bytes@ == le_bytes(samples@)
                } else {
                    action == SessionAction::Drain
                },
                (SessionPhase::Streaming, SessionEvent::Tick) => if recording {
                    action == SessionAction::Wait
                } else {
                    action == SessionAction::Drain
                },
                (SessionPhase::Streaming, SessionEvent::ReceiveFinished(text)) => {
                    &&& action matches SessionAction::Complete(transcript)
                    &&& transcript@ == trimmed(text@)
                },
                (SessionPhase::Draining, SessionEvent::ReceiveFinished(text)) => {
                    &&& action matches SessionAction::Complete(transcript)
                    &&& transcript@ == trimmed(text@)
                },
                _ => action == SessionAction::Ignore,
            },
    {
        match self.phase {
            SessionPhase::Connecting => match event {
                SessionEvent::Connected => {
                    self.phase = SessionPhase::Configuring;
                    SessionAction::SendConfig(SessionConfig::new(self.api_key.clone()))
                },
                SessionEvent::ConnectFailed(report) => {
                    self.phase = SessionPhase::Failed;
                    SessionAction::Abort(SessionError::ConnectFailed(report))
                },
                _ => SessionAction::Ignore,
            },
            SessionPhase::Configuring => match event {
                SessionEvent::ConfigSent => {
                    self.phase = SessionPhase::Priming;
                    let silence = priming_frame();
                    SessionAction::SendPriming(samples_to_bytes(silence.as_slice()))
                },
                SessionEvent::ConfigEncodeFailed(report) => {
                    self.phase = SessionPhase::Failed;
                    SessionAction::Abort(SessionError::ConfigEncodeFailed(report))
                },
                SessionEvent::ConfigSendFailed(report) => {
                    self.phase = SessionPhase::Failed;
                    SessionAction::Abort(SessionError::ConfigSendFailed(report))
                },
                _ => SessionAction::Ignore,
            },
            SessionPhase::Priming => match event {
                SessionEvent::PrimingSent => {
                    self.phase = SessionPhase::Streaming;
                    SessionAction::StartStreaming
                },
                SessionEvent::PrimingFailed(report) => {
                    self.phase = SessionPhase::Failed;
                    SessionAction::Abort(SessionError::PrimingFailed(report))
                },
                _ => SessionAction::Ignore,
            },
            SessionPhase::Streaming => match event {
                SessionEvent::CaptureFailed(error) => {
                    self.phase = SessionPhase::Failed;
                    SessionAction::Abort(SessionError::CaptureFailed(error.message()))
                },
                SessionEvent::AudioSendFailed => {
                    self.phase = SessionPhase::Draining;
                    SessionAction::Drain
                },
                SessionEvent::Frame(samples) => {
                    if recording {
                        SessionAction::SendAudio(samples_to_bytes(samples.as_slice()))
                    } else {
                        self.phase = SessionPhase::Draining;
                        SessionAction::Drain
                    }
                },
                SessionEvent::Tick => {
                    if recording {
                        SessionAction::Wait
                    } else {
                        self.phase = SessionPhase::Draining;
                        SessionAction::Drain
                    }
                },
                SessionEvent::ReceiveFinished(text) => {
                    self.phase = SessionPhase::Closed;
                    SessionAction::Complete(trim_text(text.as_str()))
                },
                _ => SessionAction::Ignore,
            },
            SessionPhase::Draining => match event {
                SessionEvent::ReceiveFinished(text) => {
                    self.phase = SessionPhase::Closed;
                    SessionAction::Complete(trim_text(text.as_str()))
                },
                _ => SessionAction::Ignore,
            },
            SessionPhase::Closed => SessionAction::Ignore,
            SessionPhase::Failed => SessionAction::Ignore,
        }
    }
}

/// A closed or failed session stays as it is, whatever happens.
pub proof fn lemma_terminal_phase_absorbs(phase: SessionPhase, recording: bool, event: SessionEvent)
    requires
        phase.is_terminal(),
    ensures
        phase.next(recording, event) == phase,
{
}

/// A streaming session leaves streaming on the first frame or tick that finds
/// recording inactive, and never while recording is active and sending works.
pub proof fn lemma_streaming_follows_recording(recording: bool, event: SessionEvent)
    requires
        event is Frame || event is Tick,
    ensures
        SessionPhase::Streaming.next(recording, event) == (if recording {
            SessionPhase::Streaming
        } else {
            SessionPhase::Draining
        }),
{
}

} // verus!
