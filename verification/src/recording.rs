//! The recording state: whether a cycle is running, since when, and the
//! latest display text.

use vstd::prelude::*;
use vstd::string::*;

verus! {

/// What a recording state holds.
pub struct RecordingStateView {
    pub active: bool,
    /// When the running cycle began, in milliseconds since the epoch.
    pub started_at: Option<u64>,
    /// The latest display text.
    pub transcript: Seq<char>,
}

impl RecordingStateView {
    /// Not recording, never started, nothing transcribed.
    pub open spec fn idle() -> RecordingStateView {
        RecordingStateView { active: false, started_at: None, transcript: Seq::empty() }
    }

    /// The state after `start` with a credential of `credential_len`
    /// characters at time `now_ms`.
    pub open spec fn after_start(self, credential_len: nat, now_ms: u64) -> RecordingStateView {
        if credential_len == 0 || self.active {
            self
        } else {
            RecordingStateView { active: true, started_at: Some(now_ms), ..self }
        }
    }

    /// The state after `stop`.
    pub open spec fn after_stop(self) -> RecordingStateView {
        RecordingStateView { active: false, ..self }
    }

    /// The state after `cancel`.
    pub open spec fn after_cancel(self) -> RecordingStateView {
        RecordingStateView::idle()
    }
}

/// Why recording did not start.
#[derive(Clone, Copy, Debug, PartialEq, Eq)]
pub enum StartError {
    /// No credential has been configured.
    NoCredential,
}

pub open spec fn no_credential_text() -> Seq<char> {
    "SONIOX API key not set"@
}

impl StartError {
    pub fn message(&self) -> (message: String)
        ensures
            message@ == no_credential_text(),
    {
        "SONIOX API key not set".to_owned()
    }
}

/// What a successful `start` did.
#[derive(Clone, Copy, Debug, PartialEq, Eq)]
pub enum StartOutcome {
    /// Recording became active; a session has to be launched.
    Started,
    /// Recording was active already; nothing changed and nothing is to be launched.
    AlreadyActive,
}

/// Whether recording is active, since when, and the latest display text.
#[derive(Clone, Debug, PartialEq, Eq)]
pub struct RecordingState {
    active: bool,
    session_started_at: Option<u64>,
    display_transcript: String,
}

impl View for RecordingState {
    type V = RecordingStateView;

    closed spec fn view(&self) -> RecordingStateView {
        RecordingStateView {
            active: self.active,
            started_at: self.session_started_at,
            transcript: self.display_transcript@,
        }
    }
}

impl RecordingState {
    pub fn new() -> (state: RecordingState)
        ensures
            state@ == RecordingStateView::idle(),
    {
        RecordingState { active: false, session_started_at: None, display_transcript: String::new() }
    }

    /// Begins a recording cycle at `now_ms`. Fails, changing nothing, when
    /// `credential` is empty; changes nothing either when recording is
    /// active already.
    pub fn start(&mut self, credential: &str, now_ms: u64) -> (started: Result<
        StartOutcome,
        StartError,
    >)
        ensures
            final(self)@ == old(self)@.after_start(credential@.len(), now_ms),
            started == (if credential@.len() == 0 {
                Err::<StartOutcome, StartError>(StartError::NoCredential)
            } else if old(self)@.active {
                Ok::<StartOutcome, StartError>(StartOutcome::AlreadyActive)
            } else {
                Ok::<StartOutcome, StartError>(StartOutcome::Started)
            }),
    {
        if credential.is_empty() {
            Err(StartError::NoCredential)
        } else if self.active {
            Ok(StartOutcome::AlreadyActive)
        } else {
            self.active = true;
            self.session_started_at = Some(now_ms);
            Ok(StartOutcome::Started)
        }
    }

    /// Ends the recording cycle and says whether one was running.
    pub fn stop(&mut self) -> (was_active: bool)
        ensures
            was_active == old(self)@.active,
            final(self)@ == old(self)@.after_stop(),
    {
        let was_active = self.active;
        self.active = false;
        was_active
    }

    /// Aborts: whatever the state was, recording is inactive afterwards, the
    /// start time is forgotten and the transcript is empty.
    pub fn cancel(&mut self)
        ensures
            final(self)@ == old(self)@.after_cancel(),
    {
        self.active = false;
        self.session_started_at = None;
        self.display_transcript = String::new();
    }

    pub fn is_active(&self) -> (active: bool)
        ensures
            active == self@.active,
    {
        self.active
    }

    pub fn started_at(&self) -> (started_at: Option<u64>)
        ensures
            started_at == self@.started_at,
    {
        self.session_started_at
    }

    pub fn transcript(&self) -> (text: String)
        ensures
            text@ == self@.transcript,
    {
        self.display_transcript.clone()
    }

    /// Replaces the display text.
    pub fn set_transcript(&mut self, text: String)
        ensures
            final(self)@ == (RecordingStateView { transcript: text@, ..old(self)@ }),
    {
        self.display_transcript = text;
    }

    /// Hands out the display text and leaves an empty one behind.
    pub fn take_transcript(&mut self) -> (text: String)
        ensures
            text@ == old(self)@.transcript,
            final(self)@ == (RecordingStateView { transcript: Seq::empty(), ..old(self)@ }),
    {
        let mut text = String::new();
        core::mem::swap(&mut self.display_transcript, &mut text);
        text
    }
}

/// Starting twice is starting once: a start on an active state changes
/// nothing, whatever the credential and the time, and so does a start without
/// a credential on any state.
pub proof fn lemma_start_idempotent(
    state: RecordingStateView,
    credential_len: nat,
    now_ms: u64,
    later_len: nat,
    later_ms: u64,
)
    ensures
        state.active ==> state.after_start(credential_len, now_ms) == state,
        credential_len == 0 ==> state.after_start(credential_len, now_ms) == state,
        state.after_start(credential_len, now_ms).active ==> state.after_start(
            credential_len,
            now_ms,
        ).after_start(later_len, later_ms) == state.after_start(credential_len, now_ms),
{
}

/// Stopping twice is stopping once, and a stop on an inactive state changes
/// nothing.
pub proof fn lemma_stop_idempotent(state: RecordingStateView)
    ensures
        !state.active ==> state.after_stop() == state,
        state.after_stop().after_stop() == state.after_stop(),
        !state.after_stop().active,
{
}

/// Cancelling twice is cancelling once, and a cancel changes nothing on an
/// inactive state that holds no transcript and no start time. The result is
/// always inactive with an empty transcript.
pub proof fn lemma_cancel_idempotent(state: RecordingStateView)
    ensures
        state.after_cancel().after_cancel() == state.after_cancel(),
        !state.active && state.transcript.len() == 0 && state.started_at is None
            ==> state.after_cancel() == state,
        !state.after_cancel().active,
        state.after_cancel().transcript.len() == 0,
{
    if !state.active && state.transcript.len() == 0 && state.started_at is None {
        assert(state.transcript =~= Seq::<char>::empty());
    }
}

} // verus!
