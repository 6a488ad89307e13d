//! The decisions taken on every trigger: which state follows, and what the
//! application has to show, announce, launch or type.

use crate::protocol::SessionError;
use crate::recording::{RecordingState, RecordingStateView, StartError, StartOutcome};
use crate::text::{trim_text, trimmed};
use vstd::prelude::*;
use vstd::string::*;

verus! {

/// Time, in milliseconds, to let pass between hiding the window and typing,
/// so that the shortcut's keys are up and the focus is back.
pub const TYPE_DELAY_MS: u64 = 280;

/// Something the application has to do on behalf of this crate. Effects are
/// carried out in the order in which they are handed out.
#[derive(Clone, Debug, PartialEq, Eq)]
pub enum Effect {
    /// Announce that recording became active or inactive.
    RecordingStateChanged(bool),
    /// Announce a new display text; the text is not final.
    TranscriptionUpdated(String),
    /// Announce the transcript of a session that has ended.
    TranscriptionFinished(String),
    /// Announce that a session failed.
    TranscriptionFailed(String),
    /// Announce that the cycle ended with no text to use.
    FinishWithoutText,
    /// Show the window and give it the focus, so that a credential can be entered.
    ShowSetupWindow,
    /// Show the window without taking the focus.
    ShowPopup,
    /// Hide the window.
    HideWindow,
    /// Type this text at the cursor.
    TypeText(String),
    /// Start capturing and open a session with this credential, on behalf of
    /// the recording cycle with this number.
    LaunchSession { api_key: String, cycle: u64 },
}

/// An effect with its texts as sequences of characters.
pub enum EffectView {
    RecordingStateChanged(bool),
    TranscriptionUpdated(Seq<char>),
    TranscriptionFinished(Seq<char>),
    TranscriptionFailed(Seq<char>),
    FinishWithoutText,
    ShowSetupWindow,
    ShowPopup,
    HideWindow,
    TypeText(Seq<char>),
    LaunchSession { api_key: Seq<char>, cycle: u64 },
}

impl View for Effect {
    type V = EffectView;

    open spec fn view(&self) -> EffectView {
        match self {
            Effect::RecordingStateChanged(active) => EffectView::RecordingStateChanged(*active),
            Effect::TranscriptionUpdated(text) => EffectView::TranscriptionUpdated(text@),
            Effect::TranscriptionFinished(text) => EffectView::TranscriptionFinished(text@),
            Effect::TranscriptionFailed(text) => EffectView::TranscriptionFailed(text@),
            Effect::FinishWithoutText => EffectView::FinishWithoutText,
            Effect::ShowSetupWindow => EffectView::ShowSetupWindow,
            Effect::ShowPopup => EffectView::ShowPopup,
            Effect::HideWindow => EffectView::HideWindow,
            Effect::TypeText(text) => EffectView::TypeText(text@),
            Effect::LaunchSession { api_key, cycle } => EffectView::LaunchSession {
                api_key: api_key@,
                cycle: *cycle,
            },
        }
    }
}

/// The views of a list of effects, in order.
pub open spec fn effect_views(effects: Seq<Effect>) -> Seq<EffectView> {
    Seq::new(effects.len(), |i: int| effects[i]@)
}

/// How a session ended.
#[derive(Clone, Debug, PartialEq, Eq)]
pub enum SessionOutcome {
    /// The session closed; this is its transcript.
    Completed(String),
    /// The session failed.
    Failed(SessionError),
}

impl SessionOutcome {
    /// What is announced for the outcome: the transcript of a completed
    /// session, or the text of the error.
    pub open spec fn announcement(self) -> EffectView {
        match self {
            SessionOutcome::Completed(transcript) => EffectView::TranscriptionFinished(
                transcript@,
            ),
            SessionOutcome::Failed(error) => EffectView::TranscriptionFailed(error.text()),
        }
    }
}

/// What the application state holds.
pub struct AppStateView {
    pub recording: RecordingStateView,
    pub api_key: Seq<char>,
    /// Number of the latest recording cycle. A session belongs to the cycle
    /// that launched it, and is heard only while that cycle is the latest.
    pub cycle: u64,
}

impl AppStateView {
    /// The number that the next cycle gets.
    pub open spec fn next_cycle(self) -> u64 {
        if self.cycle == u64::MAX {
            0
        } else {
            (self.cycle + 1) as u64
        }
    }

    /// Whether a start trigger begins a cycle: a credential is configured
    /// and recording is inactive.
    pub open spec fn can_start(self) -> bool {
        self.api_key.len() > 0 && !self.recording.active
    }

    /// The announcement of the state change, if any, that ends a cycle.
    pub open spec fn deactivation(self) -> Seq<EffectView> {
        if self.recording.active {
            seq![EffectView::RecordingStateChanged(false)]
        } else {
            Seq::empty()
        }
    }

    /// The request to type `text`, if anything is left of it without
    /// surrounding whitespace.
    pub open spec fn typing(text: Seq<char>) -> Seq<EffectView> {
        if trimmed(text).len() > 0 {
            seq![EffectView::TypeText(trimmed(text))]
        } else {
            Seq::empty()
        }
    }

    /// The state after the start command at `now_ms`.
    pub open spec fn after_start(self, now_ms: u64) -> AppStateView {
        if self.can_start() {
            AppStateView {
                recording: self.recording.after_start(self.api_key.len(), now_ms),
                cycle: self.next_cycle(),
                ..self
            }
        } else {
            self
        }
    }

    /// What the start command asks for when it succeeds.
    pub open spec fn start_effects(self) -> Seq<EffectView> {
        if self.can_start() {
            seq![
                EffectView::RecordingStateChanged(true),
                EffectView::LaunchSession { api_key: self.api_key, cycle: self.next_cycle() },
            ]
        } else {
            Seq::empty()
        }
    }

    /// The state after the stop command.
    pub open spec fn after_stop(self) -> AppStateView {
        AppStateView { recording: self.recording.after_stop(), ..self }
    }

    /// The state after the cancel command. The cycle number moves on, so that
    /// a session of the cancelled cycle is no longer heard.
    pub open spec fn after_cancel(self) -> AppStateView {
        AppStateView {
            recording: self.recording.after_cancel(),
            cycle: self.next_cycle(),
            ..self
        }
    }

    /// What the cancel command asks for.
    pub open spec fn cancel_effects() -> Seq<EffectView> {
        seq![
            EffectView::RecordingStateChanged(false),
            EffectView::FinishWithoutText,
            EffectView::HideWindow,
        ]
    }

    /// The state after the shortcut at `now_ms`.
    pub open spec fn after_toggle(self, now_ms: u64) -> AppStateView {
        if self.recording.active {
            AppStateView {
                recording: RecordingStateView {
                    active: false,
                    transcript: Seq::empty(),
                    ..self.recording
                },
                ..self
            }
        } else if self.can_start() {
            AppStateView {
                recording: RecordingStateView {
                    active: true,
                    started_at: Some(now_ms),
                    transcript: Seq::empty(),
                },
                cycle: self.next_cycle(),
                ..self
            }
        } else {
            self
        }
    }

    /// What the shortcut asks for.
    pub open spec fn toggle_effects(self) -> Seq<EffectView> {
        if self.recording.active {
            seq![
                EffectView::RecordingStateChanged(false),
                EffectView::HideWindow,
                EffectView::FinishWithoutText,
            ] + AppStateView::typing(self.recording.transcript)
        } else if self.can_start() {
            seq![
                EffectView::ShowPopup,
                EffectView::RecordingStateChanged(true),
                EffectView::LaunchSession { api_key: self.api_key, cycle: self.next_cycle() },
            ]
        } else {
            seq![EffectView::ShowSetupWindow]
        }
    }

    /// Whether the session of `cycle` is to go on recording: its cycle is the
    /// latest one and recording is active.
    pub open spec fn records(self, cycle: u64) -> bool {
        self.recording.active && self.cycle == cycle
    }

    /// The state after the session of `cycle` published `text`.
    pub open spec fn after_publish(self, cycle: u64, text: Seq<char>) -> AppStateView {
        if self.records(cycle) {
            AppStateView {
                recording: RecordingStateView { transcript: text, ..self.recording },
                ..self
            }
        } else {
            self
        }
    }

    /// What is asked for when the session of `cycle` publishes `text`.
    pub open spec fn publish_effects(self, cycle: u64, text: Seq<char>) -> Seq<EffectView> {
        if self.records(cycle) {
            seq![EffectView::TranscriptionUpdated(text)]
        } else {
            Seq::empty()
        }
    }

    /// The state after the session of `cycle` ended.
    pub open spec fn after_session_end(self, cycle: u64) -> AppStateView {
        if self.cycle == cycle {
            self.after_stop()
        } else {
            self
        }
    }

    /// What is asked for when the session of `cycle` ends with `outcome`.
    pub open spec fn session_end_effects(self, cycle: u64, outcome: SessionOutcome) -> Seq<
        EffectView,
    > {
        if self.cycle == cycle {
            self.deactivation() + seq![outcome.announcement()]
        } else {
            Seq::empty()
        }
    }
}

/// The recording state together with the configured credential. One value of
/// this type exists per application; every trigger goes through it.
#[derive(Clone, Debug, PartialEq, Eq)]
pub struct AppState {
    recording: RecordingState,
    soniox_api_key: String,
    cycle: u64,
}

impl View for AppState {
    type V = AppStateView;

    closed spec fn view(&self) -> AppStateView {
        AppStateView {
            recording: self.recording@,
            api_key: self.soniox_api_key@,
            cycle: self.cycle,
        }
    }
}

impl AppState {
    /// Not recording, with no credential.
    pub fn new() -> (state: AppState)
        ensures
            state@ == (AppStateView {
                recording: RecordingStateView::idle(),
                api_key: Seq::empty(),
                cycle: 0,
            }),
    {
        AppState { recording: RecordingState::new(), soniox_api_key: String::new(), cycle: 0 }
    }

    fn bump_cycle(&mut self)
        ensures
            final(self)@ == (AppStateView { cycle: old(self)@.next_cycle(), ..old(self)@ }),
    {
        self.cycle = if self.cycle == u64::MAX {
            0
        } else {
            self.cycle + 1
        };
    }

    /// Replaces the credential.
    pub fn set_api_key(&mut self, api_key: String)
        ensures
            final(self)@ == (AppStateView { api_key: api_key@, ..old(self)@ }),
    {
        self.soniox_api_key = api_key;
    }

    /// Whether recording is active.
    pub fn get_recording_state(&self) -> (active: bool)
        ensures
            active == self@.recording.active,
    {
        self.recording.is_active()
    }

    /// Whether the session of `cycle` is to go on recording.
    pub fn is_recording_cycle(&self, cycle: u64) -> (recording: bool)
        ensures
            recording == self@.records(cycle),
    {
        self.recording.is_active() && self.cycle == cycle
    }

    /// The latest display text.
    pub fn latest_transcription(&self) -> (text: String)
        ensures
            text@ == self@.recording.transcript,
    {
        self.recording.transcript()
    }

    /// When the latest cycle began, unless it was cancelled.
    pub fn last_start_ms(&self) -> (started_at: Option<u64>)
        ensures
            started_at == self@.recording.started_at,
    {
        self.recording.started_at()
    }

    /// The start command. Without a credential it fails and changes nothing.
    /// While recording is active it succeeds, changes nothing and asks for
    /// nothing. Otherwise a new cycle begins at `now_ms`: recording becomes
    /// active, which is announced, and one session is launched.
    pub fn start_recording(&mut self, now_ms: u64) -> (started: Result<Vec<Effect>, StartError>)
        ensures
            final(self)@ == old(self)@.after_start(now_ms),
            started is Err <==> old(self)@.api_key.len() == 0,
            started matches Ok(effects) ==> effect_views(effects@) == old(self)@.start_effects(),
    {
        let mut effects: Vec<Effect> = Vec::new();
        match self.recording.start(self.soniox_api_key.as_str(), now_ms) {
            Err(error) => {
                return Err(error);
            },
            Ok(StartOutcome::AlreadyActive) => {},
            Ok(StartOutcome::Started) => {
                self.bump_cycle();
                effects.push(Effect::RecordingStateChanged(true));
                effects.push(
                    Effect::LaunchSession {
                        api_key: self.soniox_api_key.clone(),
                        cycle: self.cycle,
                    },
                );
            },
        }
        assert(effect_views(effects@) =~= old(self)@.start_effects());
        Ok(effects)
    }

    /// The stop command. Ends an active cycle and announces it; does and
    /// announces nothing when recording is inactive.
    pub fn stop_recording(&mut self) -> (effects: Vec<Effect>)
        ensures
            final(self)@ == old(self)@.after_stop(),
            effect_views(effects@) == old(self)@.deactivation(),
    {
        let mut effects: Vec<Effect> = Vec::new();
        if self.recording.stop() {
            effects.push(Effect::RecordingStateChanged(false));
        }
        assert(effect_views(effects@) =~= old(self)@.deactivation());
        effects
    }

    /// The cancel command. Whatever the state was, recording is inactive and
    /// the transcript empty afterwards, and the cancelled cycle's session is
    /// no longer heard. The inactive state is announced, the cycle is
    /// finished without text, and the window is hidden.
    pub fn cancel_and_hide(&mut self) -> (effects: Vec<Effect>)
        ensures
            final(self)@ == old(self)@.after_cancel(),
            effect_views(effects@) == AppStateView::cancel_effects(),
    {
        self.recording.cancel();
        self.bump_cycle();
        let mut effects: Vec<Effect> = Vec::new();
        effects.push(Effect::RecordingStateChanged(false));
        effects.push(Effect::FinishWithoutText);
        effects.push(Effect::HideWindow);
        assert(effect_views(effects@) =~= AppStateView::cancel_effects());
        effects
    }

    /// The shortcut. While recording is active it ends the cycle: the window
    /// is hidden, the transcript is taken out and, unless it is blank, typed
    /// without surrounding whitespace. While recording is inactive it starts
    /// a cycle at `now_ms` with an empty transcript, or asks for a credential
    /// when none is configured.
    pub fn toggle(&mut self, now_ms: u64) -> (effects: Vec<Effect>)
        ensures
            final(self)@ == old(self)@.after_toggle(now_ms),
            effect_views(effects@) == old(self)@.toggle_effects(),
    {
        let mut effects: Vec<Effect> = Vec::new();
        if self.recording.is_active() {
            self.recording.stop();
            let text = self.recording.take_transcript();
            effects.push(Effect::RecordingStateChanged(false));
            effects.push(Effect::HideWindow);
            effects.push(Effect::FinishWithoutText);
            let typed = trim_text(text.as_str());
            if !typed.as_str().is_empty() {
                effects.push(Effect::TypeText(typed));
            }
        } else {
            match self.recording.start(self.soniox_api_key.as_str(), now_ms) {
                Ok(_) => {
                    self.recording.set_transcript(String::new());
                    self.bump_cycle();
                    effects.push(Effect::ShowPopup);
                    effects.push(Effect::RecordingStateChanged(true));
                    effects.push(
                        Effect::LaunchSession {
                            api_key: self.soniox_api_key.clone(),
                            cycle: self.cycle,
                        },
                    );
                },
                Err(_) => {
                    effects.push(Effect::ShowSetupWindow);
                },
            }
        }
        assert(effect_views(effects@) =~= old(self)@.toggle_effects());
        effects
    }

    /// Takes a new display text from the session of `cycle`. While that
    /// session is to go on recording, the text is stored and announced as not
    /// final; otherwise it is dropped.
    pub fn publish_transcript(&mut self, cycle: u64, text: String) -> (effects: Vec<Effect>)
        ensures
            final(self)@ == old(self)@.after_publish(cycle, text@),
            effect_views(effects@) == old(self)@.publish_effects(cycle, text@),
    {
        let mut effects: Vec<Effect> = Vec::new();
        if self.is_recording_cycle(cycle) {
            self.recording.set_transcript(text.clone());
            effects.push(Effect::TranscriptionUpdated(text));
        }
        assert(effect_views(effects@) =~= old(self)@.publish_effects(cycle, text@));
        effects
    }

    /// Takes the end of the session of `cycle`. If that cycle is the latest
    /// one, recording is inactive afterwards, which is announced if it was
    /// not so before, and then the outcome is announced: the transcript of a
    /// completed session, or the text of the error. The end of a session of
    /// an earlier cycle changes and announces nothing.
    pub fn session_ended(&mut self, cycle: u64, outcome: SessionOutcome) -> (effects: Vec<Effect>)
        ensures
            final(self)@ == old(self)@.after_session_end(cycle),
            effect_views(effects@) == old(self)@.session_end_effects(cycle, outcome),
    {
        let mut effects: Vec<Effect> = Vec::new();
        if self.cycle == cycle {
            if self.recording.stop() {
                effects.push(Effect::RecordingStateChanged(false));
            }
            match outcome {
                SessionOutcome::Completed(transcript) => {
                    effects.push(Effect::TranscriptionFinished(transcript));
                },
                SessionOutcome::Failed(error) => {
                    effects.push(Effect::TranscriptionFailed(error.message()));
                },
            }
        }
        assert(effect_views(effects@) =~= old(self)@.session_end_effects(cycle, outcome));
        effects
    }
}

/// Whether `effects` launches a session.
pub open spec fn launches(effects: Seq<EffectView>) -> bool {
    exists|i: int| 0 <= i < effects.len() && #[trigger] effects[i] is LaunchSession
}

/// Whether `effects` hands out a transcript that is not empty.
pub open spec fn hands_out_transcript(effects: Seq<EffectView>) -> bool {
    exists|i: int|
        0 <= i < effects.len() && (#[trigger] effects[i] matches EffectView::TranscriptionFinished(
            text,
        ) && text.len() > 0)
}

/// Within one cycle only the first start launches a session: whenever a start
/// has made recording active, a further start changes nothing and launches
/// nothing, at whatever time it comes. A start without a credential changes
/// and launches nothing either.
pub proof fn lemma_one_launch_per_cycle(state: AppStateView, now_ms: u64, later_ms: u64)
    ensures
        state.can_start() ==> launches(state.start_effects()),
        state.after_start(now_ms).recording.active ==> state.after_start(now_ms).after_start(
            later_ms,
        ) == state.after_start(now_ms) && !launches(state.after_start(now_ms).start_effects()),
        !state.can_start() ==> state.after_start(now_ms) == state && !launches(
            state.start_effects(),
        ),
{
    if state.can_start() {
        assert(state.start_effects()[1] is LaunchSession);
    }
}

/// Stopping is idempotent for the application state too, and announces the
/// change only once.
pub proof fn lemma_stop_announces_once(state: AppStateView)
    ensures
        state.after_stop().after_stop() == state.after_stop(),
        state.after_stop().deactivation() == Seq::<EffectView>::empty(),
        !state.recording.active ==> state.after_stop() == state,
{
}

/// A cancel leaves recording inactive and the transcript empty, and hands out
/// no transcript, whatever the state was. Nor does anything that the session
/// of the cancelled cycle does afterwards: what it publishes is dropped, and
/// its end, whatever the outcome, changes and announces nothing.
pub proof fn lemma_cancel_hands_out_no_transcript(
    state: AppStateView,
    text: Seq<char>,
    outcome: SessionOutcome,
)
    ensures
        !state.after_cancel().recording.active,
        state.after_cancel().recording.transcript == Seq::<char>::empty(),
        !hands_out_transcript(AppStateView::cancel_effects()),
        state.after_cancel().after_publish(state.cycle, text) == state.after_cancel(),
        state.after_cancel().publish_effects(state.cycle, text) == Seq::<EffectView>::empty(),
        state.after_cancel().after_session_end(state.cycle) == state.after_cancel(),
        !hands_out_transcript(state.after_cancel().session_end_effects(state.cycle, outcome)),
{
}

} // verus!
