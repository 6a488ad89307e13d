use local_transcriber::audio::samples_to_bytes;
use local_transcriber::protocol::{Inbound, ServerMessage, SessionConfig, SessionError};
use local_transcriber::orchestrator::{AppState, Effect, SessionOutcome};
use local_transcriber::session::{
    ReceiveAction, ReceivePath, SessionAction, SessionEvent, SessionPhase, TranscriptionSession,
    SEND_TICK_MS,
};
use local_transcriber::transcript::TranscriptToken;

fn tokens(items: &[(&str, bool)]) -> Inbound {
    Inbound::Message(ServerMessage {
        tokens: items
            .iter()
            .map(|(text, is_final)| TranscriptToken { text: text.to_string(), is_final: *is_final })
            .collect(),
        finished: false,
        error_code: None,
        error_message: None,
    })
}

fn finished() -> Inbound {
    Inbound::Message(ServerMessage {
        tokens: vec![],
        finished: true,
        error_code: None,
        error_message: None,
    })
}

fn streaming_session(key: &str) -> TranscriptionSession {
    let mut session = TranscriptionSession::new(key.to_string());
    session.handle(true, SessionEvent::Connected);
    session.handle(true, SessionEvent::ConfigSent);
    session.handle(true, SessionEvent::PrimingSent);
    assert_eq!(session.current_phase(), SessionPhase::Streaming);
    session
}

#[test]
fn receive_path_publishes_the_display_text_of_each_batch() {
    let mut path = ReceivePath::new();
    assert!(path.is_open());
    assert_eq!(
        path.on_inbound(tokens(&[("hello ", true)])),
        ReceiveAction::Publish("hello ".to_string())
    );
    assert_eq!(
        path.on_inbound(tokens(&[("world", false)])),
        ReceiveAction::Publish("hello world".to_string())
    );
    assert_eq!(
        path.on_inbound(tokens(&[("word", false)])),
        ReceiveAction::Publish("hello word".to_string())
    );
    assert_eq!(path.final_text(), "hello ");
    assert!(path.is_open());
}

#[test]
fn receive_path_skips_what_it_cannot_use() {
    let mut path = ReceivePath::new();
    path.on_inbound(tokens(&[("kept ", true), ("maybe", false)]));
    let before = path.clone();
    assert_eq!(path.on_inbound(Inbound::Malformed), ReceiveAction::Continue);
    assert_eq!(path.on_inbound(Inbound::Other), ReceiveAction::Continue);
    assert_eq!(path, before);
}

#[test]
fn a_batch_without_tokens_replaces_the_pending_text() {
    let mut path = ReceivePath::new();
    assert_eq!(
        path.on_inbound(tokens(&[("kept ", true), ("maybe", false)])),
        ReceiveAction::Publish("kept maybe".to_string())
    );
    assert_eq!(path.on_inbound(tokens(&[])), ReceiveAction::Publish("kept ".to_string()));
    assert_eq!(path.final_text(), "kept ");
    assert!(path.is_open());
    assert_eq!(path.on_inbound(tokens(&[])), ReceiveAction::Publish("kept ".to_string()));
}

#[test]
fn a_batch_of_final_tokens_only_clears_the_pending_text() {
    let mut path = ReceivePath::new();
    path.on_inbound(tokens(&[("wor", false)]));
    assert_eq!(
        path.on_inbound(tokens(&[("world", true), ("!", true)])),
        ReceiveAction::Publish("world!".to_string())
    );
    assert_eq!(path.final_text(), "world!");
}

#[test]
fn a_first_batch_without_tokens_publishes_an_empty_text() {
    let mut path = ReceivePath::new();
    assert_eq!(path.on_inbound(tokens(&[])), ReceiveAction::Publish(String::new()));
    assert_eq!(path.final_text(), "");
}

#[test]
fn remote_completion_ends_the_receive_path_normally() {
    let mut path = ReceivePath::new();
    path.on_inbound(tokens(&[(" done. ", true)]));
    assert_eq!(path.on_inbound(finished()), ReceiveAction::Stop);
    assert!(!path.is_open());
    assert_eq!(path.final_text(), " done. ");
}

#[test]
fn remote_completion_leads_to_a_trimmed_finished_transcript() {
    let mut state = AppState::new();
    state.set_api_key("key".to_string());
    state.start_recording(1).unwrap();
    let mut session = streaming_session("key");
    let mut path = ReceivePath::new();
    path.on_inbound(tokens(&[("  hello ", true), ("wor", false)]));
    path.on_inbound(tokens(&[("world \n", true)]));
    assert_eq!(path.on_inbound(finished()), ReceiveAction::Stop);
    let action = session.handle(true, SessionEvent::ReceiveFinished(path.final_text()));
    assert_eq!(action, SessionAction::Complete("hello world".to_string()));
    assert_eq!(session.current_phase(), SessionPhase::Closed);
    let effects = state.session_ended(1, SessionOutcome::Completed("hello world".to_string()));
    assert_eq!(
        effects,
        vec![
            Effect::RecordingStateChanged(false),
            Effect::TranscriptionFinished("hello world".to_string()),
        ]
    );
    assert!(!state.get_recording_state());
}

#[test]
fn completion_flag_wins_over_tokens_in_the_same_message() {
    let mut path = ReceivePath::new();
    let message = Inbound::Message(ServerMessage {
        tokens: vec![TranscriptToken { text: "late".to_string(), is_final: true }],
        finished: true,
        error_code: None,
        error_message: None,
    });
    assert_eq!(path.on_inbound(message), ReceiveAction::Stop);
    assert_eq!(path.final_text(), "");
}

#[test]
fn remote_error_aborts_and_is_reported_with_code_and_text() {
    let mut state = AppState::new();
    state.set_api_key("key".to_string());
    state.start_recording(1).unwrap();
    let mut path = ReceivePath::new();
    path.on_inbound(tokens(&[("so far", true)]));
    let message = Inbound::Message(ServerMessage {
        tokens: vec![TranscriptToken { text: " more".to_string(), is_final: true }],
        finished: false,
        error_code: Some(401),
        error_message: Some("bad key".to_string()),
    });
    let error = SessionError::Remote { code: 401, message: "bad key".to_string() };
    assert_eq!(path.on_inbound(message), ReceiveAction::Fail(error.clone()));
    assert!(!path.is_open());
    assert_eq!(path.final_text(), "so far");
    let effects = state.session_ended(1, SessionOutcome::Failed(error));
    assert_eq!(
        effects,
        vec![
            Effect::RecordingStateChanged(false),
            Effect::TranscriptionFailed("SONIOX error 401: bad key".to_string()),
        ]
    );
    let text = match &effects[1] {
        Effect::TranscriptionFailed(text) => text.clone(),
        _ => String::new(),
    };
    assert!(text.contains("401") && text.contains("bad key"));
    assert!(!state.get_recording_state());
}

#[test]
fn receive_path_ends_on_close_transport_failure_and_end_of_stream() {
    for last in [Inbound::Closed, Inbound::TransportError, Inbound::End] {
        let mut path = ReceivePath::new();
        path.on_inbound(tokens(&[("kept", true), ("shown", false)]));
        assert_eq!(path.on_inbound(last), ReceiveAction::Stop);
        assert!(!path.is_open());
        assert_eq!(path.final_text(), "kept");
    }
}

#[test]
fn tokens_in_flight_when_recording_stops_still_arrive() {
    let mut state = AppState::new();
    state.set_api_key("key".to_string());
    state.start_recording(1).unwrap();
    let mut session = streaming_session("key");
    let mut path = ReceivePath::new();
    path.on_inbound(tokens(&[("kept", true)]));
    state.stop_recording();
    assert_eq!(session.handle(state.is_recording_cycle(1), SessionEvent::Tick), SessionAction::Drain);
    assert_eq!(
        path.on_inbound(tokens(&[(" too", true), ("...", false)])),
        ReceiveAction::Publish("kept too...".to_string())
    );
    assert!(path.is_open());
    assert_eq!(path.on_inbound(Inbound::Closed), ReceiveAction::Stop);
    assert_eq!(path.final_text(), "kept too");
    assert_eq!(
        session.handle(false, SessionEvent::ReceiveFinished(path.final_text())),
        SessionAction::Complete("kept too".to_string())
    );
}

#[test]
fn an_ended_receive_path_takes_in_nothing() {
    let mut path = ReceivePath::new();
    path.on_inbound(tokens(&[("kept", true)]));
    path.on_inbound(Inbound::Closed);
    let before = path.clone();
    assert_eq!(path.on_inbound(tokens(&[(" more", true)])), ReceiveAction::Stop);
    assert_eq!(path.on_inbound(Inbound::Malformed), ReceiveAction::Stop);
    assert_eq!(path, before);
}

#[test]
fn session_walks_from_connect_to_close() {
    assert_eq!(SEND_TICK_MS, 100);
    let mut session = TranscriptionSession::new("key".to_string());
    assert_eq!(session.current_phase(), SessionPhase::Connecting);
    assert_eq!(
        session.handle(true, SessionEvent::Connected),
        SessionAction::SendConfig(SessionConfig::new("key".to_string()))
    );
    assert_eq!(session.current_phase(), SessionPhase::Configuring);
    assert_eq!(
        session.handle(true, SessionEvent::ConfigSent),
        SessionAction::SendPriming(vec![0u8; 3200])
    );
    assert_eq!(session.current_phase(), SessionPhase::Priming);
    assert_eq!(session.handle(true, SessionEvent::PrimingSent), SessionAction::StartStreaming);
    assert_eq!(session.current_phase(), SessionPhase::Streaming);
    assert_eq!(
        session.handle(true, SessionEvent::Frame(vec![1, -1, 300])),
        SessionAction::SendAudio(samples_to_bytes(&[1, -1, 300]))
    );
    assert_eq!(
        session.handle(true, SessionEvent::Frame(vec![2])),
        SessionAction::SendAudio(vec![2, 0])
    );
    assert_eq!(session.handle(true, SessionEvent::Tick), SessionAction::Wait);
    assert_eq!(session.current_phase(), SessionPhase::Streaming);
    assert_eq!(session.handle(false, SessionEvent::Tick), SessionAction::Drain);
    assert_eq!(session.current_phase(), SessionPhase::Draining);
    assert_eq!(
        session.handle(false, SessionEvent::ReceiveFinished(" all of it\n".to_string())),
        SessionAction::Complete("all of it".to_string())
    );
    assert_eq!(session.current_phase(), SessionPhase::Closed);
}

#[test]
fn session_drops_a_frame_that_arrives_after_recording_stopped() {
    let mut session = streaming_session("key");
    assert_eq!(session.handle(false, SessionEvent::Frame(vec![1, 2])), SessionAction::Drain);
    assert_eq!(session.current_phase(), SessionPhase::Draining);
}

#[test]
fn session_drains_when_audio_cannot_be_sent() {
    let mut session = streaming_session("key");
    assert_eq!(session.handle(true, SessionEvent::AudioSendFailed), SessionAction::Drain);
    assert_eq!(session.current_phase(), SessionPhase::Draining);
}

#[test]
fn session_fails_at_each_setup_step() {
    let mut session = TranscriptionSession::new("key".to_string());
    assert_eq!(
        session.handle(true, SessionEvent::ConnectFailed("refused".to_string())),
        SessionAction::Abort(SessionError::ConnectFailed("refused".to_string()))
    );
    assert_eq!(session.current_phase(), SessionPhase::Failed);

    let mut session = TranscriptionSession::new("key".to_string());
    session.handle(true, SessionEvent::Connected);
    assert_eq!(
        session.handle(true, SessionEvent::ConfigSendFailed("reset".to_string())),
        SessionAction::Abort(SessionError::ConfigSendFailed("reset".to_string()))
    );
    assert_eq!(session.current_phase(), SessionPhase::Failed);

    let mut session = TranscriptionSession::new("key".to_string());
    session.handle(true, SessionEvent::Connected);
    assert_eq!(
        session.handle(true, SessionEvent::ConfigEncodeFailed("odd".to_string())),
        SessionAction::Abort(SessionError::ConfigEncodeFailed("odd".to_string()))
    );
    assert_eq!(session.current_phase(), SessionPhase::Failed);

    let mut session = TranscriptionSession::new("key".to_string());
    session.handle(true, SessionEvent::Connected);
    session.handle(true, SessionEvent::ConfigSent);
    assert_eq!(
        session.handle(true, SessionEvent::PrimingFailed("reset".to_string())),
        SessionAction::Abort(SessionError::PrimingFailed("reset".to_string()))
    );
    assert_eq!(session.current_phase(), SessionPhase::Failed);
}

#[test]
fn session_ignores_events_that_do_not_belong_to_its_phase() {
    let mut session = TranscriptionSession::new("key".to_string());
    assert_eq!(session.handle(true, SessionEvent::Tick), SessionAction::Ignore);
    assert_eq!(session.handle(true, SessionEvent::Frame(vec![1])), SessionAction::Ignore);
    assert_eq!(session.handle(true, SessionEvent::PrimingSent), SessionAction::Ignore);
    assert_eq!(
        session.handle(true, SessionEvent::ReceiveFinished("x".to_string())),
        SessionAction::Ignore
    );
    assert_eq!(session.current_phase(), SessionPhase::Connecting);
    let mut session = streaming_session("key");
    assert_eq!(session.handle(true, SessionEvent::Connected), SessionAction::Ignore);
    assert_eq!(session.current_phase(), SessionPhase::Streaming);
}

#[test]
fn closed_and_failed_sessions_stay_as_they_are() {
    let mut closed = streaming_session("key");
    closed.handle(false, SessionEvent::Tick);
    closed.handle(false, SessionEvent::ReceiveFinished(String::new()));
    let mut failed = TranscriptionSession::new("key".to_string());
    failed.handle(true, SessionEvent::ConnectFailed("x".to_string()));
    let events = [
        SessionEvent::Connected,
        SessionEvent::ConnectFailed("x".to_string()),
        SessionEvent::ConfigEncodeFailed("x".to_string()),
        SessionEvent::ConfigSent,
        SessionEvent::ConfigSendFailed("x".to_string()),
        SessionEvent::PrimingSent,
        SessionEvent::PrimingFailed("x".to_string()),
        SessionEvent::Frame(vec![1]),
        SessionEvent::Tick,
        SessionEvent::AudioSendFailed,
        SessionEvent::ReceiveFinished("x".to_string()),
    ];
    for event in events.iter() {
        for recording in [true, false] {
            assert_eq!(closed.handle(recording, event.clone()), SessionAction::Ignore);
            assert_eq!(closed.current_phase(), SessionPhase::Closed);
            assert_eq!(failed.handle(recording, event.clone()), SessionAction::Ignore);
            assert_eq!(failed.current_phase(), SessionPhase::Failed);
        }
    }
}
