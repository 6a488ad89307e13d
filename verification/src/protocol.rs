//! Messages exchanged with the transcription service, and session errors.

use crate::audio::TARGET_SAMPLE_RATE;
use crate::text::{decimal, join, u32_to_decimal};
use crate::transcript::TranscriptToken;
use vstd::prelude::*;
use vstd::string::*;

verus! {

pub open spec fn service_url_text() -> Seq<char> {
    "wss://stt-rt.soniox.com/transcribe-websocket"@
}

pub open spec fn model_text() -> Seq<char> {
    "stt-rt-preview"@
}

pub open spec fn audio_format_text() -> Seq<char> {
    "pcm_s16le"@
}

/// Address of the transcription service.
pub fn service_url() -> (url: &'static str)
    ensures
        url@ == service_url_text(),
{
    "wss://stt-rt.soniox.com/transcribe-websocket"
}

/// The first message of a session. It is built once and never changed.
#[derive(Clone, Debug, PartialEq, Eq)]
pub struct SessionConfig {
    pub api_key: String,
    pub model: String,
    pub audio_format: String,
    pub sample_rate: u32,
    pub num_channels: u32,
}

impl SessionConfig {
    /// The configuration for a session opened with `api_key`: the fixed model,
    /// little-endian 16-bit PCM, mono, at the target rate.
    pub fn new(api_key: String) -> (config: SessionConfig)
        ensures
            config.api_key@ == api_key@,
            config.model@ == model_text(),
            config.audio_format@ == audio_format_text(),
            config.sample_rate == TARGET_SAMPLE_RATE,
            config.num_channels == 1,
    {
        SessionConfig {
            api_key,
            model: "stt-rt-preview".to_owned(),
            audio_format: "pcm_s16le".to_owned(),
            sample_rate: TARGET_SAMPLE_RATE,
            num_channels: 1,
        }
    }
}

/// Why a session failed.
#[derive(Clone, Debug, PartialEq, Eq)]
pub enum SessionError {
    /// The connection could not be opened; the text is the transport's report.
    ConnectFailed(String),
    /// The configuration could not be encoded; the text is the encoder's report.
    ConfigEncodeFailed(String),
    /// The configuration could not be sent.
    ConfigSendFailed(String),
    /// The priming frame could not be sent.
    PrimingFailed(String),
    /// The input device could not be captured; the text says why.
    CaptureFailed(String),
    /// The service reported an error.
    Remote { code: u32, message: String },
}

pub open spec fn connect_failed_prefix() -> Seq<char> {
    "Failed to connect to SONIOX: "@
}

pub open spec fn config_failed_prefix() -> Seq<char> {
    "Failed to send config: "@
}

pub open spec fn priming_failed_prefix() -> Seq<char> {
    "Failed to send priming audio: "@
}

pub open spec fn remote_error_prefix() -> Seq<char> {
    "SONIOX error "@
}

pub open spec fn remote_error_separator() -> Seq<char> {
    ": "@
}

pub open spec fn unknown_error_text() -> Seq<char> {
    "Unknown SONIOX error"@
}

impl SessionError {
    /// The text shown to the user.
    pub open spec fn text(self) -> Seq<char> {
        match self {
            SessionError::ConnectFailed(report) => connect_failed_prefix() + report@,
            SessionError::ConfigEncodeFailed(report) => report@,
            SessionError::ConfigSendFailed(report) => config_failed_prefix() + report@,
            SessionError::PrimingFailed(report) => priming_failed_prefix() + report@,
            SessionError::CaptureFailed(report) => report@,
            SessionError::Remote { code, message } => remote_error_prefix() + decimal(code as nat)
                + remote_error_separator() + message@,
        }
    }

    pub fn message(&self) -> (message: String)
        ensures
            message@ == self.text(),
    {
        match self {
            SessionError::ConnectFailed(report) => join(
                "Failed to connect to SONIOX: ",
                report.as_str(),
            ),
            SessionError::ConfigEncodeFailed(report) => report.clone(),
            SessionError::ConfigSendFailed(report) => join(
                "Failed to send config: ",
                report.as_str(),
            ),
            SessionError::PrimingFailed(report) => join(
                "Failed to send priming audio: ",
                report.as_str(),
            ),
            SessionError::CaptureFailed(report) => report.clone(),
            SessionError::Remote { code, message } => {
                let mut text = join("SONIOX error ", u32_to_decimal(*code).as_str());
                text.append(": ");
                text.append(message.as_str());
                text
            },
        }
    }
}

/// One decoded text message of the service. A field that the message left
/// out holds its default: no tokens, not finished, no error.
#[derive(Clone, Debug, PartialEq, Eq)]
pub struct ServerMessage {
    pub tokens: Vec<TranscriptToken>,
    pub finished: bool,
    pub error_code: Option<u32>,
    pub error_message: Option<String>,
}

impl ServerMessage {
    /// Whether the message reports an error: it carries a code, a text, or both.
    pub open spec fn carries_error(self) -> bool {
        self.error_code is Some || self.error_message is Some
    }

    /// The reported code, 0 when the message has none.
    pub open spec fn reported_code(self) -> u32 {
        match self.error_code {
            Some(code) => code,
            None => 0,
        }
    }

    /// The reported text, a fixed text when the message has none.
    pub open spec fn reported_text(self) -> Seq<char> {
        match self.error_message {
            Some(text) => text@,
            None => unknown_error_text(),
        }
    }

    /// The error that the message reports, if it reports one.
    pub fn remote_error(&self) -> (error: Option<SessionError>)
        ensures
            error is Some <==> self.carries_error(),
            error matches Some(e) ==> e matches SessionError::Remote { code, message } && code
                == self.reported_code() && message@ == self.reported_text(),
    {
        if self.error_code.is_some() || self.error_message.is_some() {
            let code: u32 = match self.error_code {
                Some(code) => code,
                None => 0,
            };
            let message = match &self.error_message {
                Some(text) => text.clone(),
                None => "Unknown SONIOX error".to_owned(),
            };
            Some(SessionError::Remote { code, message })
        } else {
            None
        }
    }
}

/// What the connection delivered, as far as the session has to tell apart.
#[derive(Clone, Debug, PartialEq, Eq)]
pub enum Inbound {
    /// A text message that could be decoded.
    Message(ServerMessage),
    /// A text message that could not be decoded.
    Malformed,
    /// A close frame.
    Closed,
    /// The transport failed.
    TransportError,
    /// The stream of messages ended.
    End,
    /// Any other kind of message.
    Other,
}

} // verus!
