//! Core logic of a push-to-talk dictation tool: microphone frames are brought
//! to the wire format of a streaming transcription service, incoming
//! transcript tokens are merged into text, and a recording state machine
//! decides what the surrounding application has to do next.
//!
//! Nothing in this crate performs I/O. The application drives the device, the
//! connection and the user interface, and asks this crate for every decision.

pub mod audio;
pub mod orchestrator;
pub mod protocol;
pub mod recording;
pub mod session;
pub mod shortcut;
pub mod text;
pub mod transcript;
