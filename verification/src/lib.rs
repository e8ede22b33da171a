//! Core of a desktop dictation assistant: the recording-session lifecycle and
//! the transcription-finalization pipeline.
//!
//! The session store serializes start/stop/cancel transitions for the single
//! recording session; the finalize pipeline turns a stopped session into a
//! persisted transcription, consulting an immutable settings snapshot,
//! tolerating failure of the speech engine and of the best-effort text
//! formatter, and always returning the session to its idle state.
pub mod calendar;
pub mod pipeline;
pub mod records;
pub mod session;
pub mod settings;
pub mod snapshot;
pub mod widget;
