//! Global-shortcut management and a dictation session state machine.
//!
//! The library has two tightly coupled halves.  The shortcut half detects
//! which backend the host offers (direct key grabbing or an out-of-process
//! portal), keeps the durable binding table, and turns backend-specific
//! notifications into one event vocabulary.  The dictation half is a
//! single, strictly serialized capture/transcribe/inject session driven by
//! exactly those events.
//!
//! Everything that talks to the host (key grabbing, portal negotiation,
//! audio capture, transcription engines, clipboard and paste tools) is an
//! external collaborator: callers perform those calls and hand the plain
//! outcomes to the functions here, which make every decision and are
//! verified to do so as specified.

pub mod backend;
pub mod cloud_stt;
pub mod desktop;
pub mod dictation;
pub mod events;
pub mod hotkey;
pub mod inject;
pub mod portal;
pub mod settings;
pub mod text;
pub mod tray;
pub mod trigger;
