//! The core of a voice-dictation assistant: a hotkey starts a recording,
//! the recording is transcribed, the transcript is rewritten by a language
//! model where that is wanted, and the result is typed into the focused
//! application.
//!
//! The crate holds the decisions of that pipeline, none of its devices:
//! the session controller ([`session`]), the registrations of the global
//! shortcuts ([`shortcut`]), the lifecycle of the speech model
//! ([`model`]), the rewriting stage ([`postprocess`]), the delivery of the
//! text ([`inject`]), and the configuration with its defaults and its
//! commands ([`settings`], [`defaults`], [`commands`]). Whoever embeds it
//! records, transcribes, talks to the providers and types, and reports
//! back with events.

pub mod clock;
pub mod commands;
pub mod defaults;
pub mod error;
pub mod inject;
pub mod model;
pub mod options;
pub mod postprocess;
pub mod session;
pub mod settings;
pub mod shortcut;
pub mod table;
pub mod text;
