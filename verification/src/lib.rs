//! Core of a small prompt-building tool: a form state describing the fields
//! of an image-generation command, and a pure synthesizer that renders the
//! state into the command string. Persistence and UI live outside; this crate
//! holds the verified model and the string logic.

pub mod state;
pub mod synth;
pub mod text;
