//! Maps MIDI note events to keyboard and mouse actions.
//!
//! The crate holds the coordination core: the note model, the ordered registry
//! of binds, the dispatch rules that turn a note event into synthesis calls, the
//! lifecycle of the MIDI connection and the state that a single actor owns.
//! Everything here is a function of plain values; threads, channels, the MIDI
//! driver and the input synthesizer live with the caller.

pub mod note;
pub mod common;
pub mod config;
pub mod bind;
pub mod state;
pub mod form;
