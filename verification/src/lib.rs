//! Core of a terminal MIDI monitor: event classification, tempo estimation,
//! endpoint name caching and the autoconnect policy, with the rendering of
//! each event as a plain-text trace line.
//!
//! The surrounding program owns the transport (sequencer session, polling,
//! raw event retrieval) and the terminal; this library owns every decision
//! in between: what a tick does to the tempo estimate, when a clock line is
//! emitted, how names are cached and invalidated, which endpoints are
//! subscribed, and the exact text of each rendered line.

pub mod addr;
pub mod event;
pub mod fmt;
pub mod monitor;
pub mod names;
pub mod notes;
pub mod policy;
pub mod render;
pub mod tables;
pub mod tempo;
