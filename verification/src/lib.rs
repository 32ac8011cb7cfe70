//! Integer-domain core of a real-time guitar effect processor: stream
//! configuration negotiation, stream setup sequencing, block routing between
//! the capture and render callbacks, level metering, effect-chain ordering,
//! waveform decimation and playback positioning.
//!
//! Every function here works on plain integers and collections of them, and
//! states what it computes in its contract.

pub mod stride;
pub mod format;
pub mod config;
pub mod capture;
pub mod render;
pub mod meter;
pub mod chain;
pub mod setup;
pub mod waveform;
pub mod playback;
