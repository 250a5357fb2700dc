//! Verified core of a clip-sequence media engine.
//!
//! The library models the assembly and driving of media-processing graphs:
//! building a typed element graph for a preview or export profile, resolving
//! dynamically appearing decoder pads, the execution state machine with its
//! seek/progress arithmetic, the single-slot frame sink, and the planning of
//! exports through an external transcoder with an internal fallback.
//! All durations and positions are in nanoseconds; normalized positions are
//! in millionths (parts per million) so that the arithmetic stays exact.

pub mod builder;
pub mod config;
pub mod driver;
pub mod export;
pub mod graph;
pub mod pexels;
pub mod project;
pub mod resolver;
pub mod sink;
pub mod status;
