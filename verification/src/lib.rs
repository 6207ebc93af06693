//! Verified core of `rynth`, Python bindings for VapourSynth: the decisions,
//! plans and state machines behind clips, frames, plugins and environments.

pub mod schedule;
pub mod clip;
pub mod format;
pub mod text;
pub mod signature;
pub mod convert;
pub mod environment;
pub mod vscore;
pub mod frame;
pub mod std_ns;
