//! Integer-level core of a single-channel voice-enhancement engine: the
//! grow-only per-sample band store that links frame analysis to frame
//! rendering, the debounced zero-crossing counter used for voice activity
//! features, and the per-frame decisions for empty or uncovered frames.

pub mod crossing;
pub mod scratch;
pub mod frame;
