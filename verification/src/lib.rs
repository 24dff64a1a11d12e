//! Timeline export for a desktop video editor: validation of a multi-track
//! timeline, trimming decisions, the concatenation manifest, scratch-file
//! bookkeeping, progress telemetry and pre-flight estimates, together with the
//! small utilities the editor's commands share.
//!
//! Every quantity that is a real number (seconds, percent, frames per second,
//! kbit/s) is held as a whole number of millionths in an `i64`, so that the
//! rules on it can be stated and proved over the integers.

pub mod clock;
pub mod commands;
pub mod decimal;
pub mod ffmpeg;
pub mod paths;
pub mod pattern;
pub mod recording;
pub mod text;

use vstd::prelude::*;

verus! {

/// How many millionths make one unit.
pub const MICROS_PER_UNIT: i64 = 1_000_000;

} // verus!
