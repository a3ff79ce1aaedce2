//! Grid-based cursor motion, verified.
//!
//! The library turns discrete directional commands (step one cell, dash
//! several cells) into smooth, time-bounded cursor motion on a logical grid
//! laid over a display. Its heart is the [`motion::MotionController`] state
//! machine: it holds the current grid cell, the current normalized screen
//! position in fixed point, and an optional in-flight animation segment, and
//! is driven by a caller-supplied clock. Input decoding and command routing
//! are plain functions over plain values; device handling, configuration
//! files and the display connection live outside the library.

use vstd::prelude::*;
use vstd::string::StringExecFns;

pub mod config;
pub mod dispatch;
pub mod input;
pub mod motion;

verus! {

/// The library's version, as published.
pub const VERSION: &'static str = "0.1.0";

/// The revision the build was made from, when one was recorded.
pub const GIT_HASH: &'static str = "unknown";

/// The time of the build, when one was recorded.
pub const BUILD_TIMESTAMP: &'static str = "unknown";

/// A human-readable banner naming the library, its version, the revision and
/// the build time.
pub fn version_string() -> (s: String)
    ensures
        s@ == "GridPointer 0.1.0 (unknown), built unknown"@,
{
    String::from_str("GridPointer 0.1.0 (unknown), built unknown")
}

} // verus!
