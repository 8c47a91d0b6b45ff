//! Core of a live terminal viewer for an unbounded log stream.
//!
//! The library turns an arbitrary byte stream into discrete, bounded,
//! scroll-aware log history, and models the terminal viewport state
//! machine (inline viewport, alternate screen, resize realignment,
//! suspend/resume). Terminal writes and the device connection live
//! outside the library; they hand plain values in and take plain
//! values back.

pub mod app;
pub mod events;
pub mod framer;
pub mod mailbox;
pub mod pump;
pub mod scroll;
pub mod scrollback;
pub mod viewport;

use vstd::prelude::*;

verus! {

/// Upper bound on the number of lines the scrollback history retains.
pub const MAX_LINES: usize = 65536;

} // verus!
