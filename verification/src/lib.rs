//! Discovery-and-flatten engine for reparse-point links.
//!
//! The library parses recursive directory-listing text into an ordered set of
//! link paths, hands out unique work indices to workers, decides retries for
//! transient copy failures, tracks aggregate progress, and drives the overall
//! run as a state machine. All filesystem work is performed by the caller; the
//! library makes every decision and is verified.

pub mod cancel;
pub mod flatten;
pub mod orchestrate;
pub mod parser;
pub mod partition;
pub mod progress;
pub mod shared;
pub mod text;
