//! Verified core of a verse-of-the-day command-line tool.
//!
//! The library holds the logic that is worth proving: turning the remote
//! service's verse fragments into a titled verse, the numeral parsing and
//! rendering that the title depends on, the cache-policy state machine that
//! decides when to fetch, read and write, and the title-line formatting.
//! Network, file and terminal plumbing live outside the library and drive
//! the state machine with plain values.

pub mod format;
pub mod numerals;
pub mod resolver;
pub mod verse;
