//! A single-writer, multi-reader change-notification protocol over a raw,
//! fixed-size byte region shared between processes.
//!
//! The region is laid out as one tick byte, the bytes of a reader-writer lock,
//! and a payload. The publisher overwrites the payload and advances the tick;
//! observers compare the tick with the version they saw last and, on a change,
//! read the payload. The lock itself and the mapping of the region are the
//! caller's business: every operation here takes the region as a byte slice.

pub mod error;
pub mod laws;
pub mod layout;
pub mod mapping;
pub mod tick;
pub mod watched;
pub mod watcher;

pub use crate::error::{CapacityError, Gone};
pub use crate::layout::Layout;
pub use crate::tick::Tick;
pub use crate::watched::Watched;
pub use crate::watcher::Watcher;
