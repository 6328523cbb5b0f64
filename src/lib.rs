//! An instant-replay recorder's core: a ring of preallocated frame slots that
//! always holds the most recent frames, the planner that sizes it under a
//! memory budget, and the session that decides when frames are captured,
//! when the ring is written out, and when recording stops.

pub mod format;
pub mod planner;
pub mod recorder;
pub mod ring;
pub mod save;
pub mod session;
