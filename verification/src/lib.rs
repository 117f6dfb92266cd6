//! Timing rules, state machine and bookkeeping of a counter-strafe trainer.
//!
//! A counter-strafe is graded by how long the opposite key is held. The
//! library turns raw key transitions into debounced events (`events`), runs
//! them through the state machine that times and grades an attempt
//! (`state`), and keeps the tally (`stats`) and the fading list of recent
//! verdicts (`feedback`). `session` ties these together frame by frame, and
//! `display` holds what an overlay derives from them.
//!
//! All times are whole nanoseconds on a monotonic clock, held in `u64`.

pub mod text;
pub mod timing;
pub mod state;
pub mod stats;
pub mod feedback;
pub mod events;
pub mod session;
pub mod display;
