//! Pacing for serial links that must keep a silence between directions, as
//! Modbus RTU asks between the end of one frame and the start of the next.
//!
//! `line` computes the 3.5-character inter-frame wait from the settings of a
//! line; `pacing` is the state machine that decides when a paced stream may
//! read or write; `time` holds the clock values both work with; `laws` holds
//! the properties proved of them.
pub mod laws;
pub mod line;
pub mod pacing;
pub mod time;

pub use line::wait_time;
pub use pacing::SerialPacing;
