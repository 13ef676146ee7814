//! Rally road-book timing: a race timer that integrates an operator-set
//! speed into travelled distance and race-clock time, a periodic ticker
//! that drives it, and the plain records of races and checkpoints.
//!
//! All quantities are exact fixed-point integers: time in microseconds,
//! distance in micrometres, speed in metres per hour, the correction
//! factor in parts per million and the race clock in centiseconds.
pub mod laws;
pub mod model;
pub mod models;
pub mod race_timer;
pub mod ticker;

pub use model::TimerModel;
pub use models::{Race, PC};
pub use race_timer::{RaceTimer, RaceTimerState};
pub use ticker::{Ticker, TickerPhase};
