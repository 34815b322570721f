//! Time keeping: durations as numbers, the rate limiter and the cycle timer.

pub mod limit;
pub mod span;
pub mod timer;
