//! Control logic of a clothes dryer: a thermal regulator with hysteresis,
//! a cancellable one-second timer, a rate limiter, and the coordination
//! between the command source and the control loop.

pub mod channel;
pub mod coordinator;
pub mod dryer;
pub mod mqtt;
pub mod schedule;
pub mod time;
pub mod wifi;
