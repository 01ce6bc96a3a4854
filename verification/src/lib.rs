//! Time base quantities for embedded targets: clock frequencies in fixed-point
//! integer arithmetic, and elapsed-time measurement over a hardware counter.

pub mod arith;
pub mod clock;
pub mod duration;
pub mod laws;
pub mod rate;
pub mod timer;
