//! Driver for a pair of 16-bit timer/counter peripherals fused into one
//! free-running 32-bit counter, exposed as a monotonic clock source.
//!
//! The hardware-visible state of each peripheral is modelled as plain
//! register values (`hw`), the cascade bring-up sequence and the overflow
//! protocol are verified against that model (`counter`), and the scheduler
//! facing clock adapter (`monotonic`) converts raw ticks into the `Instant`
//! type (`instant`), whose wrapping arithmetic is verified.

pub mod counter;
pub mod hw;
pub mod instant;
pub mod monotonic;
