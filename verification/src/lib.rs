//! A command-line Pomodoro timer library: a deterministic
//! interval-sequencing state machine, a cancellable blocking sleep, and
//! the interrupt-handling rule that ties the two together through one
//! shared status flag.

pub mod clock;
pub mod engine;
pub mod interrupt;
