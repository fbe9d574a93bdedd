//! A single-threaded simulation of a round-robin task scheduler: task records,
//! a FIFO ready queue, a preemption timer and a kernel-call dispatcher.

pub mod process;
pub mod scheduler;
pub mod invariants;
