//! The core of a small multi-tasking kernel for a RISC-V machine-mode target.
//!
//! The crate holds the decisions of the kernel: the process table and its
//! round-robin scheduler, the trap dispatcher, the system-call service and the
//! serial console with its single-owner read lock. It touches no hardware. Every
//! entry point takes the kernel state and the values read from the machine, and
//! answers with the new state and the values to write back.

pub mod enum_matching;
pub mod exception_handler;
pub mod hardware;
pub mod kernel;
pub mod riscv_utils;
pub mod scheduler;
pub mod setup;
pub mod sys_call;
pub mod user_prog;
