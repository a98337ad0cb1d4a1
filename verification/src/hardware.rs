//! What the kernel knows of the machine: registers, devices and their encodings.

pub mod binary_struct;
pub mod clint;
pub mod memory_mapping;
pub mod plic;
pub mod pmp;
pub mod ring_buffer;
pub mod stack;
pub mod uart;
