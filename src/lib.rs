//! Register-file layouts, attachment protocol and read planning for measuring
//! remote memory reads of a stopped, traced process.

pub mod le_bytes;
pub mod x86_64;
pub mod aarch64;
pub mod arch;
pub mod sizes;
pub mod observer;
pub mod allocation;
