//! Verified core of two kernel subsystems: per-CPU preemption control and the
//! construction of crate metadata for the already running `nano_core` image.

pub mod preemption;
pub mod binary;
pub mod error;
pub mod indices;
pub mod memory;
pub mod metadata;
pub mod nano_core;
pub mod numbers;
pub mod symbol_file;
pub mod symbol_line;
pub mod text;
pub mod utf8;
