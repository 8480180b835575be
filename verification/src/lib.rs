//! A verified bootstrap-and-instrumentation harness for a RISC-V emulator.
//!
//! The harness loads a boot image and an optional storage image, configures
//! the machine in the required order (boot image, storage, program counter,
//! run flags), runs it to completion, and reports the final observable state,
//! together with an instruction-frequency table when profiling is enabled.
//! The emulator itself is the `rvemu` crate, consumed through a narrow
//! trusted interface; everything around it is verified.

pub mod flags;
pub mod harness;
pub mod images;
pub mod machine;
pub mod profile;
pub mod render;
