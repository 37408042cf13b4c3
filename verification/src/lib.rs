//! Assembles a bootable operating-system image from a compiled kernel and
//! cached bootloader/firmware artifacts, then supervises a run of that image
//! under an emulator, classifying the outcome for automated testing.
//!
//! The library holds the decision logic: command-template substitution,
//! configuration defaults, the build pipeline's plan (including its one
//! caching decision), and the supervised-execution state machine. Running
//! the planned external commands is the driver program's job.

pub mod args;
pub mod builder;
pub mod cli;
pub mod config;
pub mod paths;
pub mod runner;
pub mod template;

pub use builder::Builder;
pub use config::LimageConfig;
pub use runner::Runner;
