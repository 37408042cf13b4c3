//! The command-line surface as plain data: the subcommand the user chose
//! and its arguments. The driver program parses the actual command line and
//! hands over one of these values.

use vstd::prelude::*;

verus! {

/// The whole command line: an optional subcommand; none means `build`.
#[derive(Debug, Clone)]
pub struct Cli {
    pub command: Option<Commands>,
}

/// The tool's subcommands.
#[derive(Debug, Clone)]
pub enum Commands {
    /// Assemble the bootable image.
    Build,
    /// Assemble the image, then run it under the emulator. Without a
    /// kernel path the conventional build output is used; a kernel path
    /// under a test-build directory selects the supervised test mode.
    Run { kernel: Option<String>, mode: Option<RunMode> },
    /// Remove the generated working directories and the final image,
    /// ignoring what is already absent.
    Clean,
}

/// An explicitly named run mode.
#[derive(Debug, Clone)]
pub enum RunMode {
    Mode { name: String },
}

} // verus!
