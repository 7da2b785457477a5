//! The `generate-config` command: write an example configuration.
use vstd::prelude::*;

verus! {

/// Generate configuration directory structure.
#[derive(Debug)]
pub struct GenerateConfigCommand {
    /// Output directory path.
    pub output: String,
    /// Force overwrite existing files.
    pub force: bool,
}

impl GenerateConfigCommand {
    /// Whether the example configuration is to be written, given whether
    /// the output directory is present: an existing directory is left alone
    /// unless overwriting is forced.
    pub fn should_write(&self, present: bool) -> (write: bool)
        ensures
            write == (!present || self.force),
    {
        !present || self.force
    }
}

} // verus!
