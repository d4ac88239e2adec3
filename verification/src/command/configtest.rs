//! The config subcommand: holds the loaded, resolved configuration for
//! inspection.  Rendering it back out is plain output work and lives with
//! the rest of the printing.
use vstd::prelude::*;

use crate::config;

verus! {

/// The config subcommand over one loaded configuration.
pub struct Command<'c> {
    pub config: &'c config::command::Config,
}

impl<'c> Command<'c> {
    /// A config command over the loaded configuration.
    pub fn new(config: &'c config::command::Config) -> (c: Command<'c>)
        ensures
            c.config == config,
    {
        Command { config }
    }
}

} // verus!
