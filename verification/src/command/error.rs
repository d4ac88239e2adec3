use vstd::prelude::*;

verus! {

/// Errors surfaced by the command layer.
///
/// `CommandNotFound` reports an unrecognised subcommand; `Unknown` classifies
/// every unexpected-absence condition: a resource that a remote call promised
/// but did not deliver, or a remote object missing one of its required fields.
#[derive(Debug, Clone, PartialEq, Eq, Structural)]
pub enum CommandError {
    CommandNotFound,
    Unknown,
}

impl CommandError {
    /// The human-readable description of the error, as the command layer
    /// reports it.
    pub fn description(&self) -> (msg: &'static str)
        ensures
            *self is CommandNotFound ==> msg@ == "Unknown command"@,
            *self is Unknown ==> msg@ == "Unexpected error occurred"@,
    {
        match *self {
            CommandError::CommandNotFound => "Unknown command",
            CommandError::Unknown => "Unexpected error occurred",
        }
    }
}

} // verus!
