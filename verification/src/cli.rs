//! The command line, once it has been taken apart.

use vstd::prelude::*;

verus! {

/// What the user asked for.
#[derive(Debug, PartialEq, Eq)]
pub struct Cli {
    pub command: Command,
}

/// The two things a user can ask for.
#[derive(Debug, PartialEq, Eq)]
pub enum Command {
    /// Create a reminder; `time` is `+1h` or `2023-12-31T23:59:00Z`.
    Create { time: String, message: String },
    /// List all reminders.
    List,
}

} // verus!
