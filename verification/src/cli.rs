//! What the command line parser produces: the command and the logging
//! verbosity. The argument grammar itself lives in the binary around
//! the library.
use vstd::prelude::*;

use crate::command::Command;

verus! {

/// The level of logging verbosity asked for on the command line.
#[derive(Debug, Clone, Copy, PartialEq, Eq, Structural)]
pub enum Verbosity {
    Warn,
    Info,
    Debug,
    Trace,
}

/// The verbosity that a count of verbose flags names: none is the
/// default, one asks for info, two for debug, more for trace.
pub open spec fn verbosity_of(occurrences: nat) -> Verbosity {
    if occurrences == 0 {
        Verbosity::Warn
    } else if occurrences == 1 {
        Verbosity::Info
    } else if occurrences == 2 {
        Verbosity::Debug
    } else {
        Verbosity::Trace
    }
}

/// A parsed command line.
#[derive(Debug, PartialEq)]
pub struct Cli {
    pub command: Command,
    pub verbosity: Verbosity,
}

impl Default for Cli {
    /// No command yet, warnings only.
    fn default() -> (r: Self)
        ensures
            r.command == Command::Default,
            r.verbosity == Verbosity::Warn,
    {
        Cli { command: Command::Default, verbosity: Verbosity::Warn }
    }
}

impl Cli {
    /// The verbosity that a count of verbose flags names.
    pub fn verbosity_for(occurrences: u64) -> (r: Verbosity)
        ensures
            r == verbosity_of(occurrences as nat),
    {
        if occurrences == 0 {
            Verbosity::Warn
        } else if occurrences == 1 {
            Verbosity::Info
        } else if occurrences == 2 {
            Verbosity::Debug
        } else {
            Verbosity::Trace
        }
    }
}

} // verus!
