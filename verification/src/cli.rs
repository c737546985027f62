//! The command-line surface of the server: a single optional log-level
//! flag, nothing else is read from the environment or from files.

use vstd::prelude::*;

verus! {

/// The command-line configuration.
#[derive(Debug, Clone)]
pub struct Cli {
    pub log_level: String,
}

impl Default for Cli {
    /// The log level defaults to "info".
    fn default() -> (c: Self)
        ensures
            c.log_level@ == "info"@,
    {
        Cli { log_level: "info".to_owned() }
    }
}

} // verus!
