//! The secrets the process must be started with.

use vstd::prelude::*;

verus! {

/// Secrets read from the process environment before the bot starts.
/// Absence of the key is fatal at startup; the caller that reads the
/// environment builds this record only once the key is present.
#[derive(Debug, Clone)]
pub struct EnvVars {
    pub private_key: String,
}

} // verus!
