//! Block size parameters.

use vstd::prelude::*;

verus! {

/// Block size parameters.
#[derive(Clone, Copy, Debug, PartialEq, Eq, Structural)]
pub struct Size {
    /// Maximum number of bytes in a block.
    pub max_bytes: u64,
    /// Maximum amount of gas which can be spent on a block.
    pub max_gas: i64,
    /// Minimum time increment between consecutive blocks, in milliseconds.
    /// The consensus engine no longer reads it.
    pub time_iota_ms: i64,
}

impl Size {
    /// The default value of `time_iota_ms`, taken where the parameter is absent.
    pub fn default_time_iota_ms() -> (millis: i64)
        ensures
            millis == 1000,
    {
        1000
    }
}

} // verus!
