//! Defaults for the settings that survive engine restarts.

use vstd::prelude::*;

verus! {

/// Default playlist interval (5 minutes), used for older config files that
/// predate the playlist fields.
pub fn default_interval() -> (r: u64)
    ensures
        r == 300,
{
    300
}

} // verus!
