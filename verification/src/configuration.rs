//! Run-wide configuration captured from the command line: read-only values
//! every operation copies for itself.

use vstd::prelude::*;

verus! {

/// The values shared by all planned operations: the host repositories are
/// fetched from, and the two flags that widen the fetch and install phases.
#[derive(Debug)]
pub struct Configuration {
    pub target_host: String,
    pub force_update_all: bool,
    pub pull: bool,
}

impl Configuration {
    /// Makes an independent copy, so each operation can carry the
    /// configuration by value.
    pub fn duplicate(&self) -> (r: Configuration)
        ensures
            r.target_host@ == self.target_host@,
            r.force_update_all == self.force_update_all,
            r.pull == self.pull,
    {
        Configuration {
            target_host: self.target_host.clone(),
            force_update_all: self.force_update_all,
            pull: self.pull,
        }
    }
}

} // verus!
