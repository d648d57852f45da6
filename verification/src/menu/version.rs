//! The version pane: a static view that never consumes input and never
//! queues an action; it only takes part in focus cycling.

use vstd::prelude::*;

verus! {

/// State of the version pane: only whether it holds focus.
#[derive(Default, Debug)]
pub struct Version {
    pub focus: bool,
}

impl Version {
    /// A fresh, unfocused version pane.
    pub fn new() -> (r: Version)
        ensures
            r.focus == false,
    {
        Version { focus: false }
    }
}

} // verus!
