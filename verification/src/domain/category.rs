//! Categories that events are filed under.

use vstd::prelude::*;

verus! {

/// A category of events: its identifier and the label shown for it.
#[derive(Debug, PartialEq, Eq)]
pub struct Category {
    pub id: String,
    pub label: String,
}

} // verus!
