//! The record of what the last poll of a body gave.
//!
//! Only the call that polls hyper's body sets the record, so a reader's
//! contract can speak of what its body really handed out.

use crate::http::ChunkPoll;
use vstd::prelude::*;

verus! {

/// What the last poll of a body gave, if it has been polled.
pub struct PollRecord {
    last: Ghost<Option<ChunkPoll>>,
}

impl PollRecord {
    /// What the last poll recorded here gave; `None` before any poll.
    pub closed spec fn last(&self) -> Option<ChunkPoll> {
        self.last@
    }

    /// A record of no poll.
    pub fn new() -> (r: Self)
        ensures
            r.last() is None,
    {
        PollRecord { last: Ghost(None) }
    }
}

} // verus!
