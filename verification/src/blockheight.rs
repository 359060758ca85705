//! The chain-tip tracker: one process-wide height, replaced on every
//! chain-tip notification and read by each hook evaluation's timelock guard.
//! The surrounding binary keeps the tracker under its lock; the update rule
//! itself is decided here.

use vstd::prelude::*;
use crate::hooks::HookError;

verus! {

/// The chain tip as last observed.
#[derive(Debug, Clone, Copy, PartialEq, Eq, Structural)]
pub struct BlockheightTracker {
    pub height: u64,
}

impl BlockheightTracker {
    /// A tracker that has not yet seen a notification.
    pub fn new() -> (r: BlockheightTracker)
        ensures
            r.height == 0,
    {
        BlockheightTracker { height: 0 }
    }
}

/// An inbound chain-tip notification, reduced to what the logic reads: did
/// the event carry a block object, and did that block carry a usable height.
#[derive(Debug, Clone, Copy, PartialEq, Eq, Structural)]
pub struct BlockNotification {
    pub block_present: bool,
    pub height: Option<u64>,
}

/// Apply a chain-tip notification. A malformed notification — no block
/// object, or a block without a usable height — is a hard error and leaves
/// the tracked height untouched: the timelock guard depends on a correct
/// height, so such an event must not be silently ignored.
pub fn block_added(tracker: &mut BlockheightTracker, note: &BlockNotification) -> (r: Result<
    (),
    HookError,
>)
    ensures
        !note.block_present ==> r == Err::<(), HookError>(HookError::MissingBlock)
            && *final(tracker) == *old(tracker),
        note.block_present && note.height is None ==> r == Err::<(), HookError>(
            HookError::MissingBlockHeight,
        ) && *final(tracker) == *old(tracker),
        note.block_present ==> (note.height matches Some(h) ==> r == Ok::<(), HookError>(())
            && final(tracker).height == h),
{
    if !note.block_present {
        Err(HookError::MissingBlock)
    } else {
        match note.height {
            Some(h) => {
                tracker.height = h;
                Ok(())
            },
            None => Err(HookError::MissingBlockHeight),
        }
    }
}

} // verus!
