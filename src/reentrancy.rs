//! Single-flag lock that rejects re-entry into swap and flash-loan calls.
use vstd::prelude::*;

use crate::errors::PairError;

verus! {

/// The lock flag; a fresh guard is unlocked.
#[derive(Clone, Copy, Debug, PartialEq, Eq, Structural)]
pub struct ReentrancyGuard {
    pub locked: bool,
}

impl ReentrancyGuard {
    /// An unlocked guard.
    pub fn new() -> (r: ReentrancyGuard)
        ensures
            !r.locked,
    {
        ReentrancyGuard { locked: false }
    }
}

/// Takes the lock; fails with `Locked`, changing nothing, if it is held.
pub fn acquire(guard: &mut ReentrancyGuard) -> (r: Result<(), PairError>)
    ensures
        old(guard).locked ==> r == Err::<(), PairError>(PairError::Locked) && *final(guard) == *old(guard),
        !old(guard).locked ==> r is Ok && final(guard).locked,
{
    if guard.locked {
        return Err(PairError::Locked);
    }
    guard.locked = true;
    Ok(())
}

/// Clears the lock, whatever its state.
pub fn release(guard: &mut ReentrancyGuard)
    ensures
        !final(guard).locked,
{
    guard.locked = false;
}

} // verus!
