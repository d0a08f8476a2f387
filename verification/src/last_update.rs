//! Slot of the last update of a piece of lending state.
use vstd::prelude::*;
use crate::error::LendingError;

verus! {

/// Last update to state.
#[derive(Clone, Copy, Debug, PartialEq, Eq, Structural)]
pub struct LastUpdate {
    /// Last slot when updated
    pub slot: u64,
    /// True when marked stale, false when slot updated
    pub stale: bool,
}

impl LastUpdate {
    /// A last update at `slot`, marked stale.
    pub fn new(slot: u64) -> (r: Self)
        ensures
            r.slot == slot,
            r.stale,
    {
        Self { slot, stale: true }
    }

    /// Slots elapsed since the last update.
    pub fn slots_elapsed(&self, slot: u64) -> (r: Result<u64, LendingError>)
        ensures
            slot >= self.slot ==> r == Ok::<u64, LendingError>((slot - self.slot) as u64),
            slot < self.slot ==> r == Err::<u64, LendingError>(LendingError::MathOverflow),
    {
        match slot.checked_sub(self.slot) {
            Some(v) => Ok(v),
            None => Err(LendingError::MathOverflow),
        }
    }
}

} // verus!
