use vstd::prelude::*;
use vstd::rwlock::RwLock;
use vstd::rwlock::RwLockPredicate;
use std::sync::Arc;
use crate::duty::DutyCycle;

verus! {

/// Predicate for the duty-cycle lock. Every value is admitted: writers are
/// trusted to aim for the intended range, and an out-of-range value passes
/// through to the timing computations uncorrected, which saturate instead of
/// failing.
pub struct AnyDuty;

impl RwLockPredicate<DutyCycle> for AnyDuty {
    open spec fn inv(self, v: DutyCycle) -> bool {
        true
    }
}

/// Shared, mutable holder of one channel's active duty cycle.
///
/// Handles made by [`DutyStore::control_handle`] refer to the same underlying
/// cell, so a control thread may change the duty cycle while the channel's
/// timing loop reads it. Reads and writes are serialized by a verified
/// reader-writer lock: a read returns a value some write completed — never a
/// torn one — and accessors cannot fail, so a channel never has to stop over
/// an inconsistent store.
pub struct DutyStore {
    cell: Arc<RwLock<DutyCycle, AnyDuty>>,
}

impl DutyStore {
    /// True when the two handles refer to the same underlying cell.
    pub closed spec fn shares_cell_with(&self, other: &Self) -> bool {
        self.cell == other.cell
    }

    pub fn new(initial: DutyCycle) -> (s: Self) {
        DutyStore { cell: Arc::new(RwLock::new(initial, Ghost(AnyDuty))) }
    }

    /// Another handle on the same cell, for a control thread to write through.
    pub fn control_handle(&self) -> (s: Self)
        ensures
            s.shares_cell_with(self),
    {
        DutyStore { cell: self.cell.clone() }
    }

    /// The duty cycle most recently stored, read under the lock.
    pub fn read(&self) -> (d: DutyCycle) {
        let handle = (*self.cell).acquire_read();
        let d = *handle.borrow();
        handle.release_read();
        d
    }

    /// Replace the stored duty cycle, atomically with respect to all other
    /// handles on the same cell.
    pub fn write(&self, d: DutyCycle) {
        let (_, handle) = (*self.cell).acquire_write();
        handle.release_write(d);
    }
}

} // verus!
