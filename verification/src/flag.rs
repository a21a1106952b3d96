use vstd::prelude::*;
use crate::location::Location;
use crate::model::{AccessModel, BorrowState};

verus! {

/// The counter value meaning that no access is alive.
const UNUSED: usize = 0;

/// The sentinel counter value meaning that the exclusive access is alive;
/// every value strictly between `UNUSED` and `WRITING` counts alive shared
/// accesses.
const WRITING: usize = usize::MAX;

/// The borrow-state machine: a counter together with the location
/// descriptors of the accesses still alive (when diagnostics are enabled).
///
/// Its view is the [`AccessModel`] it realises; every operation is proved
/// to follow the model's transitions exactly. The counter is mutated only
/// here, by acquisitions and releases, never by a cell's consumer directly.
pub struct BorrowFlag {
    flag: usize,
    locations: Vec<Location>,
    diagnostics: bool,
}

impl View for BorrowFlag {
    type V = AccessModel;

    closed spec fn view(&self) -> AccessModel {
        AccessModel {
            count: if self.flag == WRITING {
                0
            } else {
                self.flag as nat
            },
            writing: self.flag == WRITING,
            locations: self.locations@,
            diagnostics: self.diagnostics,
        }
    }
}

impl BorrowFlag {
    /// A fresh state machine with no access alive; `diagnostics` fixes once
    /// and for all whether acquisitions record their caller's location.
    pub fn new(diagnostics: bool) -> (f: BorrowFlag)
        ensures
            f@ == AccessModel::initial(diagnostics),
            f@.wf(),
    {
        let f = BorrowFlag { flag: UNUSED, locations: Vec::new(), diagnostics };
        proof {
            assert(f@ =~= AccessModel::initial(diagnostics));
        }
        f
    }

    /// The observable state of the machine.
    pub fn state(&self) -> (s: BorrowState)
        ensures
            s == self@.state(),
    {
        if self.flag == WRITING {
            BorrowState::Writing
        } else if self.flag == UNUSED {
            BorrowState::Unused
        } else {
            BorrowState::Reading
        }
    }

    /// How many shared accesses are alive.
    pub fn shared_count(&self) -> (n: usize)
        ensures
            n == self@.count,
    {
        if self.flag == WRITING {
            0
        } else {
            self.flag
        }
    }

    /// A copy of the recorded locations, for embedding in an error report.
    pub fn locations_snapshot(&self) -> (v: Vec<Location>)
        ensures
            v@ == self@.locations,
    {
        let v = self.locations.clone();
        proof {
            assert forall|i: int| 0 <= i < self.locations@.len() implies v@[i]
                == self.locations@[i] by {
                assert(cloned::<Location>(self.locations[i], v[i]));
            }
            assert(v@ =~= self.locations@);
        }
        v
    }

    /// Attempts the shared-acquisition transition: succeeds, counting one
    /// more reader and recording `caller`, unless the exclusive access is
    /// alive; a failed attempt changes nothing.
    pub fn try_acquire_shared(&mut self, caller: &Location) -> (ok: bool)
        requires
            old(self)@.wf(),
            old(self)@.count < usize::MAX - 1,
        ensures
            final(self)@.wf(),
            ok == old(self)@.can_acquire_shared(),
            ok ==> final(self)@ == old(self)@.with_shared_acquired(*caller),
            !ok ==> final(self)@ == old(self)@,
    {
        if self.flag == WRITING {
            return false;
        }
        self.flag = self.flag + 1;
        if self.diagnostics {
            self.locations.push(caller.clone());
        }
        proof {
            assert(self@ =~= old(self)@.with_shared_acquired(*caller));
        }
        true
    }

    /// Attempts the exclusive-acquisition transition: succeeds, recording
    /// `caller`, only from the unused state; a failed attempt changes
    /// nothing.
    pub fn try_acquire_exclusive(&mut self, caller: &Location) -> (ok: bool)
        requires
            old(self)@.wf(),
        ensures
            final(self)@.wf(),
            ok == old(self)@.can_acquire_exclusive(),
            ok ==> final(self)@ == old(self)@.with_exclusive_acquired(*caller),
            !ok ==> final(self)@ == old(self)@,
    {
        if self.flag != UNUSED {
            return false;
        }
        self.flag = WRITING;
        if self.diagnostics {
            self.locations.push(caller.clone());
        }
        proof {
            assert(self@ =~= old(self)@.with_exclusive_acquired(*caller));
        }
        true
    }

    /// Releases one shared access: counts one reader down and pops the
    /// newest recorded location. Calling this in any state but `Reading`
    /// would be a consistency violation, so that state is required.
    pub fn release_shared(&mut self)
        requires
            old(self)@.wf(),
            old(self)@.state() is Reading,
        ensures
            final(self)@.wf(),
            final(self)@ == old(self)@.with_shared_released(),
    {
        self.flag = self.flag - 1;
        if self.diagnostics {
            let _popped = self.locations.pop();
        }
        proof {
            assert(self@ =~= old(self)@.with_shared_released());
        }
    }

    /// Releases the exclusive access: returns to the unused state and pops
    /// the newest recorded location. Calling this in any state but
    /// `Writing` would be a consistency violation, so that state is
    /// required.
    pub fn release_exclusive(&mut self)
        requires
            old(self)@.wf(),
            old(self)@.state() is Writing,
        ensures
            final(self)@.wf(),
            final(self)@ == old(self)@.with_exclusive_released(),
    {
        self.flag = UNUSED;
        if self.diagnostics {
            let _popped = self.locations.pop();
        }
        proof {
            assert(self@ =~= old(self)@.with_exclusive_released());
        }
    }
}

} // verus!
