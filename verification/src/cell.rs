use vstd::prelude::*;
use crate::errors::{BorrowError, BorrowMutError};
use crate::flag::BorrowFlag;
use crate::location::Location;
use crate::model::{AccessModel, BorrowState};

verus! {

/// A dynamically-checked interior-mutability cell: one value, gated by a
/// borrow-state machine.
///
/// Acquiring access yields a move-only guard token; giving the token back
/// to [`RefCell::release`] or [`RefCell::release_mut`] is the only way the
/// state reverts. Reads and writes of the value go through the cell and
/// require the matching kind of access to be alive, so the machine is the
/// sole gatekeeper of the value.
pub struct RefCell<T> {
    value: T,
    borrow: BorrowFlag,
}

/// A move-only token witnessing one outstanding shared access. Tokens
/// cannot be copied: one successful acquisition yields exactly one, and
/// releasing it reverses exactly that acquisition. A token does not name
/// the cell it came from; give it back to the cell that issued it.
pub struct Ref {
    _private: (),
}

/// A move-only token witnessing the one outstanding exclusive access.
pub struct RefMut {
    _private: (),
}

impl<T> RefCell<T> {
    /// The model of the cell's borrow-state machine.
    pub closed spec fn access(&self) -> AccessModel {
        self.borrow@
    }

    /// The value currently stored in the cell.
    pub closed spec fn inner(&self) -> T {
        self.value
    }

    /// Well-formedness of the borrow-state machine.
    pub open spec fn wf(&self) -> bool {
        self.access().wf()
    }

    /// Creates a new cell containing `value`, with location diagnostics
    /// enabled.
    pub fn new(value: T) -> (c: RefCell<T>)
        ensures
            c.wf(),
            c.access() == AccessModel::initial(true),
            c.inner() == value,
    {
        RefCell { value, borrow: BorrowFlag::new(true) }
    }

    /// Creates a new cell containing `value` that records no locations:
    /// the state machine behaves identically, but error reports omit the
    /// active accesses.
    pub fn new_without_diagnostics(value: T) -> (c: RefCell<T>)
        ensures
            c.wf(),
            c.access() == AccessModel::initial(false),
            c.inner() == value,
    {
        RefCell { value, borrow: BorrowFlag::new(false) }
    }

    /// Consumes the cell, returning the wrapped value. Destroying the cell
    /// while a guard is outstanding would be a consistency violation, so
    /// the unused state is required.
    pub fn into_inner(self) -> (v: T)
        requires
            self.access().state() is Unused,
        ensures
            v == self.inner(),
    {
        self.value
    }

    /// The observable state of the cell's borrow-state machine.
    pub fn state(&self) -> (s: BorrowState)
        ensures
            s == self.access().state(),
    {
        self.borrow.state()
    }

    /// Attempts to acquire shared access, recording `caller`. Succeeds
    /// unless the exclusive access is alive; failure is reported as an
    /// error value carrying the attempted location and the locations of
    /// the accesses already alive, and changes nothing.
    pub fn try_borrow(&mut self, caller: Location) -> (r: Result<Ref, BorrowError>)
        requires
            old(self).wf(),
            old(self).access().count < usize::MAX - 1,
        ensures
            final(self).wf(),
            final(self).inner() == old(self).inner(),
            r is Ok <==> old(self).access().can_acquire_shared(),
            r is Ok ==> final(self).access() == old(self).access().with_shared_acquired(caller),
            r is Err ==> final(self).access() == old(self).access(),
            r matches Err(e) ==> e.attempted_at == caller && e.already_borrowed_at@ == old(
                self,
            ).access().locations,
    {
        let ok = self.borrow.try_acquire_shared(&caller);
        if ok {
            Ok(Ref { _private: () })
        } else {
            Err(
                BorrowError {
                    already_borrowed_at: self.borrow.locations_snapshot(),
                    attempted_at: caller,
                },
            )
        }
    }

    /// Acquires shared access, recording `caller`. A conflicting exclusive
    /// access is excluded by the precondition; through
    /// [`RefCell::try_borrow`] the same conflict is reported as an error
    /// instead.
    pub fn borrow(&mut self, caller: Location) -> (g: Ref)
        requires
            old(self).wf(),
            old(self).access().can_acquire_shared(),
            old(self).access().count < usize::MAX - 1,
        ensures
            final(self).wf(),
            final(self).inner() == old(self).inner(),
            final(self).access() == old(self).access().with_shared_acquired(caller),
    {
        match self.try_borrow(caller) {
            Ok(g) => g,
            Err(_) => unreached(),
        }
    }

    /// Attempts to acquire exclusive access, recording `caller`. Succeeds
    /// only when no access is alive; failure is reported as an error value
    /// carrying the attempted location and the locations of the accesses
    /// already alive, and changes nothing.
    pub fn try_borrow_mut(&mut self, caller: Location) -> (r: Result<RefMut, BorrowMutError>)
        requires
            old(self).wf(),
        ensures
            final(self).wf(),
            final(self).inner() == old(self).inner(),
            r is Ok <==> old(self).access().can_acquire_exclusive(),
            r is Ok ==> final(self).access() == old(self).access().with_exclusive_acquired(caller),
            r is Err ==> final(self).access() == old(self).access(),
            r matches Err(e) ==> e.attempted_at == caller && e.already_borrowed_at@ == old(
                self,
            ).access().locations,
    {
        let ok = self.borrow.try_acquire_exclusive(&caller);
        if ok {
            Ok(RefMut { _private: () })
        } else {
            Err(
                BorrowMutError {
                    already_borrowed_at: self.borrow.locations_snapshot(),
                    attempted_at: caller,
                },
            )
        }
    }

    /// Acquires exclusive access, recording `caller`. Conflicting accesses
    /// are excluded by the precondition; through
    /// [`RefCell::try_borrow_mut`] the same conflict is reported as an
    /// error instead.
    pub fn borrow_mut(&mut self, caller: Location) -> (g: RefMut)
        requires
            old(self).wf(),
            old(self).access().can_acquire_exclusive(),
        ensures
            final(self).wf(),
            final(self).inner() == old(self).inner(),
            final(self).access() == old(self).access().with_exclusive_acquired(caller),
    {
        match self.try_borrow_mut(caller) {
            Ok(g) => g,
            Err(_) => unreached(),
        }
    }

    /// Reads the value under a live shared access.
    pub fn read(&self, _guard: &Ref) -> (v: &T)
        requires
            self.access().state() is Reading,
        ensures
            *v == self.inner(),
    {
        &self.value
    }

    /// Reads the value under the live exclusive access.
    pub fn read_mut(&self, _guard: &RefMut) -> (v: &T)
        requires
            self.access().state() is Writing,
        ensures
            *v == self.inner(),
    {
        &self.value
    }

    /// Replaces the value under the live exclusive access. The state
    /// machine is untouched: writing is what the access was acquired for.
    pub fn write(&mut self, _guard: &RefMut, value: T)
        requires
            old(self).wf(),
            old(self).access().state() is Writing,
        ensures
            final(self).wf(),
            final(self).inner() == value,
            final(self).access() == old(self).access(),
    {
        self.value = value;
    }

    /// Releases one shared access: the guard is consumed and the machine
    /// returns to the state from before the matching acquisition.
    pub fn release(&mut self, guard: Ref)
        requires
            old(self).wf(),
            old(self).access().state() is Reading,
        ensures
            final(self).wf(),
            final(self).inner() == old(self).inner(),
            final(self).access() == old(self).access().with_shared_released(),
    {
        let Ref { _private: () } = guard;
        self.borrow.release_shared();
    }

    /// Releases the exclusive access: the guard is consumed and the
    /// machine returns to the unused state.
    pub fn release_mut(&mut self, guard: RefMut)
        requires
            old(self).wf(),
            old(self).access().state() is Writing,
        ensures
            final(self).wf(),
            final(self).inner() == old(self).inner(),
            final(self).access() == old(self).access().with_exclusive_released(),
    {
        let RefMut { _private: () } = guard;
        self.borrow.release_exclusive();
    }
}

} // verus!
