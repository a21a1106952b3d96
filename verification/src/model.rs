use vstd::prelude::*;
use crate::location::Location;

verus! {

/// The three observable states of a cell's borrow-state machine.
#[derive(Copy, Clone, PartialEq, Eq, Structural, Debug)]
pub enum BorrowState {
    /// The cell is currently being read; at least one shared access is alive.
    Reading,
    /// The cell is currently being written to; one exclusive access is alive.
    Writing,
    /// There are no outstanding accesses on this cell.
    Unused,
}

/// The mathematical model of an access state: how many shared accesses are
/// alive, whether an exclusive access is alive, and the location descriptors
/// recorded for the accesses still outstanding (newest last).
///
/// `diagnostics` is the configuration switch fixed when the state is
/// created: with it off, no locations are ever recorded and error reports
/// omit them.
#[verifier::ext_equal]
pub struct AccessModel {
    /// The number of shared accesses currently alive.
    pub count: nat,
    /// Whether the one exclusive access is currently alive.
    pub writing: bool,
    /// The locations recorded for the outstanding accesses, oldest first.
    pub locations: Seq<Location>,
    /// Whether location recording is enabled.
    pub diagnostics: bool,
}

impl AccessModel {
    /// The state as a fresh cell starts in: unused, nothing recorded.
    pub open spec fn initial(diagnostics: bool) -> AccessModel {
        AccessModel { count: 0, writing: false, locations: Seq::empty(), diagnostics }
    }

    /// How many accesses of either kind are alive.
    pub open spec fn active_accesses(self) -> nat {
        if self.writing {
            1
        } else {
            self.count
        }
    }

    /// The observable state of the machine.
    pub open spec fn state(self) -> BorrowState {
        if self.writing {
            BorrowState::Writing
        } else if self.count > 0 {
            BorrowState::Reading
        } else {
            BorrowState::Unused
        }
    }

    /// Well-formedness: shared and exclusive access never coexist, and with
    /// diagnostics enabled exactly one location is recorded per live access.
    pub open spec fn wf(self) -> bool {
        &&& self.writing ==> self.count == 0
        &&& self.diagnostics ==> self.locations.len() == self.active_accesses()
        &&& !self.diagnostics ==> self.locations.len() == 0
    }

    /// A shared access may be acquired unless an exclusive access is alive.
    pub open spec fn can_acquire_shared(self) -> bool {
        !self.writing
    }

    /// An exclusive access may be acquired only when nothing else is alive.
    pub open spec fn can_acquire_exclusive(self) -> bool {
        !self.writing && self.count == 0
    }

    /// The locations after a successful acquisition records `caller`.
    pub open spec fn recorded(self, caller: Location) -> Seq<Location> {
        if self.diagnostics {
            self.locations.push(caller)
        } else {
            self.locations
        }
    }

    /// The locations after a release pops the newest entry.
    pub open spec fn unrecorded(self) -> Seq<Location> {
        if self.diagnostics {
            self.locations.drop_last()
        } else {
            self.locations
        }
    }

    /// The state after a successful shared acquisition at `caller`.
    pub open spec fn with_shared_acquired(self, caller: Location) -> AccessModel {
        AccessModel {
            count: self.count + 1,
            writing: self.writing,
            locations: self.recorded(caller),
            diagnostics: self.diagnostics,
        }
    }

    /// The state after one shared access is released.
    pub open spec fn with_shared_released(self) -> AccessModel {
        AccessModel {
            count: (self.count - 1) as nat,
            writing: self.writing,
            locations: self.unrecorded(),
            diagnostics: self.diagnostics,
        }
    }

    /// The state after a successful exclusive acquisition at `caller`.
    pub open spec fn with_exclusive_acquired(self, caller: Location) -> AccessModel {
        AccessModel {
            count: self.count,
            writing: true,
            locations: self.recorded(caller),
            diagnostics: self.diagnostics,
        }
    }

    /// The state after the exclusive access is released.
    pub open spec fn with_exclusive_released(self) -> AccessModel {
        AccessModel {
            count: self.count,
            writing: false,
            locations: self.unrecorded(),
            diagnostics: self.diagnostics,
        }
    }
}

/// Shared and exclusive access exclude one another: while shared accesses
/// are alive no exclusive access exists, and while the exclusive access is
/// alive the shared count is zero.
pub proof fn lemma_access_kinds_exclusive(m: AccessModel)
    requires
        m.wf(),
    ensures
        m.count > 0 ==> !m.writing && m.state() is Reading,
        m.writing ==> m.count == 0 && m.state() is Writing,
{
}

/// An exclusive acquisition fails while any shared access is alive, and no
/// acquisition of either kind succeeds while an exclusive access is alive.
pub proof fn lemma_conflicts_refused(m: AccessModel)
    requires
        m.wf(),
    ensures
        m.state() is Reading ==> !m.can_acquire_exclusive(),
        m.state() is Writing ==> !m.can_acquire_shared() && !m.can_acquire_exclusive(),
{
}

/// Shared access is reentrant: while shared accesses are alive, a further
/// shared acquisition still succeeds even though an exclusive one fails.
pub proof fn lemma_shared_reentrant(m: AccessModel)
    requires
        m.wf(),
        m.state() is Reading,
    ensures
        !m.can_acquire_exclusive(),
        m.can_acquire_shared(),
{
}

/// Releasing a shared access restores the exact state from before its
/// acquisition.
pub proof fn lemma_shared_release_restores(m: AccessModel, caller: Location)
    requires
        m.wf(),
        m.can_acquire_shared(),
    ensures
        m.with_shared_acquired(caller).wf(),
        m.with_shared_acquired(caller).with_shared_released() == m,
{
    assert(m.with_shared_acquired(caller).with_shared_released() =~= m);
}

/// Releasing the exclusive access restores the exact state from before its
/// acquisition.
pub proof fn lemma_exclusive_release_restores(m: AccessModel, caller: Location)
    requires
        m.wf(),
        m.can_acquire_exclusive(),
    ensures
        m.with_exclusive_acquired(caller).wf(),
        m.with_exclusive_acquired(caller).with_exclusive_released() == m,
{
    assert(m.with_exclusive_acquired(caller).with_exclusive_released() =~= m);
}

/// The state reached by acquiring one shared access per location in
/// `callers`, in order.
pub open spec fn with_n_shared_acquired(m: AccessModel, callers: Seq<Location>) -> AccessModel
    decreases callers.len(),
{
    if callers.len() == 0 {
        m
    } else {
        with_n_shared_acquired(m.with_shared_acquired(callers[0]), callers.drop_first())
    }
}

/// The state reached by releasing `n` shared accesses, newest first.
pub open spec fn with_n_shared_released(m: AccessModel, n: nat) -> AccessModel
    decreases n,
{
    if n == 0 {
        m
    } else {
        with_n_shared_released(m, (n - 1) as nat).with_shared_released()
    }
}

/// Any number of shared accesses may coexist, and releasing them all
/// restores the exact starting state; from an unused state they leave the
/// machine reading while any is alive.
pub proof fn lemma_shared_round_trip(m: AccessModel, callers: Seq<Location>)
    requires
        m.wf(),
        m.can_acquire_shared(),
    ensures
        with_n_shared_acquired(m, callers).wf(),
        with_n_shared_acquired(m, callers).can_acquire_shared(),
        with_n_shared_acquired(m, callers).count == m.count + callers.len(),
        callers.len() > 0 && m.state() is Unused ==> with_n_shared_acquired(m, callers).state()
            is Reading,
        with_n_shared_released(with_n_shared_acquired(m, callers), callers.len()) == m,
    decreases callers.len(),
{
    if callers.len() > 0 {
        let m1 = m.with_shared_acquired(callers[0]);
        lemma_shared_release_restores(m, callers[0]);
        lemma_shared_round_trip(m1, callers.drop_first());
        let acquired = with_n_shared_acquired(m, callers);
        assert(with_n_shared_released(acquired, callers.len())
            == with_n_shared_released(acquired, (callers.len() - 1) as nat).with_shared_released());
        assert(m1.with_shared_released() =~= m);
    }
}

} // verus!
