//! The completion bridge: a single-resolution cell between a native
//! callback and the caller awaiting its value.
//!
//! A [`Completion`] is created pending, before the triggering native call.
//! The native callback resolves it exactly once; a second invocation of the
//! callback is ignored deterministically and leaves the already-resolved
//! value untouched. If the awaiting side is torn down first, the cell is
//! abandoned, and a late callback detects that and does nothing rather than
//! write through a dangling target.

use vstd::prelude::*;

verus! {

/// The lifecycle of a completion cell.
pub enum CompletionState<T> {
    /// Created, not yet resolved; the awaiting side would suspend.
    Pending,
    /// Resolved with the value the callback delivered.
    Resolved(T),
    /// The awaiting side is gone; resolution attempts are dropped.
    Abandoned,
}

/// A single-shot communication cell bridging a native callback to a caller
/// awaiting a value, with exactly-once delivery.
pub struct Completion<T> {
    state: CompletionState<T>,
    resolve_calls: u64,
}

/// What one resolution attempt does to a cell's state: a pending cell
/// resolves; any other cell is left exactly as it was.
pub open spec fn resolve_effect<T>(state: CompletionState<T>, value: T) -> CompletionState<T> {
    match state {
        CompletionState::Pending => CompletionState::Resolved(value),
        _ => state,
    }
}

impl<T> Completion<T> {
    pub closed spec fn state_spec(&self) -> CompletionState<T> {
        self.state
    }

    /// How many times the callback token was invoked on this cell.
    pub closed spec fn resolve_calls_spec(&self) -> u64 {
        self.resolve_calls
    }

    pub open spec fn is_pending(&self) -> bool {
        self.state_spec() is Pending
    }

    pub open spec fn is_resolved(&self) -> bool {
        self.state_spec() is Resolved
    }

    pub open spec fn is_abandoned(&self) -> bool {
        self.state_spec() is Abandoned
    }

    /// The value the cell was resolved with.
    pub open spec fn value_spec(&self) -> T
        recommends
            self.is_resolved(),
    {
        self.state_spec()->Resolved_0
    }

    /// Create the cell, pending, before the triggering native call is made.
    pub fn new() -> (c: Completion<T>)
        ensures
            c.is_pending(),
            c.resolve_calls_spec() == 0,
    {
        Completion { state: CompletionState::Pending, resolve_calls: 0 }
    }

    pub fn pending(&self) -> (r: bool)
        ensures
            r == self.is_pending(),
    {
        match self.state {
            CompletionState::Pending => true,
            _ => false,
        }
    }

    pub fn resolved(&self) -> (r: bool)
        ensures
            r == self.is_resolved(),
    {
        match self.state {
            CompletionState::Resolved(_) => true,
            _ => false,
        }
    }

    pub fn resolve_calls(&self) -> (n: u64)
        ensures
            n == self.resolve_calls_spec(),
    {
        self.resolve_calls
    }

    /// The callback token's entry point: deliver a value. The first delivery
    /// on a pending cell resolves it and is accepted; every later delivery —
    /// a contract violation by the wrapped framework — is ignored and leaves
    /// the cell's state untouched, as is a delivery to an abandoned cell.
    pub fn resolve(&mut self, value: T) -> (accepted: bool)
        requires
            old(self).resolve_calls_spec() < u64::MAX,
        ensures
            accepted == old(self).is_pending(),
            final(self).state_spec() == resolve_effect(old(self).state_spec(), value),
            final(self).resolve_calls_spec() == old(self).resolve_calls_spec() + 1,
    {
        self.resolve_calls = self.resolve_calls + 1;
        match self.state {
            CompletionState::Pending => {
                self.state = CompletionState::Resolved(value);
                true
            },
            _ => false,
        }
    }

    /// Tear down the awaiting side before resolution: a callback that fires
    /// later finds the cell abandoned and does not write. A cell that was
    /// already resolved keeps its value.
    pub fn abandon(&mut self)
        ensures
            old(self).is_pending() ==> final(self).is_abandoned(),
            !old(self).is_pending() ==> final(self).state_spec() == old(self).state_spec(),
            final(self).resolve_calls_spec() == old(self).resolve_calls_spec(),
    {
        match self.state {
            CompletionState::Pending => {
                self.state = CompletionState::Abandoned;
            },
            _ => {},
        }
    }

    /// The awaiting side's single read: consume the cell and yield the value
    /// it was resolved with. The caller suspends until resolution, so the
    /// cell must be resolved by the time this runs.
    pub fn take(self) -> (v: T)
        requires
            self.is_resolved(),
        ensures
            v == self.value_spec(),
    {
        match self.state {
            CompletionState::Resolved(v) => v,
            _ => unreached(),
        }
    }
}

/// Resolving a cell a second time has no observable effect on its state: for
/// any starting state and any two delivered values, the second delivery
/// leaves the cell exactly as the first left it.
pub proof fn lemma_resolve_idempotent_after_first<T>(
    state: CompletionState<T>,
    first: T,
    second: T,
)
    ensures
        resolve_effect(resolve_effect(state, first), second) == resolve_effect(state, first),
{
}

} // verus!
