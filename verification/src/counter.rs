//! The counter store: one unsigned integer that is read and incremented.

use vstd::prelude::*;

verus! {

/// The value that all counter requests share.
pub struct CounterStore {
    value: usize,
}

impl View for CounterStore {
    type V = nat;

    closed spec fn view(&self) -> nat {
        self.value as nat
    }
}

/// The value that one increment makes of `value`.
pub open spec fn incremented(value: nat) -> nat {
    value + 1
}

/// The value after `n` increments that started at `start`. The lock admits
/// one caller at a time, so any `n` calls are `n` increments in a row.
pub open spec fn after_increments(start: nat, n: nat) -> nat
    decreases n,
{
    if n == 0 {
        start
    } else {
        incremented(after_increments(start, (n - 1) as nat))
    }
}

impl CounterStore {
    /// A counter that starts at `count`.
    pub fn new(count: usize) -> (store: CounterStore)
        ensures
            store@ == count,
    {
        CounterStore { value: count }
    }

    /// The current value; the store stays as it is.
    pub fn read(&self) -> (value: usize)
        ensures
            value == self@,
    {
        self.value
    }

    /// Whether one more increment fits in the machine word.
    pub fn can_increment(&self) -> (fits: bool)
        ensures
            fits == (self@ < usize::MAX),
    {
        self.value < usize::MAX
    }

    /// Adds one and returns the new value.
    pub fn increment(&mut self) -> (value: usize)
        requires
            old(self)@ < usize::MAX,
        ensures
            final(self)@ == incremented(old(self)@),
            value == final(self)@,
    {
        self.value = self.value + 1;
        self.value
    }
}

/// No update is lost and none is applied twice: `n` increments, in whatever
/// order their callers were admitted, leave the counter at its starting value
/// plus `n`, and the call that was admitted as the `k`-th returned the
/// starting value plus `k`.
pub proof fn lemma_increments_add_up(start: nat, n: nat)
    ensures
        after_increments(start, n) == start + n,
        forall|k: nat| 1 <= k <= n ==> #[trigger] after_increments(start, k) == start + k,
    decreases n,
{
    if n > 0 {
        lemma_increments_add_up(start, (n - 1) as nat);
    }
}

} // verus!
