//! The shared request counter.
//!
//! A `SharedCounter` is a process-wide tally: it starts at zero, and each
//! invocation of [`SharedCounter::increment_and_read`] increments it by one
//! and returns the new value. The caller that owns the single instance wraps
//! it in an exclusive lock and hands every request handler a reference; the
//! exclusive access makes the increment-and-read sequence atomic, so the
//! counter's state evolves as one total order of calls. This module models
//! that linearized order: `spec_step` and `spec_result` say what one call in
//! the order does, and the lemmas below say what any sequence of calls
//! returns.
//!
//! A holder of the exclusive access that terminates abnormally leaves the
//! counter poisoned; every later call then fails with
//! [`CounterError::PoisonedState`], the component's only error.

use vstd::prelude::*;

verus! {

/// The one way `increment_and_read` can fail: a prior holder of the
/// exclusive access terminated abnormally while holding it.
#[derive(Clone, Copy, Debug, PartialEq, Eq, Structural)]
pub enum CounterError {
    PoisonedState,
}

/// The abstract state of a counter: its tally and whether it is poisoned.
pub struct CounterView {
    pub value: int,
    pub poisoned: bool,
}

/// The state of a fresh counter, as built at process start.
pub open spec fn fresh_view() -> CounterView {
    CounterView { value: 0, poisoned: false }
}

/// What one call to `increment_and_read` does to the counter's state.
pub open spec fn spec_step(v: CounterView) -> CounterView {
    if v.poisoned {
        v
    } else {
        CounterView { value: v.value + 1, poisoned: false }
    }
}

/// What one call to `increment_and_read` returns, given the counter's state.
pub open spec fn spec_result(v: CounterView) -> Result<int, CounterError> {
    if v.poisoned {
        Err(CounterError::PoisonedState)
    } else {
        Ok(v.value + 1)
    }
}

/// Whether the executable result `r` carries exactly the abstract result `m`.
pub open spec fn result_corresponds(r: Result<i64, CounterError>, m: Result<int, CounterError>) -> bool {
    match r {
        Ok(x) => m == Ok::<int, CounterError>(x as int),
        Err(e) => m == Err::<int, CounterError>(e),
    }
}

/// The in-process request counter. Exactly one instance exists per server
/// process; request handlers share it by reference under an exclusive lock
/// and reach the tally only through `increment_and_read`.
pub struct SharedCounter {
    value: i64,
    poisoned: bool,
}

impl View for SharedCounter {
    type V = CounterView;

    closed spec fn view(&self) -> CounterView {
        CounterView { value: self.value as int, poisoned: self.poisoned }
    }
}

impl SharedCounter {
    /// The counter's invariant: the tally never leaves the machine range,
    /// and never goes below its starting point.
    pub open spec fn wf(&self) -> bool {
        0 <= self@.value <= i64::MAX
    }

    /// A fresh counter, with the tally at zero and the access unpoisoned.
    pub fn new() -> (c: SharedCounter)
        ensures
            c@ == fresh_view(),
            c.wf(),
    {
        SharedCounter { value: 0, poisoned: false }
    }

    /// Whether the tally has room for one more increment. The tally would
    /// need one call per count to exhaust an `i64`, but a caller that cannot
    /// otherwise bound the count checks here first.
    pub fn can_increment(&self) -> (r: bool)
        ensures
            r == (self@.value < i64::MAX),
    {
        self.value < i64::MAX
    }

    /// The counter's one atomic step: increment the tally by one and return
    /// the new value. No two callers ever observe the same post-increment
    /// value, because each call steps the state exactly once. Fails with
    /// `PoisonedState`, leaving the state unchanged, exactly when the counter
    /// is poisoned.
    pub fn increment_and_read(&mut self) -> (r: Result<i64, CounterError>)
        requires
            old(self).wf(),
            old(self)@.poisoned || old(self)@.value < i64::MAX,
        ensures
            final(self).wf(),
            final(self)@ == spec_step(old(self)@),
            result_corresponds(r, spec_result(old(self)@)),
    {
        if self.poisoned {
            Err(CounterError::PoisonedState)
        } else {
            self.value = self.value + 1;
            Ok(self.value)
        }
    }

    /// Record that a holder of the exclusive access terminated abnormally
    /// while holding it: the counter is poisoned and every later call to
    /// `increment_and_read` fails.
    pub fn poison(&mut self)
        ensures
            final(self)@ == (CounterView { value: old(self)@.value, poisoned: true }),
            old(self).wf() ==> final(self).wf(),
    {
        self.poisoned = true;
    }
}

/// The counter's state after `n` calls to `increment_and_read` in the
/// linearized order, starting from state `v`.
pub open spec fn steps(v: CounterView, n: nat) -> CounterView
    decreases n,
{
    if n == 0 {
        v
    } else {
        spec_step(steps(v, (n - 1) as nat))
    }
}

/// What the `i`-th call (counting from zero) in the linearized order returns,
/// starting from state `v`.
pub open spec fn nth_result(v: CounterView, i: nat) -> Result<int, CounterError> {
    spec_result(steps(v, i))
}

/// The sequence of values returned by `n` calls on a fresh counter.
pub open spec fn results_of(n: nat) -> Seq<Result<int, CounterError>> {
    Seq::new(n, |i: int| nth_result(fresh_view(), i as nat))
}

/// After `n` calls on a fresh counter the tally is exactly `n` and the
/// counter is still unpoisoned.
pub proof fn lemma_steps_fresh(n: nat)
    ensures
        steps(fresh_view(), n) == (CounterView { value: n as int, poisoned: false }),
    decreases n,
{
    if n > 0 {
        lemma_steps_fresh((n - 1) as nat);
    }
}

/// Initial-value law: the first call after process start returns 1.
pub proof fn lemma_initial_value()
    ensures
        nth_result(fresh_view(), 0) == Ok::<int, CounterError>(1),
{
}

/// Monotonicity law: in any sequence of `n` calls to `increment_and_read` on
/// a fresh counter, every call succeeds, the `i`-th call returns `i + 1`, no
/// two calls return the same value, and the returned values are exactly
/// `1, 2, ..., n`: no duplicates and no gaps.
pub proof fn lemma_monotonicity(n: nat)
    ensures
        results_of(n).len() == n,
        forall|i: int| 0 <= i < n ==> results_of(n)[i] == Ok::<int, CounterError>(i + 1),
        forall|i: int, j: int| 0 <= i < j < n ==> results_of(n)[i] != results_of(n)[j],
        forall|v: int| 1 <= v <= n ==> results_of(n).contains(Ok::<int, CounterError>(v)),
{
    assert forall|i: int| 0 <= i < n implies results_of(n)[i] == Ok::<int, CounterError>(i + 1) by {
        lemma_steps_fresh(i as nat);
    }
    assert forall|v: int| 1 <= v <= n implies results_of(n).contains(Ok::<int, CounterError>(v)) by {
        lemma_steps_fresh((v - 1) as nat);
        assert(results_of(n)[v - 1] == Ok::<int, CounterError>(v));
    }
}

/// Concurrency-safety law: `k` concurrent callers each issuing `m` calls
/// perform `k * m` calls in the lock's total order, so they receive exactly
/// `k * m` distinct values covering `1, ..., k * m`; no two callers ever
/// observe the same value.
pub proof fn lemma_concurrency_safety(k: nat, m: nat)
    ensures
        results_of(k * m).len() == k * m,
        forall|i: int, j: int|
            #![trigger results_of(k * m)[i], results_of(k * m)[j]]
            0 <= i < j < k * m ==> results_of(k * m)[i] != results_of(k * m)[j],
        forall|v: int| 1 <= v <= k * m ==> #[trigger] results_of(k * m).contains(
            Ok::<int, CounterError>(v),
        ),
{
    lemma_monotonicity(k * m);
}

} // verus!
