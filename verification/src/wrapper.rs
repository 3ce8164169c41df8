//! The structural wrapper, the step that hands an answer of the wrapped future
//! on, and the statement that this step is transparent to polling.

use vstd::prelude::*;
use core::marker::PhantomData;
use core::task::Poll;
use crate::scope::ImpliedLifetimeBound;

verus! {

/// A future paired with a bound marker.
///
/// The wrapper owns the future and nothing else. It is plain data: whoever
/// drives it polls the future in it and hands each answer on through
/// `forward`.
#[derive(Debug)]
pub struct ScopedFutureWrapper<'upper_bound, 'subject, Fut> {
    future: Fut,
    scope: ImpliedLifetimeBound<'upper_bound, 'subject>,
}

/// What a driver sees when the wrapped future answers `polled`: the same answer.
pub open spec fn forwarded<T>(polled: Poll<T>) -> Poll<T> {
    polled
}

/// What a driver sees over a whole run in which the wrapped future gives the
/// answers `inner`, one per poll.
pub open spec fn observed<T>(inner: Seq<Poll<T>>) -> Seq<Poll<T>> {
    Seq::new(inner.len(), |i: int| forwarded(inner[i]))
}

/// How often a run suspends: the number of `Pending` answers in it.
pub open spec fn suspensions<T>(run: Seq<Poll<T>>) -> nat
    decreases run.len(),
{
    if run.len() == 0 {
        0
    } else {
        suspensions(run.drop_last()) + if run.last() is Pending {
            1nat
        } else {
            0nat
        }
    }
}

/// A run that suspends `n` times and then completes with `value`.
pub open spec fn completes_after<T>(n: nat, value: T) -> Seq<Poll<T>> {
    Seq::new(n, |i: int| Poll::<T>::Pending).push(Poll::Ready(value))
}

/// Turns one answer of the wrapped future into the wrapper's answer.
///
/// `Pending` stays `Pending`, and `Ready` keeps its value.
pub fn forward<T>(polled: Poll<T>) -> (r: Poll<T>)
    ensures
        r == forwarded(polled),
{
    polled
}

impl<'upper_bound, 'subject, Fut> ScopedFutureWrapper<'upper_bound, 'subject, Fut> {
    /// The future that the wrapper owns.
    pub closed spec fn inner(&self) -> Fut {
        self.future
    }

    /// Wraps `future`, unchanged.
    pub fn new(future: Fut) -> (r: Self)
        ensures
            r.inner() == future,
    {
        ScopedFutureWrapper { future, scope: PhantomData }
    }

    /// Gives the wrapped future back.
    pub fn into_inner(self) -> (future: Fut)
        ensures
            future == self.inner(),
    {
        self.future
    }
}

impl<'upper_bound, 'subject, Fut: Clone> Clone for ScopedFutureWrapper<'upper_bound, 'subject, Fut> {
    /// Wraps a clone of the wrapped future.
    fn clone(&self) -> (r: Self)
        ensures
            cloned(self.inner(), r.inner()),
    {
        ScopedFutureWrapper { future: self.future.clone(), scope: PhantomData }
    }
}

/// A driver of the wrapper sees exactly the run of the wrapped future: the
/// same answers in the same order.
pub proof fn lemma_run_unchanged<T>(inner: Seq<Poll<T>>)
    ensures
        observed(inner) == inner,
{
    assert(observed(inner) =~= inner);
}

/// Wrapping adds and removes no suspension.
pub proof fn lemma_suspensions_unchanged<T>(inner: Seq<Poll<T>>)
    ensures
        suspensions(observed(inner)) == suspensions(inner),
{
    lemma_run_unchanged(inner);
}

/// A run of `n` suspensions and a completion suspends exactly `n` times.
pub proof fn lemma_suspensions_of_completion<T>(n: nat, value: T)
    ensures
        suspensions(completes_after(n, value)) == n,
{
    let pending = Seq::new(n, |i: int| Poll::<T>::Pending);
    assert(completes_after(n, value).drop_last() =~= pending);
    lemma_suspensions_of_pending::<T>(n);
}

/// A run of `n` `Pending` answers suspends `n` times.
proof fn lemma_suspensions_of_pending<T>(n: nat)
    ensures
        suspensions(Seq::new(n, |i: int| Poll::<T>::Pending)) == n,
    decreases n,
{
    let pending = Seq::new(n, |i: int| Poll::<T>::Pending);
    if n > 0 {
        let shorter = Seq::new((n - 1) as nat, |i: int| Poll::<T>::Pending);
        assert(pending.drop_last() =~= shorter);
        lemma_suspensions_of_pending::<T>((n - 1) as nat);
    }
}

/// A future that suspends `n` times before it completes with `value` does the
/// same when wrapped: `n` suspensions, then `value`.
pub proof fn lemma_wrapped_completion<T>(n: nat, value: T)
    ensures
        observed(completes_after(n, value)) == completes_after(n, value),
        suspensions(observed(completes_after(n, value))) == n,
        observed(completes_after(n, value)).last() == Poll::Ready(value),
{
    lemma_run_unchanged(completes_after(n, value));
    lemma_suspensions_of_completion(n, value);
}

/// Wrapping a wrapper changes nothing either: two steps of handing on leave
/// a run as it is, with the same suspensions.
pub proof fn lemma_run_unchanged_twice<T>(inner: Seq<Poll<T>>)
    ensures
        observed(observed(inner)) == inner,
        suspensions(observed(observed(inner))) == suspensions(inner),
{
    lemma_run_unchanged(inner);
    lemma_run_unchanged(observed(inner));
}

/// A future that suspends `n` times before it completes with `value` does the
/// same when wrapped twice.
pub proof fn lemma_wrapped_twice_completion<T>(n: nat, value: T)
    ensures
        observed(observed(completes_after(n, value))) == completes_after(n, value),
        suspensions(observed(observed(completes_after(n, value)))) == n,
        observed(observed(completes_after(n, value))).last() == Poll::Ready(value),
{
    lemma_run_unchanged_twice(completes_after(n, value));
    lemma_suspensions_of_completion(n, value);
}

} // verus!
