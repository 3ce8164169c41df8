//! Methods on every future for encoding the bound.

use vstd::prelude::*;
use vstd::future::FutureAdditionalSpecFns;
use core::future::Future;
use core::pin::Pin;
use crate::wrapper::ScopedFutureWrapper;

verus! {

/// `Box::pin`: moves `future` to the heap and pins it there. Awaiting the
/// pinned box awaits `future`, so it gives the output of `future`.
#[verifier::external_body]
fn box_pin<Fut: Future>(future: Fut) -> (r: Pin<Box<Fut>>)
    ensures
        r@ == future@,
{
    Box::pin(future)
}

/// An extension trait for `Future` with methods that encode an upper bound on
/// the lifetime of its captures.
pub trait ScopedFutureExt: Sized {
    /// Encodes the lifetimes of this future's captures. The wrapper holds this
    /// very future.
    fn scoped<'upper_bound, 'subject>(self) -> (r: ScopedFutureWrapper<'upper_bound, 'subject, Self>)
        ensures
            r.inner() == self,
    ;

    /// Boxes this future, which may move to another thread, and encodes the
    /// lifetimes of its captures. The wrapper holds the pinned box, and
    /// awaiting that box gives this future's output.
    ///
    /// The box still has the future's own type. It coerces to a pinned box of
    /// `dyn ScopedFuture<'upper_bound, 'subject, Output = ..> + Send + 'subject`
    /// wherever such a handle is expected.
    fn scope_boxed<'upper_bound, 'subject>(self) -> (r: ScopedFutureWrapper<
        'upper_bound,
        'subject,
        Pin<Box<Self>>,
    >) where Self: Send + Future + 'subject
        ensures
            r.inner()@ == self@,
    ;

    /// Boxes this future, without asking that it be `Send`, and encodes the
    /// lifetimes of its captures. The wrapper holds the pinned box, and
    /// awaiting that box gives this future's output.
    ///
    /// The box still has the future's own type. It coerces to a pinned box of
    /// `dyn ScopedFuture<'upper_bound, 'subject, Output = ..> + 'subject`
    /// wherever such a handle is expected.
    fn scope_boxed_local<'upper_bound, 'subject>(self) -> (r: ScopedFutureWrapper<
        'upper_bound,
        'subject,
        Pin<Box<Self>>,
    >) where Self: Future + 'subject
        ensures
            r.inner()@ == self@,
    ;
}

impl<Fut: Future> ScopedFutureExt for Fut {
    fn scoped<'upper_bound, 'subject>(self) -> (r: ScopedFutureWrapper<'upper_bound, 'subject, Self>)
    {
        ScopedFutureWrapper::new(self)
    }

    fn scope_boxed<'upper_bound, 'subject>(self) -> (r: ScopedFutureWrapper<
        'upper_bound,
        'subject,
        Pin<Box<Self>>,
    >) where Self: Send + Future + 'subject
    {
        ScopedFutureWrapper::new(box_pin(self))
    }

    fn scope_boxed_local<'upper_bound, 'subject>(self) -> (r: ScopedFutureWrapper<
        'upper_bound,
        'subject,
        Pin<Box<Self>>,
    >) where Self: Future + 'subject
    {
        ScopedFutureWrapper::new(box_pin(self))
    }
}

/// Boxing is undone and redone without loss: box `future`, hold the pinned
/// box in any future `unbounded` that gives its output (a handle without a
/// bound does), and box that again. The last box gives the output of
/// `future`.
pub proof fn lemma_round_trip<'upper_bound, 'subject, Fut, Via>(
    future: Fut,
    boxed: ScopedFutureWrapper<'upper_bound, 'subject, Pin<Box<Fut>>>,
    unbounded: Via,
    back: ScopedFutureWrapper<'upper_bound, 'subject, Pin<Box<Via>>>,
) where
    Fut: Future + Send + 'subject,
    Via: Future<Output = Fut::Output> + Send + 'subject,

    requires
        call_ensures(<Fut as ScopedFutureExt>::scope_boxed, (future,), boxed),
        unbounded@ == boxed.inner()@,
        call_ensures(<Via as ScopedFutureExt>::scope_boxed, (unbounded,), back),
    ensures
        back.inner()@ == future@,
{
}

/// The same for futures that stay on their thread.
pub proof fn lemma_round_trip_local<'upper_bound, 'subject, Fut, Via>(
    future: Fut,
    boxed: ScopedFutureWrapper<'upper_bound, 'subject, Pin<Box<Fut>>>,
    unbounded: Via,
    back: ScopedFutureWrapper<'upper_bound, 'subject, Pin<Box<Via>>>,
) where
    Fut: Future + 'subject,
    Via: Future<Output = Fut::Output> + 'subject,

    requires
        call_ensures(<Fut as ScopedFutureExt>::scope_boxed_local, (future,), boxed),
        unbounded@ == boxed.inner()@,
        call_ensures(<Via as ScopedFutureExt>::scope_boxed_local, (unbounded,), back),
    ensures
        back.inner()@ == future@,
{
}

} // verus!
