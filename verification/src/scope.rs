//! The bound marker and the trait that carries it.

use vstd::prelude::*;
use core::future::Future;
use core::marker::PhantomData;
use crate::sealed::Sealed;

verus! {

/// A zero-sized marker whose well-formedness requires `'upper_bound: 'subject`.
///
/// It holds no data. Naming it in a type is what makes the compiler assume the
/// bound wherever that type appears.
pub type ImpliedLifetimeBound<'upper_bound, 'subject> = PhantomData<&'subject &'upper_bound ()>;

/// A `Future` with an implied upper bound on `'subject`.
///
/// Every future that lives for `'subject` is one, whenever `'upper_bound`
/// outlives `'subject`. The trait adds no method: it only records the bound.
pub trait ScopedFuture<
    'upper_bound,
    'subject,
    Bound = ImpliedLifetimeBound<'upper_bound, 'subject>,
>: Future where Bound: Sealed {

}

impl<'upper_bound: 'subject, 'subject, Fut: Future + 'subject> ScopedFuture<
    'upper_bound,
    'subject,
> for Fut {

}

} // verus!
