//! The seal that keeps the set of bound markers closed.

use vstd::prelude::*;
use core::marker::PhantomData;

verus! {

/// Implemented by the bound marker and by nothing else, so that the `Bound`
/// parameter of `ScopedFuture` can only ever be the marker.
pub trait Sealed {

}

impl<'upper_bound, 'a> Sealed for PhantomData<&'a &'upper_bound ()> {

}

} // verus!
