//! The parts of `core::pin` and `core::task` that contracts speak of.

use vstd::prelude::*;

verus! {

/// `core::task::Poll`, with its two variants visible to specifications.
#[verifier::external_type_specification]
#[verifier::reject_recursive_types(T)]
pub struct ExPoll<T>(core::task::Poll<T>);

/// `core::pin::Pin`, carried through as an opaque value.
#[verifier::external_type_specification]
#[verifier::external_body]
#[verifier::reject_recursive_types(Ptr)]
pub struct ExPin<Ptr>(core::pin::Pin<Ptr>);

} // verus!
