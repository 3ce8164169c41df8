//! Futures whose captured borrows carry an implied upper bound on how long
//! they may live.
//!
//! A callback with a higher-ranked lifetime in its return type forces the
//! returned future to be `'static` unless the bound `'upper_bound: 'subject`
//! can be read off the type itself. [`ScopedFuture`] carries that bound, and
//! [`ScopedFutureExt`] tags and boxes futures with it.
//!
//! Nothing in this crate polls a future: a future's `poll` is its author's
//! code, which may panic or never return. What the crate fixes is the one
//! step that a driver of a tagged future takes for each answer, [`forward`],
//! and that this step leaves every run as it is.

pub mod ext;
pub mod scope;
mod sealed;
mod task;
pub mod wrapper;

pub use ext::ScopedFutureExt;
pub use scope::ImpliedLifetimeBound;
pub use scope::ScopedFuture;
pub use wrapper::forward;
pub use wrapper::ScopedFutureWrapper;
