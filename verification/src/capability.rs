//! The capability of being called without a receiver.
use vstd::prelude::*;

verus! {

/// A callable that is known by its type alone.
///
/// `A` is the tuple of its arguments and `R` what it returns. An implementor
/// owns nothing, so it can be copied and shared between threads freely.
pub trait FnItem<A, R = ()>: Send + Sync + Copy {
    /// Runs the callable on `args`.
    fn call(args: A) -> R;
}

} // verus!
