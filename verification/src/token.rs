//! A wrapped callable and the pieces it is put together from.
//!
//! A wrapped callable is a triple: the witness from
//! [`assert_is_fn_item`](crate::witness::assert_is_fn_item), the marker that
//! [`coerce_to_fn_ptr`] makes of the callable, and the callable itself.
//!
//! Verified code names the two types and builds the triple from these three
//! directly. What it then knows of each element is what the two functions
//! ensure, and a call through the witness verifies.
//!
//! Code outside the verifier may leave the types to inference. It builds the
//! same triple in one arm of a `match` and puts a call of [`fix_types`] in
//! another arm, which is never taken; that arm makes the three elements agree
//! on their types. This form is not for verified code: [`fix_types`] tells
//! nothing of its result, so nothing is known of a triple that comes out of
//! such a `match`.
use crate::witness::IsFnItem;
use core::convert::Infallible;
use core::marker::PhantomData;
use vstd::prelude::*;

verus! {

/// A wrapped callable: the implementor of the capability, a marker for the
/// function-pointer type, and the callable itself.
pub type ImplFnItem<FI, P, F> = (FI, PhantomData<P>, F);

/// Keeps the type of a function pointer and drops its value.
///
/// Called on a closure where a function pointer is expected, it makes the
/// closure coerce to its pointer type.
pub fn coerce_to_fn_ptr<P: Copy>(_pointer: P) -> (m: PhantomData<P>)
    ensures
        m == PhantomData::<P>,
{
    PhantomData
}

/// Turns a value of `core::convert::Infallible` into a value of any type, by
/// a `match` on it that has no arms. `Infallible` is an enum without
/// variants, so no call of this ever happens and nothing is claimed of what
/// it returns.
#[verifier::external_body]
fn absurd<T>(never: Infallible) -> T {
    match never {}
}

/// Ties the types of a wrapped callable together.
///
/// The result names `P` and `F` once each for the whole triple, so that a
/// `match` with this call in one arm gives every arm the witness, the marker
/// and the callable of the same two types. `eq` can only be a comparison that
/// takes a `P` on both sides; handing it `core::ptr::fn_addr_eq` keeps `P` to
/// function-pointer types.
///
/// `Infallible` has no values, so this never runs: it is there for its
/// signature.
pub fn fix_types<P, F, E: Fn(P, P) -> bool>(never: Infallible, _eq: E) -> ImplFnItem<
    IsFnItem<P, F>,
    P,
    F,
> {
    absurd(never)
}

} // verus!
