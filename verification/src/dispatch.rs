//! Calling a stateless callable on its arguments packed in a tuple.
//!
//! One method for each number of arguments, from none to nine. Each hands the
//! elements of the tuple to the callable in order and returns what it
//! returns, so the caller learns of the result exactly what a direct call
//! would have told. A call is allowed wherever the callable itself allows it.
//!
//! A call goes through a witness, and a witness is only ever had for a
//! stateless type. So no call is made through this module for a callable
//! type that holds data, such as a closure with a capture: each method says
//! so of its `F` when it returns.
use crate::storage::is_stateless;
use crate::witness::IsFnItem;
use core::fmt::Debug;
use core::fmt::Pointer;
use core::hash::Hash;
use vstd::prelude::*;

verus! {

/// The bounds on `P` are met by function pointers and by little else. With
/// the signature that each method asks of `P` and of `F` alike, they keep `P`
/// to the pointer type of `F`.
impl<P, F> IsFnItem<P, F> where
    P: PartialEq + Eq + PartialOrd + Ord + Hash + Debug + Pointer,
    P: Send + Sync + Copy,
    F: Send + Sync + Copy,
{
    /// Calls `f` on no arguments.
    pub fn call0<R>(&self, f: &F, args: ()) -> (r: R) where
        P: Fn() -> R,
        F: Fn() -> R,

        requires
            call_requires(*f, args),
        ensures
            call_ensures(*f, args, r),
            is_stateless::<F>(),
    {
        self.vouch();
        f()
    }

    /// Calls `f` on its one argument.
    pub fn call1<A, R>(&self, f: &F, args: (A,)) -> (r: R) where
        P: Fn(A) -> R,
        F: Fn(A) -> R,

        requires
            call_requires(*f, args),
        ensures
            call_ensures(*f, args, r),
            is_stateless::<F>(),
    {
        self.vouch();
        let (a,) = args;
        f(a)
    }

    /// Calls `f` on its two arguments.
    pub fn call2<A, B, R>(&self, f: &F, args: (A, B)) -> (r: R) where
        P: Fn(A, B) -> R,
        F: Fn(A, B) -> R,

        requires
            call_requires(*f, args),
        ensures
            call_ensures(*f, args, r),
            is_stateless::<F>(),
    {
        self.vouch();
        let (a, b) = args;
        f(a, b)
    }

    /// Calls `f` on its three arguments.
    pub fn call3<A, B, C, R>(&self, f: &F, args: (A, B, C)) -> (r: R) where
        P: Fn(A, B, C) -> R,
        F: Fn(A, B, C) -> R,

        requires
            call_requires(*f, args),
        ensures
            call_ensures(*f, args, r),
            is_stateless::<F>(),
    {
        self.vouch();
        let (a, b, c) = args;
        f(a, b, c)
    }

    /// Calls `f` on its four arguments.
    pub fn call4<A, B, C, D, R>(&self, f: &F, args: (A, B, C, D)) -> (r: R) where
        P: Fn(A, B, C, D) -> R,
        F: Fn(A, B, C, D) -> R,

        requires
            call_requires(*f, args),
        ensures
            call_ensures(*f, args, r),
            is_stateless::<F>(),
    {
        self.vouch();
        let (a, b, c, d) = args;
        f(a, b, c, d)
    }

    /// Calls `f` on its five arguments.
    pub fn call5<A, B, C, D, E, R>(&self, f: &F, args: (A, B, C, D, E)) -> (r: R) where
        P: Fn(A, B, C, D, E) -> R,
        F: Fn(A, B, C, D, E) -> R,

        requires
            call_requires(*f, args),
        ensures
            call_ensures(*f, args, r),
            is_stateless::<F>(),
    {
        self.vouch();
        let (a, b, c, d, e) = args;
        f(a, b, c, d, e)
    }

    /// Calls `f` on its six arguments.
    pub fn call6<A, B, C, D, E, G, R>(&self, f: &F, args: (A, B, C, D, E, G)) -> (r: R) where
        P: Fn(A, B, C, D, E, G) -> R,
        F: Fn(A, B, C, D, E, G) -> R,

        requires
            call_requires(*f, args),
        ensures
            call_ensures(*f, args, r),
            is_stateless::<F>(),
    {
        self.vouch();
        let (a, b, c, d, e, g) = args;
        f(a, b, c, d, e, g)
    }

    /// Calls `f` on its seven arguments.
    pub fn call7<A, B, C, D, E, G, H, R>(&self, f: &F, args: (A, B, C, D, E, G, H)) -> (r: R) where
        P: Fn(A, B, C, D, E, G, H) -> R,
        F: Fn(A, B, C, D, E, G, H) -> R,

        requires
            call_requires(*f, args),
        ensures
            call_ensures(*f, args, r),
            is_stateless::<F>(),
    {
        self.vouch();
        let (a, b, c, d, e, g, h) = args;
        f(a, b, c, d, e, g, h)
    }

    /// Calls `f` on its eight arguments.
    pub fn call8<A, B, C, D, E, G, H, I, R>(&self, f: &F, args: (A, B, C, D, E, G, H, I)) -> (r: R) where
        P: Fn(A, B, C, D, E, G, H, I) -> R,
        F: Fn(A, B, C, D, E, G, H, I) -> R,

        requires
            call_requires(*f, args),
        ensures
            call_ensures(*f, args, r),
            is_stateless::<F>(),
    {
        self.vouch();
        let (a, b, c, d, e, g, h, i) = args;
        f(a, b, c, d, e, g, h, i)
    }

    /// Calls `f` on its nine arguments.
    pub fn call9<A, B, C, D, E, G, H, I, J, R>(&self, f: &F, args: (A, B, C, D, E, G, H, I, J)) -> (r: R) where
        P: Fn(A, B, C, D, E, G, H, I, J) -> R,
        F: Fn(A, B, C, D, E, G, H, I, J) -> R,

        requires
            call_requires(*f, args),
        ensures
            call_ensures(*f, args, r),
            is_stateless::<F>(),
    {
        self.vouch();
        let (a, b, c, d, e, g, h, i, j) = args;
        f(a, b, c, d, e, g, h, i, j)
    }
}

} // verus!
