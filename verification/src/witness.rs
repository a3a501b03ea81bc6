//! The witness that a callable type holds no data.
use crate::storage::holds_no_data;
use crate::storage::is_stateless;
use core::marker::PhantomData;
use vstd::prelude::*;

verus! {

/// Vouches that the callable type `F` is stateless, and records `P`, the
/// function-pointer type that `F` coerces to.
///
/// The witness itself holds nothing. Whoever holds one in running code may
/// rely on `F` being stateless: see [`IsFnItem::vouch`].
pub struct IsFnItem<P, F>(PhantomData<(P, F)>);

impl<P, F> IsFnItem<P, F> {
    #[verifier::type_invariant]
    spec fn vouched(self) -> bool {
        is_stateless::<F>()
    }

    /// The one value of this type.
    pub closed spec fn witness() -> Self {
        IsFnItem(PhantomData)
    }

    /// Builds the witness after testing at run time that `F` is stateless;
    /// `None` where it is not.
    pub fn checked() -> (r: Option<Self>)
        ensures
            r.is_some() == is_stateless::<F>(),
            r matches Some(w) ==> w == Self::witness(),
    {
        if holds_no_data::<F>() {
            Some(IsFnItem(PhantomData))
        } else {
            None
        }
    }

    /// A witness exists only for a stateless callable type. Holding one is
    /// enough to learn that; nothing is computed. Put the other way round:
    /// for a type that holds data, a closure with a capture among them, no
    /// running code ever holds a witness, and so none calls through one.
    pub fn vouch(&self)
        ensures
            is_stateless::<F>(),
    {
        proof {
            use_type_invariant(self);
        }
    }

    /// A witness carries no state: any two of the same type are equal, and
    /// equal to the one value that the constructors return.
    pub proof fn lemma_unique(self, other: Self)
        ensures
            self == other,
            self == Self::witness(),
    {
    }
}

/// Builds the witness for `F`, with `P` as its function-pointer type.
///
/// The caller answers for `F` holding no data. A closure that captures
/// nothing does, and so does a function item; where that is not known
/// beforehand, [`IsFnItem::checked`] tests it.
pub fn assert_is_fn_item<P, F>() -> (w: IsFnItem<P, F>)
    requires
        is_stateless::<F>(),
    ensures
        w == IsFnItem::<P, F>::witness(),
{
    IsFnItem(PhantomData)
}

impl<P: Clone, F: Clone> Clone for IsFnItem<P, F> {
    /// A copy of a witness is that witness again.
    fn clone(&self) -> (w: Self)
        ensures
            w == *self,
    {
        proof {
            use_type_invariant(self);
        }
        IsFnItem(PhantomData)
    }
}

impl<P: Copy, F: Copy> Copy for IsFnItem<P, F> {}

} // verus!
