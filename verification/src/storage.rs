//! What it means for a type to hold no data.
use vstd::layout::align_of;
use vstd::layout::size_of;
use vstd::prelude::*;

verus! {

/// A type is stateless when its values take up no bytes and may sit at any
/// address: size zero, alignment one.
pub open spec fn is_stateless<F>() -> bool {
    size_of::<F>() == 0 && align_of::<F>() == 1
}

/// Tests at run time whether `F` is stateless.
pub fn holds_no_data<F>() -> (b: bool)
    ensures
        b == is_stateless::<F>(),
{
    core::mem::size_of::<F>() == 0 && core::mem::align_of::<F>() == 1
}

} // verus!
