use vstd::prelude::*;

verus! {

/// `num_traits::ToPrimitive::to_usize` on a `u128`.
/// Claimed, as its source shows: the value itself where it fits in a `usize`,
/// and `None` where it does not.
#[verifier::external_body]
pub(crate) fn u128_to_usize(x: u128) -> (r: Option<usize>)
    ensures
        r == (if x <= usize::MAX {
            Some(x as usize)
        } else {
            None::<usize>
        }),
{
    num_traits::ToPrimitive::to_usize(&x)
}

/// The `usize` that a `u128` gives where it fits, else `usize::MAX`.
pub(crate) fn u128_to_usize_or_max(x: u128) -> (r: usize)
    ensures
        r == (if x <= usize::MAX { x as int } else { usize::MAX as int }),
{
    match u128_to_usize(x) {
        Some(v) => v,
        None => usize::MAX,
    }
}

} // verus!
