use vstd::prelude::*;

verus! {

/// A compile-time boolean lifted to a type, so that traits can pick a storage
/// type from it.
pub struct Flag<const B: bool>;

/// Picks what an optional stores: the payload when the flag is `true`, the
/// empty tuple when it is `false`.
pub trait Pick<T> {
    type Out;
}

impl<T> Pick<T> for Flag<true> {
    type Out = T;
}

impl<T> Pick<T> for Flag<false> {
    type Out = ();
}

/// Picks which of two types is stored: `L` when the flag is `false`, `R` when
/// it is `true`.
pub trait PickSide<L, R> {
    type Out;
}

impl<L, R> PickSide<L, R> for Flag<false> {
    type Out = L;
}

impl<L, R> PickSide<L, R> for Flag<true> {
    type Out = R;
}

} // verus!
