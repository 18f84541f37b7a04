use vstd::prelude::*;

use crate::select::{Flag, PickSide};

verus! {

/// Holds either an `L` or an `R`; which one is fixed at compile time by
/// `IS_RIGHT`.
///
/// Only the live value is stored, with no runtime tag: the container has
/// exactly the layout of `L` in the left configuration and of `R` in the
/// right one.
pub struct ConstEither<L, R, const IS_RIGHT: bool> where Flag<IS_RIGHT>: PickSide<L, R> {
    value: <Flag<IS_RIGHT> as PickSide<L, R>>::Out,
}

impl<L, R> ConstEither<L, R, false> {
    /// The left payload.
    pub closed spec fn left(self) -> L {
        self.value
    }

    /// Makes a left-configured container that owns `left`.
    pub fn new(left: L) -> (r: Self)
        ensures
            r.left() == left,
    {
        ConstEither { value: left }
    }

    /// Gives back the left payload, consuming the container.
    pub fn into_inner(self) -> (r: L)
        ensures
            r == self.left(),
    {
        self.value
    }

    /// Moves the payload into a container with the two roles swapped: the
    /// left value becomes the right value of a right-configured container.
    pub fn flip(self) -> (r: ConstEither<R, L, true>)
        ensures
            r.right() == self.left(),
    {
        let val = self.into_inner();
        ConstEither::<R, L, true>::new(val)
    }
}

impl<L, R> ConstEither<L, R, true> {
    /// The right payload.
    pub closed spec fn right(self) -> R {
        self.value
    }

    /// Makes a right-configured container that owns `right`.
    pub fn new(right: R) -> (r: Self)
        ensures
            r.right() == right,
    {
        ConstEither { value: right }
    }

    /// Gives back the right payload, consuming the container.
    pub fn into_inner(self) -> (r: R)
        ensures
            r == self.right(),
    {
        self.value
    }

    /// Moves the payload into a container with the two roles swapped: the
    /// right value becomes the left value of a left-configured container.
    pub fn flip(self) -> (r: ConstEither<R, L, false>)
        ensures
            r.left() == self.right(),
    {
        let val = self.into_inner();
        ConstEither::<R, L, false>::new(val)
    }
}

impl<L, R> AsRef<L> for ConstEither<L, R, false> {
    /// Borrows the left payload.
    fn as_ref(&self) -> (r: &L)
        ensures
            *r == self.left(),
    {
        &self.value
    }
}

impl<L, R> AsRef<R> for ConstEither<L, R, true> {
    /// Borrows the right payload.
    fn as_ref(&self) -> (r: &R)
        ensures
            *r == self.right(),
    {
        &self.value
    }
}

impl<L, R> AsMut<L> for ConstEither<L, R, false> {
    /// Borrows the left payload mutably; what is written through the borrow
    /// is what the container holds afterwards.
    fn as_mut(&mut self) -> (r: &mut L)
        ensures
            *r == old(self).left(),
            final(self).left() == *final(r),
    {
        &mut self.value
    }
}

impl<L, R> AsMut<R> for ConstEither<L, R, true> {
    /// Borrows the right payload mutably; what is written through the borrow
    /// is what the container holds afterwards.
    fn as_mut(&mut self) -> (r: &mut R)
        ensures
            *r == old(self).right(),
            final(self).right() == *final(r),
    {
        &mut self.value
    }
}

impl<L, R> core::ops::Deref for ConstEither<L, R, false> {
    type Target = L;

    /// Reads the left payload in place.
    fn deref(&self) -> (r: &L)
        ensures
            *r == self.left(),
    {
        &self.value
    }
}

impl<L, R> core::ops::Deref for ConstEither<L, R, true> {
    type Target = R;

    /// Reads the right payload in place.
    fn deref(&self) -> (r: &R)
        ensures
            *r == self.right(),
    {
        &self.value
    }
}

impl<L, R> core::ops::DerefMut for ConstEither<L, R, false> {
    /// Writes the left payload in place.
    fn deref_mut(&mut self) -> (r: &mut L)
        ensures
            *r == old(self).left(),
            final(self).left() == *final(r),
    {
        &mut self.value
    }
}

impl<L, R> core::ops::DerefMut for ConstEither<L, R, true> {
    /// Writes the right payload in place.
    fn deref_mut(&mut self) -> (r: &mut R)
        ensures
            *r == old(self).right(),
            final(self).right() == *final(r),
    {
        &mut self.value
    }
}

/// Flipping a left value and unwrapping the right side gives the value back:
/// when `e` comes from `new(v)`, `f` from `e.flip()` and `r` from
/// `f.into_inner()`, `r` is `v`.
pub proof fn lemma_flip_unwrap<L, R>(v: L, e: ConstEither<L, R, false>, f: ConstEither<R, L, true>, r: L)
    requires
        call_ensures(ConstEither::<L, R, false>::new, (v,), e),
        call_ensures(ConstEither::<L, R, false>::flip, (e,), f),
        call_ensures(ConstEither::<R, L, true>::into_inner, (f,), r),
    ensures
        r == v,
{
}

/// Flipping twice returns to the left configuration with the same value:
/// when `f` comes from `e.flip()` and `g` from `f.flip()`, `g` holds what `e`
/// held.
pub proof fn lemma_flip_flip<L, R>(e: ConstEither<L, R, false>, f: ConstEither<R, L, true>, g: ConstEither<L, R, false>)
    requires
        call_ensures(ConstEither::<L, R, false>::flip, (e,), f),
        call_ensures(ConstEither::<R, L, true>::flip, (f,), g),
    ensures
        g.left() == e.left(),
{
}

/// The same law from the right configuration: flipping twice restores the
/// right value.
pub proof fn lemma_flip_flip_right<L, R>(e: ConstEither<L, R, true>, f: ConstEither<R, L, false>, g: ConstEither<L, R, true>)
    requires
        call_ensures(ConstEither::<L, R, true>::flip, (e,), f),
        call_ensures(ConstEither::<R, L, false>::flip, (f,), g),
    ensures
        g.right() == e.right(),
{
}

/// A write through the mutable accessor is what the next read sees. Let `e`
/// come from `new(v)`. Let `as_mut` on `e` lend a borrow that starts at `lent`
/// and ends holding `written`, leaving `after`: these are the two clauses of
/// its contract (`deref_mut` has the same). If `r` comes from
/// `after.into_inner()`, then the borrow started at `v` and `r` is `written`.
pub proof fn lemma_write_visible<L, R>(
    v: L,
    e: ConstEither<L, R, false>,
    lent: L,
    written: L,
    after: ConstEither<L, R, false>,
    r: L,
)
    requires
        call_ensures(ConstEither::<L, R, false>::new, (v,), e),
        lent == e.left(),
        after.left() == written,
        call_ensures(ConstEither::<L, R, false>::into_inner, (after,), r),
    ensures
        lent == v,
        r == written,
{
}

} // verus!
