use vstd::prelude::*;

use crate::select::{Flag, Pick};

verus! {

/// An optional value whose presence is fixed at compile time by `IS_SOME`.
///
/// The present configuration stores exactly one `T`; the absent one stores
/// `()` and is zero-sized. There is no runtime tag.
pub struct ConstOption<T, const IS_SOME: bool> where Flag<IS_SOME>: Pick<T> {
    value: <Flag<IS_SOME> as Pick<T>>::Out,
}

impl<T> ConstOption<T, false> {
    /// Makes the absent optional.
    pub fn new() -> (r: Self) {
        ConstOption { value: () }
    }
}

impl<T> ConstOption<T, true> {
    /// The payload held by a present optional.
    pub closed spec fn view(self) -> T {
        self.value
    }

    /// Makes a present optional that owns `val`.
    pub fn new(val: T) -> (r: Self)
        ensures
            r@ == val,
    {
        ConstOption { value: val }
    }

    /// Gives back the payload, consuming the container.
    pub fn into_inner(self) -> (r: T)
        ensures
            r == self@,
    {
        self.value
    }
}

impl<T> AsRef<T> for ConstOption<T, true> {
    /// Borrows the payload.
    fn as_ref(&self) -> (r: &T)
        ensures
            *r == self@,
    {
        &self.value
    }
}

impl<T> AsMut<T> for ConstOption<T, true> {
    /// Borrows the payload mutably; what is written through the borrow is
    /// what the container holds afterwards.
    fn as_mut(&mut self) -> (r: &mut T)
        ensures
            *r == old(self)@,
            final(self)@ == *final(r),
    {
        &mut self.value
    }
}

impl<T> core::ops::Deref for ConstOption<T, true> {
    type Target = T;

    /// Reads the payload in place.
    fn deref(&self) -> (r: &T)
        ensures
            *r == self@,
    {
        &self.value
    }
}

impl<T> core::ops::DerefMut for ConstOption<T, true> {
    /// Writes the payload in place.
    fn deref_mut(&mut self) -> (r: &mut T)
        ensures
            *r == old(self)@,
            final(self)@ == *final(r),
    {
        &mut self.value
    }
}

/// An absent optional carries no information: any two of them are the same
/// value, so there is nothing to read from one.
pub proof fn lemma_absent_holds_nothing<T>(a: ConstOption<T, false>, b: ConstOption<T, false>)
    ensures
        a == b,
{
    let u: () = a.value;
    let w: () = b.value;
    assert(u == w);
}

/// Unwrapping gives back what the optional was built with: when `o` comes
/// from `new(v)` and `r` from `o.into_inner()`, `r` is `v`.
pub proof fn lemma_present_round_trip<T>(v: T, o: ConstOption<T, true>, r: T)
    requires
        call_ensures(ConstOption::<T, true>::new, (v,), o),
        call_ensures(ConstOption::<T, true>::into_inner, (o,), r),
    ensures
        r == v,
{
}

} // verus!
