//! A box without a heap: the value lives in the box itself.  A box is
//! made for a room given by the type `Space`, and only takes a value that
//! fits in that room, both in size and in alignment; values of size 0
//! always fit.
use vstd::prelude::*;
use vstd::layout::{size_of, align_of};
use core::marker::PhantomData;

verus! {

/// A value of type `T` fits in the room of `Space`.
pub open spec fn fits_in<T, Space>() -> bool {
    size_of::<T>() == 0 || (size_of::<T>() <= size_of::<Space>() && align_of::<T>() <= align_of::<
        Space,
    >())
}

pub struct EmbBox<T, Space> {
    val: T,
    space: PhantomData<Space>,
}

impl<T, Space> View for EmbBox<T, Space> {
    type V = T;

    closed spec fn view(&self) -> T {
        self.val
    }
}

impl<T, Space> EmbBox<T, Space> {
    /// Whether a `T` fits in the room of `Space`.
    pub fn fits() -> (r: bool)
        ensures
            r == fits_in::<T, Space>(),
    {
        let size = core::mem::size_of::<T>();
        let align = core::mem::align_of::<T>();
        size == 0 || (size <= core::mem::size_of::<Space>() && align <= core::mem::align_of::<
            Space,
        >())
    }

    /// Boxes `val`, which must fit in the room of `Space`.
    pub fn new(val: T) -> (b: Self)
        requires
            fits_in::<T, Space>(),
        ensures
            b@ == val,
    {
        EmbBox { val, space: PhantomData }
    }

    /// The boxed value.
    pub fn get(&self) -> (r: &T)
        ensures
            *r == self@,
    {
        &self.val
    }

    /// The boxed value, for changing it in place.
    pub fn get_mut(&mut self) -> (r: &mut T)
        ensures
            *r == old(self)@,
            final(self)@ == *final(r),
    {
        &mut self.val
    }

    /// Takes the value out of the box.
    pub fn into_inner(self) -> (r: T)
        ensures
            r == self@,
    {
        self.val
    }
}

} // verus!
