//! The raw parts of a vector, as plain values.

use core::marker::PhantomData;
use raw_parts::RawParts;
use vstd::prelude::*;
use vstd::layout::size_of;

verus! {

/// What a [`VecParts`] stands for.
pub struct PartsView {
    /// The address at which the buffer starts.
    pub pointer: usize,
    /// The number of live elements.
    pub length: nat,
    /// The number of elements the buffer has room for.
    pub capacity: nat,
}

/// The raw parts of a vector of `T`: the address of its buffer, the number of
/// live elements and the number of elements the buffer has room for.
///
/// The parts own the buffer they describe. They are made by taking a vector
/// apart or by handing out a [`PolyVec`](crate::PolyVec), never from loose
/// numbers, so they always describe a buffer that a vector could hold.
#[derive(Debug)]
pub struct VecParts<T> {
    pointer: usize,
    length: usize,
    capacity: usize,
    element: PhantomData<T>,
}

impl<T> View for VecParts<T> {
    type V = PartsView;

    closed spec fn view(&self) -> PartsView {
        PartsView {
            pointer: self.pointer,
            length: self.length as nat,
            capacity: self.capacity as nat,
        }
    }
}

impl<T> VecParts<T> {
    #[verifier::type_invariant]
    spec fn fits_a_vector(self) -> bool {
        self.capacity * size_of::<T>() <= isize::MAX
    }

    /// The parts of a vector of `length` elements over the buffer at
    /// `pointer`, which has room for `capacity` elements.
    pub(crate) fn assemble(pointer: usize, length: usize, capacity: usize) -> (parts: Self)
        requires
            capacity * size_of::<T>() <= isize::MAX,
        ensures
            parts@ == (PartsView { pointer, length: length as nat, capacity: capacity as nat }),
    {
        VecParts { pointer, length, capacity, element: PhantomData }
    }

    /// The address at which the buffer starts.
    pub fn pointer(&self) -> (pointer: usize)
        ensures
            pointer == self@.pointer,
    {
        self.pointer
    }

    /// The number of live elements.
    pub fn length(&self) -> (length: usize)
        ensures
            length == self@.length,
    {
        self.length
    }

    /// The number of elements the buffer has room for.
    pub fn capacity(&self) -> (capacity: usize)
        ensures
            capacity == self@.capacity,
            capacity * size_of::<T>() <= isize::MAX,
    {
        proof {
            use_type_invariant(self);
        }
        self.capacity
    }
}

/// Reads the room of a vector with `Vec::capacity`.
///
/// Trusted: a vector has room for at least the elements it holds, and its
/// buffer holds no more than `isize::MAX` bytes.
#[verifier::external_body]
pub(crate) fn capacity_of<T>(vec: &Vec<T>) -> (room: usize)
    ensures
        room >= vec@.len(),
        room * size_of::<T>() <= isize::MAX,
{
    vec.capacity()
}

/// Takes a vector apart with `raw_parts::RawParts::from_vec`, so that its
/// buffer is no longer released with it, and returns the address of the
/// buffer and the length of the vector, in this order.
///
/// Trusted: the length is the vector's own. Nothing is said of the address.
#[verifier::external_body]
pub(crate) fn into_raw_parts<T>(vec: Vec<T>) -> (parts: (usize, usize))
    ensures
        parts.1 == vec@.len(),
{
    let RawParts { ptr, length, .. } = RawParts::from_vec(vec);
    (ptr as usize, length)
}

} // verus!
