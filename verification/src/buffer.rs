//! The type-erased buffer and its two conversions.

use crate::error::PolyVecError;
use crate::parts::{capacity_of, into_raw_parts, VecParts};
use crate::rule::{compatible, is_compatible, recompute_capacity, recomputed_capacity};
use vstd::prelude::*;
use vstd::layout::size_of;

verus! {

/// What a [`PolyVec`] stands for.
pub struct BufferView {
    /// The address at which the buffer starts.
    pub pointer: usize,
    /// The number of elements the buffer was sized for.
    pub capacity: nat,
    /// The size in bytes of one such element.
    pub elem_size: nat,
}

impl BufferView {
    /// The size of the buffer in bytes.
    pub open spec fn bytes(self) -> nat {
        self.capacity * self.elem_size
    }
}

/// A vector's buffer without its element type.
///
/// It holds no live elements: a buffer is only ever taken from a vector that
/// was emptied first, so handing it out again never has to move or destroy a
/// value of the old type.
///
/// The buffer is owned by this value until it is handed out. Dropping the
/// value does not release it: memory is only ever released by a vector built
/// over the parts that [`PolyVec::rehydrate`] returns.
#[derive(Debug)]
pub struct PolyVec {
    pointer: usize,
    capacity: usize,
    elem_size: usize,
}

impl View for PolyVec {
    type V = BufferView;

    closed spec fn view(&self) -> BufferView {
        BufferView {
            pointer: self.pointer,
            capacity: self.capacity as nat,
            elem_size: self.elem_size as nat,
        }
    }
}

impl PolyVec {
    #[verifier::type_invariant]
    spec fn holds_a_buffer(self) -> bool {
        self.capacity * self.elem_size <= isize::MAX
    }

    /// A buffer that holds no allocation yet, meant for elements of `T`.
    ///
    /// It is what a new vector of `T` leaves behind. A new vector has
    /// allocated nothing, so the buffer records no room for elements with
    /// size, whatever the vector reports.
    pub fn new<T>() -> (buffer: Self)
        ensures
            buffer@.elem_size == size_of::<T>(),
            size_of::<T>() > 0 ==> buffer@.capacity == 0,
            buffer@.bytes() == 0,
    {
        let erased = PolyVec::from(Vec::<T>::new());
        if erased.elem_size == 0 {
            assert(erased.capacity * 0 == 0);
            erased
        } else {
            PolyVec { pointer: erased.pointer, capacity: 0, elem_size: erased.elem_size }
        }
    }

    /// Forgets the element type of the parts of an empty vector.
    pub fn from_parts<T>(parts: VecParts<T>) -> (buffer: Self)
        requires
            parts@.length == 0,
        ensures
            buffer@ == (BufferView {
                pointer: parts@.pointer,
                capacity: parts@.capacity,
                elem_size: size_of::<T>(),
            }),
            buffer@.bytes() <= isize::MAX,
    {
        let capacity: usize = parts.capacity();
        PolyVec { pointer: parts.pointer(), capacity, elem_size: core::mem::size_of::<T>() }
    }

    /// The number of elements the buffer was sized for.
    pub fn capacity(&self) -> (capacity: usize)
        ensures
            capacity == self@.capacity,
    {
        self.capacity
    }

    /// The size in bytes of one element the buffer was sized for.
    pub fn elem_size(&self) -> (elem_size: usize)
        ensures
            elem_size == self@.elem_size,
    {
        self.elem_size
    }

    /// The error with which [`PolyVec::rehydrate`] would refuse to hand the
    /// buffer out for elements of `U`, or `None` where it would not refuse.
    pub fn refusal<U>(&self) -> (refusal: Option<PolyVecError>)
        ensures
            refusal is None <==> compatible(self@.elem_size, size_of::<U>()),
            refusal matches Some(error) ==> {
                &&& error matches PolyVecError::InvalidMemAlign { expected, detected }
                &&& expected == self@.elem_size
                &&& detected == size_of::<U>()
            },
    {
        let target_size: usize = core::mem::size_of::<U>();
        if is_compatible(self.elem_size, target_size) {
            None
        } else {
            Some(PolyVecError::InvalidMemAlign { expected: self.elem_size, detected: target_size })
        }
    }

    /// Hands the buffer out as the parts of an empty vector of `U`.
    ///
    /// The parts start at the same address and have room for as many whole
    /// elements of `U` as fit into the bytes of the buffer. Where the two
    /// element sizes are not compatible, the buffer is given up without being
    /// released and the error names both sizes; ask [`PolyVec::refusal`]
    /// first to keep it.
    ///
    /// Compatibility goes by size alone: it does not compare the alignment of
    /// `U` with that of the type the buffer was allocated for.
    ///
    /// Elements without size take no room: for such a `U` the parts have
    /// capacity 0.
    pub fn rehydrate<U>(self) -> (result: Result<VecParts<U>, PolyVecError>)
        ensures
            result is Ok <==> compatible(self@.elem_size, size_of::<U>()),
            result matches Ok(parts) ==> {
                &&& parts@.pointer == self@.pointer
                &&& parts@.length == 0
                &&& parts@.capacity == recomputed_capacity(
                    self@.capacity,
                    self@.elem_size,
                    size_of::<U>(),
                )
                &&& parts@.capacity * size_of::<U>() <= self@.bytes()
            },
            result matches Err(error) ==> {
                &&& error matches PolyVecError::InvalidMemAlign { expected, detected }
                &&& expected == self@.elem_size
                &&& detected == size_of::<U>()
            },
    {
        proof {
            use_type_invariant(&self);
        }
        match self.refusal::<U>() {
            Some(error) => Err(error),
            None => {
                let capacity: usize = recompute_capacity(
                    self.capacity,
                    self.elem_size,
                    core::mem::size_of::<U>(),
                );
                Ok(VecParts::assemble(self.pointer, 0, capacity))
            },
        }
    }
}

impl<T> From<Vec<T>> for PolyVec {
    /// Empties `vec`, which destroys the elements it held, and keeps its
    /// buffer.
    ///
    /// Where the buffer lies and how much room it has is the vector's own
    /// matter: the contract says what holds of every vector. The room is read
    /// before the vector is emptied, when it is known to cover what the
    /// vector holds; emptying a vector leaves its room as it is.
    fn from(vec: Vec<T>) -> (buffer: Self)
        ensures
            buffer@.elem_size == size_of::<T>(),
            buffer@.capacity >= vec@.len(),
            buffer@.bytes() <= isize::MAX,
    {
        let mut vec = vec;
        let room: usize = capacity_of(&vec);
        vec.clear();
        let (pointer, length) = into_raw_parts(vec);
        PolyVec::from_parts(VecParts::<T>::assemble(pointer, length, room))
    }
}

/// No function of the vector gives the buffer it leaves behind, so the
/// conversion answers to the contract of `from` and not to `from_spec`.
impl<T> vstd::std_specs::convert::FromSpecImpl<Vec<T>> for PolyVec {
    open spec fn obeys_from_spec() -> bool {
        false
    }

    open spec fn from_spec(vec: Vec<T>) -> PolyVec {
        arbitrary()
    }
}

} // verus!
