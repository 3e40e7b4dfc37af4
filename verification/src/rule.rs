//! The arithmetic behind reuse: when two element sizes may share a buffer,
//! and how many elements of the new size fit into the bytes of the old.

use vstd::prelude::*;
use vstd::layout::size_of;

verus! {

/// The size of a machine word in bytes.
pub open spec fn word_bytes() -> nat {
    size_of::<usize>()
}

/// Two element sizes may share a buffer when they are equal, or when both are
/// multiples of the machine word.
pub open spec fn compatible(elem_size: nat, target_size: nat) -> bool {
    elem_size == target_size || (elem_size % word_bytes() == 0 && target_size % word_bytes() == 0)
}

/// The number of whole elements of `target_size` bytes that fit into
/// `capacity` elements of `elem_size` bytes. Elements without size take no
/// room, and none is counted for them.
pub open spec fn recomputed_capacity(capacity: nat, elem_size: nat, target_size: nat) -> nat {
    if target_size == 0 {
        0
    } else {
        (capacity * elem_size) / target_size
    }
}

/// A machine word has four or eight bytes.
pub proof fn lemma_word_bytes()
    ensures
        word_bytes() == 4 || word_bytes() == 8,
{
    broadcast use vstd::layout::layout_of_primitives;
}

/// The size of a machine word in bytes, at run time.
pub fn word_size() -> (word: usize)
    ensures
        word == word_bytes(),
        word == 4 || word == 8,
{
    proof {
        lemma_word_bytes();
    }
    core::mem::size_of::<usize>()
}

/// Decides whether a buffer of `elem_size`-byte elements may be reused for
/// `target_size`-byte elements.
pub fn is_compatible(elem_size: usize, target_size: usize) -> (ok: bool)
    ensures
        ok == compatible(elem_size as nat, target_size as nat),
{
    let word: usize = word_size();
    elem_size == target_size || (elem_size % word == 0 && target_size % word == 0)
}

/// Recomputes a capacity for a new element size, rounding down.
pub fn recompute_capacity(capacity: usize, elem_size: usize, target_size: usize) -> (fit: usize)
    requires
        capacity * elem_size <= usize::MAX,
    ensures
        fit == recomputed_capacity(capacity as nat, elem_size as nat, target_size as nat),
        fit * target_size <= capacity * elem_size,
{
    proof {
        lemma_recomputed_capacity_fits(capacity as nat, elem_size as nat, target_size as nat);
    }
    if target_size == 0 {
        0
    } else {
        let bytes: usize = capacity * elem_size;
        bytes / target_size
    }
}

/// A recomputed capacity never claims more bytes than the buffer holds. For
/// elements with size it falls short of them by less than one element.
pub proof fn lemma_recomputed_capacity_fits(capacity: nat, elem_size: nat, target_size: nat)
    ensures
        recomputed_capacity(capacity, elem_size, target_size) * target_size <= capacity * elem_size,
        target_size > 0 ==> capacity * elem_size < (recomputed_capacity(
            capacity,
            elem_size,
            target_size,
        ) + 1) * target_size,
{
    if target_size > 0 {
        let bytes: int = (capacity * elem_size) as int;
        let target: int = target_size as int;
        vstd::arithmetic::div_mod::lemma_fundamental_div_mod(bytes, target);
        vstd::arithmetic::div_mod::lemma_mod_bound(bytes, target);
        assert(target * (bytes / target) == (bytes / target) * target) by (nonlinear_arith);
        assert(((bytes / target) + 1) * target == (bytes / target) * target + target)
            by (nonlinear_arith);
    }
}

/// Handing a buffer out for the element size it already has keeps its
/// capacity, where the elements have size.
pub proof fn lemma_same_size_keeps_capacity(capacity: nat, elem_size: nat)
    requires
        elem_size > 0,
    ensures
        recomputed_capacity(capacity, elem_size, elem_size) == capacity,
{
    vstd::arithmetic::div_mod::lemma_div_by_multiple(capacity as int, elem_size as int);
}

/// Compatibility does not depend on the direction: a buffer that went from
/// one element size to another may go back. Every size is compatible with
/// itself.
pub proof fn lemma_compatible_is_symmetric(elem_size: nat, target_size: nat)
    ensures
        compatible(elem_size, target_size) == compatible(target_size, elem_size),
        compatible(elem_size, elem_size),
{
}

/// Handing a buffer out for another element size and back never gives it more
/// capacity than it had, and so never more bytes.
pub proof fn lemma_cycle_never_grows(capacity: nat, elem_size: nat, target_size: nat)
    ensures
        recomputed_capacity(
            recomputed_capacity(capacity, elem_size, target_size),
            target_size,
            elem_size,
        ) <= capacity,
{
    let there: nat = recomputed_capacity(capacity, elem_size, target_size);
    if elem_size > 0 {
        lemma_recomputed_capacity_fits(capacity, elem_size, target_size);
        vstd::arithmetic::div_mod::lemma_div_is_ordered(
            (there * target_size) as int,
            (capacity * elem_size) as int,
            elem_size as int,
        );
        lemma_same_size_keeps_capacity(capacity, elem_size);
    }
}

/// Where the size gone to divides the size come from, going there and back
/// gives the capacity that the buffer had.
pub proof fn lemma_cycle_is_exact(capacity: nat, elem_size: nat, target_size: nat)
    requires
        elem_size > 0,
        target_size > 0,
        elem_size % target_size == 0,
    ensures
        recomputed_capacity(capacity, elem_size, target_size) * target_size == capacity * elem_size,
        recomputed_capacity(
            recomputed_capacity(capacity, elem_size, target_size),
            target_size,
            elem_size,
        ) == capacity,
{
    let bytes: int = (capacity * elem_size) as int;
    let target: int = target_size as int;
    let ratio: int = elem_size as int / target;
    vstd::arithmetic::div_mod::lemma_fundamental_div_mod(elem_size as int, target);
    assert(bytes == (capacity * ratio) * target) by (nonlinear_arith)
        requires
            bytes == capacity * elem_size,
            elem_size == target * ratio,
    ;
    vstd::arithmetic::div_mod::lemma_div_by_multiple(capacity * ratio, target);
    lemma_same_size_keeps_capacity(capacity, elem_size);
}

} // verus!
