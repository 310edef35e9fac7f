//! The fixed-capacity vector from `arrayvec` that holds small arrays inline.
//!
//! Each function here makes one call into `arrayvec` and is trusted: its
//! contract restates what the crate's source does to the vector's contents,
//! which `inline_items` names.

use arrayvec::ArrayVec;
use vstd::prelude::*;

use crate::value::Value;

verus! {

/// How many values an inline buffer holds before it spills to the heap.
pub const INLINE_CAPACITY: usize = 8;

#[verifier::external_type_specification]
#[verifier::external_body]
#[verifier::reject_recursive_types(T)]
pub struct ExArrayVec<T, const CAP: usize>(ArrayVec<T, CAP>);

/// The values that an inline vector holds, first to last.
pub uninterp spec fn inline_items(v: ArrayVec<Value, INLINE_CAPACITY>) -> Seq<Value>;

/// `ArrayVec::new`: an empty vector.
#[verifier::external_body]
pub(crate) fn inline_new() -> (r: ArrayVec<Value, INLINE_CAPACITY>)
    ensures
        inline_items(r) == Seq::<Value>::empty(),
{
    ArrayVec::new()
}

/// `ArrayVec::len`: the number of values held, never above the capacity.
#[verifier::external_body]
pub(crate) fn inline_len(v: &ArrayVec<Value, INLINE_CAPACITY>) -> (r: usize)
    ensures
        r == inline_items(*v).len(),
        r <= INLINE_CAPACITY,
{
    v.len()
}

/// `ArrayVec::capacity`: the capacity the vector was made with.
#[verifier::external_body]
pub(crate) fn inline_capacity(v: &ArrayVec<Value, INLINE_CAPACITY>) -> (r: usize)
    ensures
        r == INLINE_CAPACITY,
{
    v.capacity()
}

/// `ArrayVec::as_slice`: the values held, as a slice.
#[verifier::external_body]
pub(crate) fn inline_as_slice(v: &ArrayVec<Value, INLINE_CAPACITY>) -> (r: &[Value])
    ensures
        r@ == inline_items(*v),
        r@.len() <= INLINE_CAPACITY,
{
    v.as_slice()
}

/// `ArrayVec::push`: appends a value; the crate panics when the vector is
/// full, so a full vector is excluded.
#[verifier::external_body]
pub(crate) fn inline_push(v: &mut ArrayVec<Value, INLINE_CAPACITY>, value: Value)
    requires
        inline_items(*old(v)).len() < INLINE_CAPACITY,
    ensures
        inline_items(*final(v)) == inline_items(*old(v)).push(value),
{
    v.push(value)
}

/// `ArrayVec::pop`: removes and returns the last value, if any.
#[verifier::external_body]
pub(crate) fn inline_pop(v: &mut ArrayVec<Value, INLINE_CAPACITY>) -> (r: Option<Value>)
    ensures
        inline_items(*old(v)).len() == 0 ==> r == None::<Value> && inline_items(*final(v))
            == inline_items(*old(v)),
        inline_items(*old(v)).len() > 0 ==> r == Some(inline_items(*old(v)).last())
            && inline_items(*final(v)) == inline_items(*old(v)).drop_last(),
{
    v.pop()
}

/// `ArrayVec::clear`: removes every value.
#[verifier::external_body]
pub(crate) fn inline_clear(v: &mut ArrayVec<Value, INLINE_CAPACITY>)
    ensures
        inline_items(*final(v)) == Seq::<Value>::empty(),
{
    v.clear()
}

/// Writes one slot through `ArrayVec`'s `DerefMut` to a slice; an index out
/// of bounds panics there, so it is excluded.
#[verifier::external_body]
pub(crate) fn inline_set(v: &mut ArrayVec<Value, INLINE_CAPACITY>, index: usize, value: Value)
    requires
        index < inline_items(*old(v)).len(),
    ensures
        inline_items(*final(v)) == inline_items(*old(v)).update(index as int, value),
{
    v[index] = value;
}

/// Swaps two slots through `ArrayVec`'s `DerefMut` to a slice; indices out of
/// bounds panic there, so they are excluded.
#[verifier::external_body]
pub(crate) fn inline_swap(v: &mut ArrayVec<Value, INLINE_CAPACITY>, a: usize, b: usize)
    requires
        a < inline_items(*old(v)).len(),
        b < inline_items(*old(v)).len(),
    ensures
        inline_items(*final(v)) == inline_items(*old(v)).update(
            a as int,
            inline_items(*old(v))[b as int],
        ).update(b as int, inline_items(*old(v))[a as int]),
{
    v.swap(a, b)
}

/// `Extend::extend` of `ArrayVec`, fed with the values of a slice in order;
/// the crate panics when the capacity would be exceeded, so that is excluded.
#[verifier::external_body]
pub(crate) fn inline_extend(v: &mut ArrayVec<Value, INLINE_CAPACITY>, values: &[Value])
    requires
        inline_items(*old(v)).len() + values@.len() <= INLINE_CAPACITY,
    ensures
        inline_items(*final(v)) == inline_items(*old(v)) + values@,
{
    v.extend(values.iter().copied())
}

/// `ArrayVec::try_extend_from_slice`: appends the whole slice when it fits
/// in the remaining capacity, and leaves the vector unchanged otherwise.
#[verifier::external_body]
pub(crate) fn inline_try_extend_from_slice(
    v: &mut ArrayVec<Value, INLINE_CAPACITY>,
    values: &[Value],
) -> (r: bool)
    ensures
        r == (inline_items(*old(v)).len() + values@.len() <= INLINE_CAPACITY),
        r ==> inline_items(*final(v)) == inline_items(*old(v)) + values@,
        !r ==> inline_items(*final(v)) == inline_items(*old(v)),
{
    v.try_extend_from_slice(values).is_ok()
}

/// `ArrayVec::drain` over `start..end`, with the drained values collected in
/// order; the crate panics on a range out of bounds, so that is excluded.
#[verifier::external_body]
pub(crate) fn inline_drain(v: &mut ArrayVec<Value, INLINE_CAPACITY>, start: usize, end: usize) -> (r: Vec<
    Value,
>)
    requires
        start <= end <= inline_items(*old(v)).len(),
    ensures
        r@ == inline_items(*old(v)).subrange(start as int, end as int),
        inline_items(*final(v)) == inline_items(*old(v)).subrange(0, start as int)
            + inline_items(*old(v)).subrange(end as int, inline_items(*old(v)).len() as int),
{
    v.drain(start..end).collect()
}

} // verus!
