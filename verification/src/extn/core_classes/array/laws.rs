//! Properties of `Array` buffer operations that span more than one call.

use vstd::prelude::*;

use crate::extn::core_classes::array::inline_buffer::{
    nils, spec_drained, spec_set, spec_set_with_drain, spec_slice, spec_splice,
};
use crate::extn::core_classes::array::inline_storage::INLINE_CAPACITY;
use crate::value::Value;

verus! {

/// After `ary[index] = elem`, reading `ary[index]` gives `elem`, every other
/// value that was there is unchanged, and every slot that the write created
/// before `index` holds `nil`.
pub proof fn lemma_set_then_get(values: Seq<Value>, index: int, elem: Value)
    requires
        0 <= index,
    ensures
        spec_set(values, index, elem).len() == if index < values.len() {
            values.len() as int
        } else {
            index + 1
        },
        spec_set(values, index, elem)[index] == elem,
        forall|j: int|
            0 <= j < values.len() && j != index ==> #[trigger] spec_set(values, index, elem)[j]
                == values[j],
        forall|j: int|
            values.len() <= j < index ==> #[trigger] spec_set(values, index, elem)[j]
                == Value::spec_nil(),
{
}

/// Writing one past the end appends, and `pop` takes the value back off.
pub proof fn lemma_pop_undoes_append(values: Seq<Value>, elem: Value)
    ensures
        spec_set(values, values.len() as int, elem).last() == elem,
        spec_set(values, values.len() as int, elem).drop_last() == values,
{
    assert(spec_set(values, values.len() as int, elem).drop_last() =~= values);
}

/// Reversing an array twice gives back the original values.
pub proof fn lemma_reverse_twice(values: Seq<Value>)
    ensures
        values.reverse().reverse() == values,
{
    assert(values.reverse().reverse() =~= values);
}

/// The slice of an array from 0 as long as the array is the whole array, and
/// after `concat` the first values are the receiver's and the rest are the
/// argument's.
pub proof fn lemma_slice_of_concat(left: Seq<Value>, right: Seq<Value>)
    ensures
        spec_slice(left, 0, left.len() as int) == left,
        spec_slice(left + right, 0, left.len() as int) == left,
        spec_slice(left + right, left.len() as int, right.len() as int) == right,
{
    assert(spec_slice(left, 0, left.len() as int) =~= left);
    assert(spec_slice(left + right, 0, left.len() as int) =~= left);
    if right.len() > 0 {
        assert(spec_slice(left + right, left.len() as int, right.len() as int) =~= right);
    }
}

/// `ary[start, drain] = with` removes exactly the reported number of values
/// and inserts all of `with`: the length changes by `with`'s length minus the
/// values drained, plus the `nil`s that pad a start past the end.
pub proof fn lemma_splice_len(values: Seq<Value>, start: int, drain: int, with: Seq<Value>)
    requires
        0 <= start,
        0 <= drain,
    ensures
        spec_splice(values, start, drain, with).len() == (if start > values.len() {
            start
        } else {
            values.len() as int
        }) - spec_drained(values.len() as int, start, drain) + with.len(),
        0 <= spec_drained(values.len() as int, start, drain) <= drain,
{
}

/// Replacing a range with an empty array and then putting the drained values
/// back restores the array.
pub proof fn lemma_splice_restores(values: Seq<Value>, start: int, drain: int)
    requires
        0 <= start,
        0 <= drain,
        start + drain <= values.len(),
    ensures
        spec_splice(
            spec_splice(values, start, drain, Seq::empty()),
            start,
            0,
            values.subrange(start, start + drain),
        ) == values,
{
    let removed = spec_splice(values, start, drain, Seq::empty());
    assert(removed =~= values.subrange(0, start) + values.subrange(start + drain, values.len() as int));
    assert(spec_splice(removed, start, 0, values.subrange(start, start + drain)) =~= values);
}

/// `set_with_drain` with one value agrees with `set_slice` of that one value
/// whenever the start is past the end or the result fits inline.
pub proof fn lemma_set_with_drain_is_splice(
    values: Seq<Value>,
    inline: bool,
    start: int,
    drain: int,
    with: Value,
)
    requires
        0 <= start,
        0 <= drain,
        start > values.len() || values.len() + 1 - drain <= INLINE_CAPACITY,
    ensures
        spec_set_with_drain(values, inline, start, drain, with) == spec_splice(
            values,
            start,
            drain,
            seq![with],
        ),
{
}

/// Padding past the end consists of `nil`s only.
pub proof fn lemma_padding_is_nil(values: Seq<Value>, start: int, with: Seq<Value>)
    requires
        start > values.len(),
    ensures
        forall|j: int|
            values.len() <= j < start ==> #[trigger] spec_splice(values, start, 0, with)[j]
                == Value::spec_nil(),
        spec_splice(values, start, 0, with).subrange(start, start + with.len()) == with,
{
    assert(spec_splice(values, start, 0, with).subrange(start, start + with.len()) =~= with);
    assert(nils((start - values.len()) as nat).len() == start - values.len());
}

} // verus!
