//! A buffer for `Array` that keeps up to [`INLINE_CAPACITY`] values inline
//! and spills larger arrays to the heap.

use arrayvec::ArrayVec;
use vstd::prelude::*;

use crate::extn::core_classes::array::inline_storage::{
    inline_as_slice, inline_capacity, inline_clear, inline_drain, inline_extend, inline_items,
    inline_len, inline_new, inline_pop, inline_push, inline_set, inline_swap,
    inline_try_extend_from_slice, INLINE_CAPACITY,
};
use crate::value::Value;

verus! {

/// The values of an `Array`: inline while small, on the heap once large.
#[derive(Debug)]
pub enum InlineBuffer {
    /// Values on the heap.
    Dynamic(Vec<Value>),
    /// Values held inline, at most [`INLINE_CAPACITY`] of them.
    Inline(ArrayVec<Value, INLINE_CAPACITY>),
}

impl View for InlineBuffer {
    type V = Seq<Value>;

    /// The values of the array, first to last, whatever their storage.
    open spec fn view(&self) -> Seq<Value> {
        match self {
            InlineBuffer::Dynamic(buffer) => buffer@,
            InlineBuffer::Inline(buffer) => inline_items(*buffer),
        }
    }
}

/// `count` copies of `nil`.
pub open spec fn nils(count: nat) -> Seq<Value> {
    Seq::new(count, |i: int| Value::spec_nil())
}

/// The values after `ary[index] = elem`: the slot is overwritten when it
/// exists; otherwise the array grows with `nil`s up to `index`, then `elem`.
pub open spec fn spec_set(values: Seq<Value>, index: int, elem: Value) -> Seq<Value> {
    if index < values.len() {
        values.update(index, elem)
    } else {
        values + nils((index - values.len()) as nat) + seq![elem]
    }
}

/// The values of `ary[start, len]`: at most `len` values from `start` on,
/// none when `start` is past the end.
pub open spec fn spec_slice(values: Seq<Value>, start: int, len: int) -> Seq<Value> {
    if start >= values.len() {
        Seq::empty()
    } else if start + len <= values.len() {
        values.subrange(start, start + len)
    } else {
        values.subrange(start, values.len() as int)
    }
}

/// How many values `ary[start, drain] = ...` removes from an array of `len`
/// values.
pub open spec fn spec_drained(len: int, start: int, drain: int) -> int {
    if start >= len {
        0
    } else if len - start <= drain {
        len - start
    } else {
        drain
    }
}

/// The values after `ary[start, drain] = with`: the `drain` values from
/// `start` (fewer at the end) make way for `with`; a `start` past the end
/// pads the array with `nil`s up to `start` first.
pub open spec fn spec_splice(values: Seq<Value>, start: int, drain: int, with: Seq<Value>) -> Seq<
    Value,
> {
    if start > values.len() {
        values + nils((start - values.len()) as nat) + with
    } else if start + drain <= values.len() {
        values.subrange(0, start) + with + values.subrange(start + drain, values.len() as int)
    } else {
        values.subrange(0, start) + with
    }
}

/// The values after `set_with_drain(start, drain, with)`. From `start` on
/// (at most the end) `drain` values give way to `with`, padding with `nil`s
/// past the end, as long as the result fits inline. When it does not, a heap
/// buffer appends `with`, and an inline buffer writes `with` into slot
/// `start` of its values padded with `nil`s up to `start`.
pub open spec fn spec_set_with_drain(
    values: Seq<Value>,
    inline: bool,
    start: int,
    drain: int,
    with: Value,
) -> Seq<Value> {
    let len = values.len() as int;
    if start > len {
        values + nils((start - len) as nat) + seq![with]
    } else if len + 1 - drain <= INLINE_CAPACITY {
        spec_splice(values, start, drain, seq![with])
    } else if !inline {
        values.push(with)
    } else {
        (values + nils((start + 1 - len) as nat)).update(start, with)
    }
}

/// Whether `set_with_drain(start, drain, ...)` runs to completion on a buffer
/// of `len` values: a splice that fits inline drains no more values than
/// there are from `start` on, an inline buffer that spills is written at most
/// one past its end, and `start + 1` fits in a `usize` where it is computed.
pub open spec fn set_with_drain_admits(len: int, inline: bool, start: int, drain: int) -> bool {
    &&& len < usize::MAX
    &&& start > len && start >= INLINE_CAPACITY ==> start < usize::MAX
    &&& start <= len && len + 1 - drain <= INLINE_CAPACITY ==> drain <= len - start
    &&& start <= len && len + 1 - drain > INLINE_CAPACITY && inline ==> len <= start + 1
}

/// Whether the buffer is inline after `set_with_drain(start, drain, ...)` on
/// `len` values.
pub open spec fn set_with_drain_stays_inline(len: int, start: int, drain: int) -> bool {
    if start > len {
        start < INLINE_CAPACITY
    } else {
        len + 1 - drain <= INLINE_CAPACITY
    }
}

/// The length that `set_slice` computes for its result, with the tail past
/// the drained values counted as 0 when it would be negative.
pub open spec fn set_slice_new_len(len: int, start: int, drain: int, with_len: int) -> int {
    let tail = if start > len || drain > len - start {
        0
    } else {
        len - start - drain
    };
    start + tail + with_len
}

/// Whether `set_slice(start, drain, with)` runs to completion on a buffer of
/// `len` values: its computed length fits in a `usize`, and a result too
/// large to be inline drains no values past the end.
pub open spec fn set_slice_admits(len: int, start: int, drain: int, with_len: int) -> bool {
    &&& set_slice_new_len(len, start, drain, with_len) <= usize::MAX
    &&& start <= len && set_slice_new_len(len, start, drain, with_len) > INLINE_CAPACITY
        ==> start + drain <= len
}

/// Whether the buffer is inline after `set_slice(start, drain, with)`.
pub open spec fn set_slice_stays_inline(
    len: int,
    inline: bool,
    start: int,
    drain: int,
    with_len: int,
) -> bool {
    if start > len {
        inline && start < INLINE_CAPACITY && start + with_len <= INLINE_CAPACITY
    } else {
        set_slice_new_len(len, start, drain, with_len) <= INLINE_CAPACITY
    }
}


/// What `ary[start, drain] = with` does, said directly of the values before
/// and after: the values before `start` stay (all of them, with `nil`s up
/// to `start`, when `start` is past the end), `with` follows from `start`
/// on, then come the values after the drained ones, and the length changes
/// by the length of `with` less the values drained.
pub open spec fn splice_law(
    values: Seq<Value>,
    start: int,
    drain: int,
    with: Seq<Value>,
    result: Seq<Value>,
) -> bool {
    let len = values.len() as int;
    let drained = spec_drained(len, start, drain);
    &&& result.len() == (if start > len {
        start
    } else {
        len
    }) - drained + with.len()
    &&& start <= len ==> result.subrange(0, start) == values.subrange(0, start)
    &&& start > len ==> result.subrange(0, len) == values
    &&& forall|j: int| len <= j < start ==> #[trigger] result[j] == Value::spec_nil()
    &&& result.subrange(start, start + with.len()) == with
    &&& start <= len ==> result.subrange(start + with.len(), result.len() as int)
        == values.subrange(start + drained, len)
}

/// [`spec_splice`] obeys [`splice_law`].
pub proof fn lemma_splice_law(values: Seq<Value>, start: int, drain: int, with: Seq<Value>)
    requires
        0 <= start,
        0 <= drain,
    ensures
        splice_law(values, start, drain, with, spec_splice(values, start, drain, with)),
{
    let len = values.len() as int;
    let result = spec_splice(values, start, drain, with);
    if start > len {
        assert(result.subrange(0, len) =~= values);
        assert(result.subrange(start, start + with.len()) =~= with);
    } else {
        let drained = spec_drained(len, start, drain);
        assert(result.subrange(0, start) =~= values.subrange(0, start));
        assert(result.subrange(start, start + with.len()) =~= with);
        assert(result.subrange(start + with.len(), result.len() as int) =~= values.subrange(
            start + drained,
            len,
        ));
    }
}

/// What `set_with_drain(start, drain, with)` does, said directly of the
/// values before and after: as `ary[start, drain] = [with]` when `start` is
/// past the end or the result fits inline; otherwise a heap buffer appends
/// `with`, and an inline buffer keeps its values before `start`, holds
/// `with` at `start`, and ends there.
pub open spec fn set_with_drain_law(
    values: Seq<Value>,
    inline: bool,
    start: int,
    drain: int,
    with: Value,
    result: Seq<Value>,
) -> bool {
    let len = values.len() as int;
    &&& start > len || len + 1 - drain <= INLINE_CAPACITY ==> splice_law(
        values,
        start,
        drain,
        seq![with],
        result,
    )
    &&& start <= len && len + 1 - drain > INLINE_CAPACITY && !inline ==> result == values.push(
        with,
    )
    &&& start <= len && len + 1 - drain > INLINE_CAPACITY && inline && len <= start + 1
        ==> result.len() == start + 1 && result[start] == with && result.subrange(0, start)
        == values.subrange(0, start)
}

/// [`spec_set_with_drain`] obeys [`set_with_drain_law`].
pub proof fn lemma_set_with_drain_law(
    values: Seq<Value>,
    inline: bool,
    start: int,
    drain: int,
    with: Value,
)
    requires
        0 <= start,
        0 <= drain,
    ensures
        set_with_drain_law(
            values,
            inline,
            start,
            drain,
            with,
            spec_set_with_drain(values, inline, start, drain, with),
        ),
{
    lemma_splice_law(values, start, drain, seq![with]);
    let len = values.len() as int;
    let result = spec_set_with_drain(values, inline, start, drain, with);
    if start <= len && len + 1 - drain > INLINE_CAPACITY && inline && len <= start + 1 {
        assert(result.subrange(0, start) =~= values.subrange(0, start));
    }
}

impl InlineBuffer {
    /// Whether the values are held inline.
    pub open spec fn is_inline(&self) -> bool {
        self is Inline
    }
}

/// Appends `count` copies of `nil`.
fn push_nils(buffer: &mut Vec<Value>, count: usize)
    ensures
        final(buffer)@ == old(buffer)@ + nils(count as nat),
{
    let nil = Value::nil();
    let mut pushed: usize = 0;
    while pushed < count
        invariant
            pushed <= count,
            nil == Value::spec_nil(),
            buffer@ == old(buffer)@ + nils(pushed as nat),
        decreases count - pushed,
    {
        buffer.push(nil);
        pushed += 1;
        assert(buffer@ =~= old(buffer)@ + nils(pushed as nat));
    }
}

/// Appends `count` copies of `nil` to an inline vector with room for them.
fn inline_push_nils(buffer: &mut ArrayVec<Value, INLINE_CAPACITY>, count: usize)
    requires
        inline_items(*old(buffer)).len() + count <= INLINE_CAPACITY,
    ensures
        inline_items(*final(buffer)) == inline_items(*old(buffer)) + nils(count as nat),
{
    let nil = Value::nil();
    let mut pushed: usize = 0;
    while pushed < count
        invariant
            pushed <= count,
            nil == Value::spec_nil(),
            inline_items(*old(buffer)).len() + count <= INLINE_CAPACITY,
            inline_items(*buffer) == inline_items(*old(buffer)) + nils(pushed as nat),
        decreases count - pushed,
    {
        inline_push(buffer, nil);
        pushed += 1;
        assert(inline_items(*buffer) =~= inline_items(*old(buffer)) + nils(pushed as nat));
    }
}

/// Appends the values of a slice to a vector.
fn extend_vec(buffer: &mut Vec<Value>, values: &[Value])
    ensures
        final(buffer)@ == old(buffer)@ + values@,
{
    let mut i: usize = 0;
    while i < values.len()
        invariant
            i <= values@.len(),
            buffer@ == old(buffer)@ + values@.subrange(0, i as int),
        decreases values@.len() - i,
    {
        buffer.push(values[i]);
        i += 1;
        assert(buffer@ =~= old(buffer)@ + values@.subrange(0, i as int));
    }
    assert(values@.subrange(0, values@.len() as int) =~= values@);
}

/// A vector holding the values of a slice.
fn slice_to_vec(values: &[Value]) -> (r: Vec<Value>)
    ensures
        r@ == values@,
{
    let mut r: Vec<Value> = Vec::new();
    extend_vec(&mut r, values);
    assert(r@ =~= values@);
    r
}

impl Clone for InlineBuffer {
    /// A copy of the values, in the same storage.
    fn clone(&self) -> (r: Self)
        ensures
            r@ == self@,
            r.is_inline() == self.is_inline(),
    {
        match self {
            InlineBuffer::Dynamic(buffer) => InlineBuffer::Dynamic(slice_to_vec(buffer.as_slice())),
            InlineBuffer::Inline(buffer) => {
                let mut inline = inline_new();
                inline_extend(&mut inline, inline_as_slice(buffer));
                InlineBuffer::Inline(inline)
            },
        }
    }
}

impl Default for InlineBuffer {
    /// An empty inline buffer.
    fn default() -> (r: Self)
        ensures
            r@ == Seq::<Value>::empty(),
            r.is_inline(),
    {
        InlineBuffer::Inline(inline_new())
    }
}

impl InlineBuffer {
    /// The values, as a slice.
    fn as_slice(&self) -> (r: &[Value])
        ensures
            r@ == self@,
    {
        match self {
            InlineBuffer::Dynamic(buffer) => buffer.as_slice(),
            InlineBuffer::Inline(buffer) => inline_as_slice(buffer),
        }
    }

    /// A new buffer with the values of `ary[start, len]`: inline when they fit.
    pub fn slice(&self, start: usize, len: usize) -> (r: Self)
        ensures
            r@ == spec_slice(self@, start as int, len as int),
            r.is_inline() == (r@.len() <= INLINE_CAPACITY),
            r@.len() == if start >= self@.len() {
                0
            } else if len <= self@.len() - start {
                len as int
            } else {
                self@.len() - start
            },
            forall|i: int| 0 <= i < r@.len() ==> #[trigger] r@[i] == self@[start + i],
    {
        let values = self.as_slice();
        let total = values.len();
        let taken = if start >= total {
            Vec::new()
        } else {
            let end = if len <= total - start {
                start + len
            } else {
                total
            };
            slice_to_vec(&values[start..end])
        };
        assert(taken@ =~= spec_slice(self@, start as int, len as int));
        InlineBuffer::from_vec(taken)
    }

    /// `ary[index] = elem`: overwrites the slot when it exists, else pads the
    /// array with `nil`s up to `index` and appends `elem`. An inline buffer
    /// spills to the heap when `index` is beyond the inline capacity.
    pub fn set(&mut self, index: usize, elem: Value)
        requires
            index >= old(self)@.len() ==> index < usize::MAX,
        ensures
            final(self)@ == spec_set(old(self)@, index as int, elem),
            final(self).is_inline() == (old(self).is_inline() && index < INLINE_CAPACITY),
    {
        let buflen = self.len();
        match self {
            InlineBuffer::Dynamic(buffer) => {
                if index < buflen {
                    buffer[index] = elem;
                } else {
                    buffer.reserve(index + 1 - buflen);
                    push_nils(buffer, index - buflen);
                    buffer.push(elem);
                }
            },
            InlineBuffer::Inline(buffer) => {
                if index < buflen {
                    inline_set(buffer, index, elem);
                } else if index < inline_capacity(buffer) {
                    inline_push_nils(buffer, index - buflen);
                    inline_push(buffer, elem);
                } else {
                    let mut dynamic = spill(buffer);
                    push_nils(&mut dynamic, index - buflen);
                    dynamic.push(elem);
                    *self = InlineBuffer::Dynamic(dynamic);
                }
            },
        }
    }

    /// `ary[start, drain] = with` for a single value; returns how many values
    /// were drained.
    pub fn set_with_drain(&mut self, start: usize, drain: usize, with: Value) -> (r: usize)
        requires
            set_with_drain_admits(
                old(self)@.len() as int,
                old(self).is_inline(),
                start as int,
                drain as int,
            ),
        ensures
            r == spec_drained(old(self)@.len() as int, start as int, drain as int),
            final(self)@ == spec_set_with_drain(
                old(self)@,
                old(self).is_inline(),
                start as int,
                drain as int,
                with,
            ),
            set_with_drain_law(
                old(self)@,
                old(self).is_inline(),
                start as int,
                drain as int,
                with,
                final(self)@,
            ),
            final(self).is_inline() == set_with_drain_stays_inline(
                old(self)@.len() as int,
                start as int,
                drain as int,
            ),
            final(self).is_inline() ==> final(self)@.len() <= INLINE_CAPACITY,
            final(self)@.len() <= INLINE_CAPACITY ==> final(self).is_inline() || (old(
                self,
            ).is_inline() && start == INLINE_CAPACITY - 1 && drain == 0),
    {
        proof {
            lemma_set_with_drain_law(old(self)@, old(self).is_inline(), start as int, drain as int, with);
        }
        let buflen = self.len();
        let tail = if buflen > start {
            buflen - start
        } else {
            0
        };
        let drained = if tail < drain {
            tail
        } else {
            drain
        };
        let keep = if buflen + 1 > drain {
            buflen + 1 - drain
        } else {
            0
        };
        if start > buflen {
            set_with_drain_sparse(self, start, with);
        } else if keep <= INLINE_CAPACITY {
            set_with_drain_to_inline(self, start, drain, with);
        } else {
            match self {
                InlineBuffer::Dynamic(buffer) => {
                    buffer.push(with);
                },
                InlineBuffer::Inline(buffer) => {
                    let mut dynamic = spill(buffer);
                    push_nils(&mut dynamic, start + 1 - buflen);
                    dynamic[start] = with;
                    *self = InlineBuffer::Dynamic(dynamic);
                },
            }
        }
        drained
    }

    /// `ary[start, drain] = with`: the `drain` values from `start` (fewer at
    /// the end) give way to the values of `with`, padding with `nil`s when
    /// `start` is past the end; returns how many values were drained.
    pub fn set_slice(&mut self, start: usize, drain: usize, with: &Self) -> (r: usize)
        requires
            set_slice_admits(
                old(self)@.len() as int,
                start as int,
                drain as int,
                with@.len() as int,
            ),
        ensures
            r == spec_drained(old(self)@.len() as int, start as int, drain as int),
            final(self)@ == spec_splice(old(self)@, start as int, drain as int, with@),
            splice_law(old(self)@, start as int, drain as int, with@, final(self)@),
            final(self).is_inline() == set_slice_stays_inline(
                old(self)@.len() as int,
                old(self).is_inline(),
                start as int,
                drain as int,
                with@.len() as int,
            ),
            final(self).is_inline() ==> final(self)@.len() <= INLINE_CAPACITY,
            final(self)@.len() <= INLINE_CAPACITY && (start <= old(self)@.len() || (old(
                self,
            ).is_inline() && start < INLINE_CAPACITY)) ==> final(self).is_inline(),
            !old(self).is_inline() && start > old(self)@.len() ==> !final(self).is_inline(),
    {
        proof {
            lemma_splice_law(old(self)@, start as int, drain as int, with@);
        }
        let buflen = self.len();
        let tail = if buflen > start {
            buflen - start
        } else {
            0
        };
        let drained = if tail < drain {
            tail
        } else {
            drain
        };
        let kept = if buflen >= start && buflen - start >= drain {
            buflen - start - drain
        } else {
            0
        };
        let newlen = start + kept + with.len();
        if start > buflen {
            set_slice_with_drain_sparse(self, start, with);
        } else if newlen <= INLINE_CAPACITY {
            set_slice_with_drain_to_inline(self, start, drain, with);
        } else {
            set_slice_with_drain_to_dynamic(self, start, drain, with);
        }
        drained
    }

    /// Appends the values of `other`: inline when all of them fit.
    pub fn concat(&mut self, other: &Self)
        requires
            old(self)@.len() + other@.len() <= usize::MAX,
        ensures
            final(self)@ == old(self)@ + other@,
            final(self).is_inline() == (old(self)@.len() + other@.len() <= INLINE_CAPACITY),
    {
        if self.len() + other.len() <= INLINE_CAPACITY {
            concat_to_inline(self, other);
        } else {
            concat_to_dynamic(self, other);
        }
    }

    /// A buffer that holds `values`: inline when they fit, else the vector
    /// itself.
    pub fn from_vec(values: Vec<Value>) -> (r: Self)
        ensures
            r@ == values@,
            r.is_inline() == (values@.len() <= INLINE_CAPACITY),
    {
        if values.len() <= INLINE_CAPACITY {
            let mut inline = inline_new();
            inline_extend(&mut inline, values.as_slice());
            InlineBuffer::Inline(inline)
        } else {
            InlineBuffer::Dynamic(values)
        }
    }

    /// A buffer that holds a copy of `values`: inline when they fit.
    pub fn from_slice(values: &[Value]) -> (r: Self)
        ensures
            r@ == values@,
            r.is_inline() == (values@.len() <= INLINE_CAPACITY),
    {
        if values.len() <= INLINE_CAPACITY {
            let mut inline = inline_new();
            inline_extend(&mut inline, values);
            InlineBuffer::Inline(inline)
        } else {
            InlineBuffer::Dynamic(slice_to_vec(values))
        }
    }

    /// An empty buffer, inline unless `capacity` exceeds the inline capacity.
    pub fn with_capacity(capacity: usize) -> (r: Self)
        ensures
            r@ == Seq::<Value>::empty(),
            r.is_inline() == (capacity <= INLINE_CAPACITY),
    {
        if capacity <= INLINE_CAPACITY {
            InlineBuffer::Inline(inline_new())
        } else {
            InlineBuffer::Dynamic(Vec::with_capacity(capacity))
        }
    }

    /// The number of values in the array.
    pub fn len(&self) -> (r: usize)
        ensures
            r == self@.len(),
            self.is_inline() ==> r <= INLINE_CAPACITY,
    {
        match self {
            InlineBuffer::Dynamic(buffer) => buffer.len(),
            InlineBuffer::Inline(buffer) => inline_len(buffer),
        }
    }

    /// The number of values that the garbage collector visits: every value.
    pub fn real_children(&self) -> (r: usize)
        ensures
            r == self@.len(),
    {
        match self {
            InlineBuffer::Dynamic(buffer) => buffer.len(),
            InlineBuffer::Inline(buffer) => inline_len(buffer),
        }
    }

    /// Whether the array has no values.
    pub fn is_empty(&self) -> (r: bool)
        ensures
            r == (self@.len() == 0),
    {
        match self {
            InlineBuffer::Dynamic(buffer) => buffer.len() == 0,
            InlineBuffer::Inline(buffer) => inline_len(buffer) == 0,
        }
    }

    /// A vector of the values, first to last.
    pub fn as_vec(&self) -> (r: Vec<Value>)
        ensures
            r@ == self@,
    {
        match self {
            InlineBuffer::Dynamic(buffer) => slice_to_vec(buffer.as_slice()),
            InlineBuffer::Inline(buffer) => slice_to_vec(inline_as_slice(buffer)),
        }
    }

    /// Removes every value; the storage stays as it was.
    pub fn clear(&mut self)
        ensures
            final(self)@ == Seq::<Value>::empty(),
            final(self).is_inline() == old(self).is_inline(),
    {
        match self {
            InlineBuffer::Dynamic(buffer) => buffer.clear(),
            InlineBuffer::Inline(buffer) => inline_clear(buffer),
        }
    }

    /// The value at `index`, or `None` (the interpreter's `nil`) past the end.
    pub fn get(&self, index: usize) -> (r: Option<Value>)
        ensures
            index < self@.len() ==> r == Some(self@[index as int]),
            index >= self@.len() ==> r == None::<Value>,
    {
        let values = match self {
            InlineBuffer::Dynamic(buffer) => buffer.as_slice(),
            InlineBuffer::Inline(buffer) => inline_as_slice(buffer),
        };
        if index < values.len() {
            Some(values[index])
        } else {
            None
        }
    }

    /// Removes and returns the last value; `None` (the interpreter's `nil`)
    /// when the array is empty. The storage stays as it was.
    pub fn pop(&mut self) -> (r: Option<Value>)
        ensures
            old(self)@.len() == 0 ==> r == None::<Value> && final(self)@ == old(self)@,
            old(self)@.len() > 0 ==> r == Some(old(self)@.last()) && final(self)@ == old(
                self,
            )@.drop_last(),
            final(self).is_inline() == old(self).is_inline(),
    {
        match self {
            InlineBuffer::Dynamic(buffer) => buffer.pop(),
            InlineBuffer::Inline(buffer) => inline_pop(buffer),
        }
    }

    /// Reverses the values in place; the storage stays as it was.
    pub fn reverse(&mut self)
        ensures
            final(self)@ == old(self)@.reverse(),
            final(self).is_inline() == old(self).is_inline(),
    {
        match self {
            InlineBuffer::Dynamic(buffer) => {
                reverse_vec(buffer);
            },
            InlineBuffer::Inline(buffer) => {
                let len = inline_len(buffer);
                if len > 0 {
                    let ghost original = inline_items(*buffer);
                    let mut left: usize = 0;
                    let mut right: usize = len - 1;
                    while left < right
                        invariant
                            len == original.len(),
                            len > 0,
                            left + right == len - 1,
                            left <= right + 1,
                            inline_items(*buffer).len() == len,
                            forall|i: int|
                                0 <= i < left ==> #[trigger] inline_items(*buffer)[i] == original[len
                                    - 1 - i],
                            forall|i: int|
                                right < i < len ==> #[trigger] inline_items(*buffer)[i] == original[len
                                    - 1 - i],
                            forall|i: int|
                                left <= i <= right ==> #[trigger] inline_items(*buffer)[i]
                                    == original[i],
                        decreases right + 1 - left,
                    {
                        inline_swap(buffer, left, right);
                        left += 1;
                        right -= 1;
                    }
                }
                assert(inline_items(*buffer) =~= old(self)@.reverse());
            },
        }
    }
}

/// Reverses the values of a vector in place.
fn reverse_vec(buffer: &mut Vec<Value>)
    ensures
        final(buffer)@ == old(buffer)@.reverse(),
{
    let len = buffer.len();
    if len > 0 {
        let ghost original = buffer@;
        let mut left: usize = 0;
        let mut right: usize = len - 1;
        while left < right
            invariant
                len == original.len(),
                len > 0,
                left + right == len - 1,
                left <= right + 1,
                buffer@.len() == len,
                forall|i: int| 0 <= i < left ==> #[trigger] buffer@[i] == original[len - 1 - i],
                forall|i: int| right < i < len ==> #[trigger] buffer@[i] == original[len - 1 - i],
                forall|i: int| left <= i <= right ==> #[trigger] buffer@[i] == original[i],
            decreases right + 1 - left,
        {
            let l = buffer[left];
            let r = buffer[right];
            buffer.set(left, r);
            buffer.set(right, l);
            left += 1;
            right -= 1;
        }
    }
    assert(buffer@ =~= old(buffer)@.reverse());
}

/// A vector holding the values of an inline vector.
fn spill(buffer: &ArrayVec<Value, INLINE_CAPACITY>) -> (r: Vec<Value>)
    ensures
        r@ == inline_items(*buffer),
{
    slice_to_vec(inline_as_slice(buffer))
}

/// A vector of `values` where the `drain` values from `start` give way to
/// `with`.
fn spliced(values: &[Value], start: usize, drain: usize, with: &[Value]) -> (r: Vec<Value>)
    requires
        start + drain <= values@.len(),
    ensures
        r@ == values@.subrange(0, start as int) + with@ + values@.subrange(
            start + drain,
            values@.len() as int,
        ),
{
    let len = values.len();
    let mut r = slice_to_vec(&values[0..start]);
    extend_vec(&mut r, with);
    extend_vec(&mut r, &values[start + drain..len]);
    r
}

/// Writes `elem` at `start`, at or past the end of the array, padding with
/// `nil`s up to `start`: inline when `start` is below the inline capacity, on
/// the heap otherwise.
fn set_with_drain_sparse(ary: &mut InlineBuffer, start: usize, elem: Value)
    requires
        start >= old(ary)@.len(),
        start >= INLINE_CAPACITY ==> start < usize::MAX,
    ensures
        final(ary)@ == old(ary)@ + nils((start - old(ary)@.len()) as nat) + seq![elem],
        final(ary).is_inline() == (start < INLINE_CAPACITY),
{
    let buflen = ary.len();
    if start < INLINE_CAPACITY {
        match ary {
            InlineBuffer::Dynamic(buffer) => {
                let mut inline = inline_new();
                inline_extend(&mut inline, buffer.as_slice());
                inline_push_nils(&mut inline, start - buflen);
                inline_push(&mut inline, elem);
                *ary = InlineBuffer::Inline(inline);
            },
            InlineBuffer::Inline(buffer) => {
                inline_push_nils(buffer, start - buflen);
                inline_push(buffer, elem);
            },
        }
    } else {
        match ary {
            InlineBuffer::Dynamic(buffer) => {
                buffer.reserve(start + 1 - buflen);
                push_nils(buffer, start - buflen);
                buffer.push(elem);
            },
            InlineBuffer::Inline(buffer) => {
                let mut dynamic = spill(buffer);
                push_nils(&mut dynamic, start - buflen);
                dynamic.push(elem);
                *ary = InlineBuffer::Dynamic(dynamic);
            },
        }
    }
}

/// Replaces the `drain` values from `start` with `elem` in an inline vector.
fn set_with_drain_to_inline(ary: &mut InlineBuffer, start: usize, drain: usize, elem: Value)
    requires
        start <= old(ary)@.len(),
        drain <= old(ary)@.len() - start,
        old(ary)@.len() + 1 - drain <= INLINE_CAPACITY,
    ensures
        final(ary)@ == spec_splice(old(ary)@, start as int, drain as int, seq![elem]),
        final(ary).is_inline(),
{
    match ary {
        InlineBuffer::Dynamic(buffer) => {
            let values = buffer.as_slice();
            let len = values.len();
            let mut inline = inline_new();
            inline_extend(&mut inline, &values[0..start]);
            inline_push(&mut inline, elem);
            inline_extend(&mut inline, &values[start + drain..len]);
            *ary = InlineBuffer::Inline(inline);
        },
        InlineBuffer::Inline(buffer) => {
            let mut inline = inline_new();
            let head = inline_drain(buffer, 0, start);
            inline_extend(&mut inline, head.as_slice());
            inline_push(&mut inline, elem);
            let rest_len = inline_len(buffer);
            let tail = inline_drain(buffer, drain, rest_len);
            inline_extend(&mut inline, tail.as_slice());
            *ary = InlineBuffer::Inline(inline);
        },
    }
    assert(final(ary)@ =~= spec_splice(old(ary)@, start as int, drain as int, seq![elem]));
}

/// Writes the values of `with` from `start` on, at or past the end of the
/// array, padding with `nil`s up to `start`; an inline buffer stays inline
/// while the result fits.
fn set_slice_with_drain_sparse(ary: &mut InlineBuffer, start: usize, with: &InlineBuffer)
    requires
        start >= old(ary)@.len(),
    ensures
        final(ary)@ == old(ary)@ + nils((start - old(ary)@.len()) as nat) + with@,
        final(ary).is_inline() == (old(ary).is_inline() && start < INLINE_CAPACITY && start
            + with@.len() <= INLINE_CAPACITY),
{
    let buflen = ary.len();
    let with_values = with.as_slice();
    match ary {
        InlineBuffer::Dynamic(buffer) => {
            push_nils(buffer, start - buflen);
            extend_vec(buffer, with_values);
        },
        InlineBuffer::Inline(buffer) => {
            if start < INLINE_CAPACITY {
                inline_push_nils(buffer, start - buflen);
                if !inline_try_extend_from_slice(buffer, with_values) {
                    let mut dynamic = spill(buffer);
                    extend_vec(&mut dynamic, with_values);
                    *ary = InlineBuffer::Dynamic(dynamic);
                }
            } else {
                let mut dynamic = spill(buffer);
                push_nils(&mut dynamic, start - buflen);
                extend_vec(&mut dynamic, with_values);
                *ary = InlineBuffer::Dynamic(dynamic);
            }
        },
    }
}

/// Replaces the `drain` values from `start` (fewer at the end) with the
/// values of `with`, when the result fits inline.
fn set_slice_with_drain_to_inline(
    ary: &mut InlineBuffer,
    start: usize,
    drain: usize,
    with: &InlineBuffer,
)
    requires
        start <= old(ary)@.len(),
        set_slice_new_len(old(ary)@.len() as int, start as int, drain as int, with@.len() as int)
            <= INLINE_CAPACITY,
    ensures
        final(ary)@ == spec_splice(old(ary)@, start as int, drain as int, with@),
        final(ary).is_inline(),
{
    let with_values = with.as_slice();
    match ary {
        InlineBuffer::Dynamic(buffer) => {
            let values = buffer.as_slice();
            let len = values.len();
            let mut inline = inline_new();
            inline_extend(&mut inline, &values[0..start]);
            let rest_start = if drain < len - start {
                start + drain
            } else {
                len
            };
            let rest = &values[rest_start..len];
            if !inline_try_extend_from_slice(&mut inline, with_values) {
                let mut dynamic = spill(&inline);
                extend_vec(&mut dynamic, with_values);
                extend_vec(&mut dynamic, rest);
                *ary = InlineBuffer::Dynamic(dynamic);
            } else {
                inline_extend(&mut inline, rest);
                *ary = InlineBuffer::Inline(inline);
            }
        },
        InlineBuffer::Inline(buffer) => {
            let mut inline = inline_new();
            let head = inline_drain(buffer, 0, start);
            inline_extend(&mut inline, head.as_slice());
            let rest_len = inline_len(buffer);
            if drain < rest_len {
                let _ = inline_drain(buffer, 0, drain);
            } else {
                inline_clear(buffer);
            }
            if !inline_try_extend_from_slice(&mut inline, with_values) {
                let mut dynamic = spill(&inline);
                extend_vec(&mut dynamic, with_values);
                extend_vec(&mut dynamic, inline_as_slice(buffer));
                *ary = InlineBuffer::Dynamic(dynamic);
            } else {
                inline_extend(&mut inline, inline_as_slice(buffer));
                *ary = InlineBuffer::Inline(inline);
            }
        },
    }
    assert(final(ary)@ =~= spec_splice(old(ary)@, start as int, drain as int, with@));
}

/// Replaces the `drain` values from `start` with the values of `with`, on
/// the heap.
fn set_slice_with_drain_to_dynamic(
    ary: &mut InlineBuffer,
    start: usize,
    drain: usize,
    with: &InlineBuffer,
)
    requires
        start + drain <= old(ary)@.len(),
    ensures
        final(ary)@ == spec_splice(old(ary)@, start as int, drain as int, with@),
        !final(ary).is_inline(),
{
    let with_values = with.as_slice();
    match ary {
        InlineBuffer::Dynamic(buffer) => {
            let dynamic = spliced(buffer.as_slice(), start, drain, with_values);
            *buffer = dynamic;
        },
        InlineBuffer::Inline(buffer) => {
            let dynamic = spliced(inline_as_slice(buffer), start, drain, with_values);
            *ary = InlineBuffer::Dynamic(dynamic);
        },
    }
}

/// Appends the values of `other`, when all of them fit inline.
fn concat_to_inline(ary: &mut InlineBuffer, other: &InlineBuffer)
    requires
        old(ary)@.len() + other@.len() <= INLINE_CAPACITY,
    ensures
        final(ary)@ == old(ary)@ + other@,
        final(ary).is_inline(),
{
    let mut inline = inline_new();
    inline_extend(&mut inline, ary.as_slice());
    inline_extend(&mut inline, other.as_slice());
    *ary = InlineBuffer::Inline(inline);
}

/// Appends the values of `other`, on the heap.
fn concat_to_dynamic(ary: &mut InlineBuffer, other: &InlineBuffer)
    requires
        old(ary)@.len() + other@.len() <= usize::MAX,
    ensures
        final(ary)@ == old(ary)@ + other@,
        !final(ary).is_inline(),
{
    let mut dynamic = Vec::with_capacity(ary.len() + other.len());
    extend_vec(&mut dynamic, ary.as_slice());
    extend_vec(&mut dynamic, other.as_slice());
    *ary = InlineBuffer::Dynamic(dynamic);
}

} // verus!
