use artichoke_backend::extn::core_classes::array::inline_buffer::InlineBuffer;
use artichoke_backend::extn::core_classes::array::inline_storage::INLINE_CAPACITY;
use artichoke_backend::value::Value;

fn v(n: u64) -> Value {
    Value { tt: 3, word: n }
}

fn vals(range: std::ops::Range<u64>) -> Vec<Value> {
    range.map(v).collect()
}

fn nil() -> Value {
    Value::nil()
}

fn is_inline(buffer: &InlineBuffer) -> bool {
    matches!(buffer, InlineBuffer::Inline(_))
}

#[test]
fn default_is_empty_inline() {
    let buffer = InlineBuffer::default();
    assert!(is_inline(&buffer));
    assert!(buffer.is_empty());
    assert_eq!(buffer.len(), 0);
}

#[test]
fn nil_is_tag_zero() {
    assert_eq!(Value::nil(), Value { tt: 0, word: 0 });
}

#[test]
fn from_vec_chooses_storage_by_length() {
    let small = InlineBuffer::from_vec(vals(0..8));
    assert!(is_inline(&small));
    assert_eq!(small.as_vec(), vals(0..8));
    let large = InlineBuffer::from_vec(vals(0..9));
    assert!(!is_inline(&large));
    assert_eq!(large.as_vec(), vals(0..9));
    let copied = InlineBuffer::from_slice(&vals(0..3));
    assert!(is_inline(&copied));
    assert_eq!(copied.as_vec(), vals(0..3));
    assert_eq!(INLINE_CAPACITY, 8);
}

#[test]
fn with_capacity_chooses_storage() {
    assert!(is_inline(&InlineBuffer::with_capacity(8)));
    assert!(!is_inline(&InlineBuffer::with_capacity(9)));
    assert!(InlineBuffer::with_capacity(100).is_empty());
}

#[test]
fn get_returns_value_or_none() {
    let buffer = InlineBuffer::from_vec(vals(0..3));
    assert_eq!(buffer.get(0), Some(v(0)));
    assert_eq!(buffer.get(2), Some(v(2)));
    assert_eq!(buffer.get(3), None);
    let large = InlineBuffer::from_vec(vals(0..20));
    assert_eq!(large.get(19), Some(v(19)));
    assert_eq!(large.get(20), None);
}

#[test]
fn slice_clamps_to_the_end() {
    let buffer = InlineBuffer::from_vec(vals(0..20));
    let middle = buffer.slice(2, 3);
    assert_eq!(middle.as_vec(), vals(2..5));
    assert!(is_inline(&middle));
    let tail = buffer.slice(15, 100);
    assert_eq!(tail.as_vec(), vals(15..20));
    let big = buffer.slice(0, 10);
    assert!(!is_inline(&big));
    assert_eq!(big.as_vec(), vals(0..10));
    assert!(buffer.slice(20, 1).is_empty());
    assert!(buffer.slice(25, 1).is_empty());
}

#[test]
fn set_overwrites_and_pads_with_nil() {
    let mut buffer = InlineBuffer::from_vec(vals(0..2));
    buffer.set(1, v(9));
    assert_eq!(buffer.as_vec(), vec![v(0), v(9)]);
    buffer.set(4, v(7));
    assert_eq!(buffer.as_vec(), vec![v(0), v(9), nil(), nil(), v(7)]);
    assert!(is_inline(&buffer));
}

#[test]
fn set_past_inline_capacity_spills() {
    let mut buffer = InlineBuffer::from_vec(vals(0..3));
    buffer.set(10, v(5));
    assert!(!is_inline(&buffer));
    assert_eq!(buffer.len(), 11);
    assert_eq!(buffer.get(2), Some(v(2)));
    assert_eq!(buffer.get(3), Some(nil()));
    assert_eq!(buffer.get(9), Some(nil()));
    assert_eq!(buffer.get(10), Some(v(5)));
}

#[test]
fn set_on_heap_buffer() {
    let mut buffer = InlineBuffer::from_vec(vals(0..10));
    buffer.set(3, v(30));
    assert_eq!(buffer.get(3), Some(v(30)));
    buffer.set(12, v(12));
    assert_eq!(buffer.len(), 13);
    assert_eq!(buffer.get(10), Some(nil()));
    assert_eq!(buffer.get(12), Some(v(12)));
    assert!(!is_inline(&buffer));
}

#[test]
fn set_then_get_law() {
    let mut buffer = InlineBuffer::from_vec(vals(0..5));
    for index in [0usize, 4, 5, 7, 8, 15] {
        buffer.set(index, v(100 + index as u64));
        assert_eq!(buffer.get(index), Some(v(100 + index as u64)));
    }
}

#[test]
fn set_with_drain_replaces_range_inline() {
    let mut buffer = InlineBuffer::from_vec(vals(0..5));
    let drained = buffer.set_with_drain(1, 2, v(9));
    assert_eq!(drained, 2);
    assert_eq!(buffer.as_vec(), vec![v(0), v(9), v(3), v(4)]);
    assert!(is_inline(&buffer));
}

#[test]
fn set_with_drain_inserts_with_zero_drain() {
    let mut buffer = InlineBuffer::from_vec(vals(0..3));
    let drained = buffer.set_with_drain(1, 0, v(9));
    assert_eq!(drained, 0);
    assert_eq!(buffer.as_vec(), vec![v(0), v(9), v(1), v(2)]);
}

#[test]
fn set_with_drain_shrinks_heap_buffer_to_inline() {
    let mut buffer = InlineBuffer::from_vec(vals(0..10));
    let drained = buffer.set_with_drain(2, 5, v(9));
    assert_eq!(drained, 5);
    assert_eq!(buffer.as_vec(), vec![v(0), v(1), v(9), v(7), v(8), v(9)]);
    assert!(is_inline(&buffer));
}

#[test]
fn set_with_drain_past_end_pads() {
    let mut buffer = InlineBuffer::from_vec(vals(0..2));
    let drained = buffer.set_with_drain(4, 3, v(9));
    assert_eq!(drained, 0);
    assert_eq!(buffer.as_vec(), vec![v(0), v(1), nil(), nil(), v(9)]);
    assert!(is_inline(&buffer));

    let mut far = InlineBuffer::from_vec(vals(0..2));
    far.set_with_drain(9, 0, v(9));
    assert!(!is_inline(&far));
    assert_eq!(far.len(), 10);
    assert_eq!(far.get(8), Some(nil()));
    assert_eq!(far.get(9), Some(v(9)));

    let mut heap = InlineBuffer::with_capacity(20);
    heap.set_with_drain(3, 0, v(9));
    assert!(is_inline(&heap));
    assert_eq!(heap.as_vec(), vec![nil(), nil(), nil(), v(9)]);

    let mut heap_far = InlineBuffer::from_vec(vals(0..9));
    heap_far.set_with_drain(11, 0, v(9));
    assert!(!is_inline(&heap_far));
    assert_eq!(heap_far.len(), 12);
    assert_eq!(heap_far.get(10), Some(nil()));
    assert_eq!(heap_far.get(11), Some(v(9)));
}

#[test]
fn set_with_drain_on_large_heap_buffer_appends() {
    let mut buffer = InlineBuffer::from_vec(vals(0..10));
    let drained = buffer.set_with_drain(0, 1, v(99));
    assert_eq!(drained, 1);
    let mut expected = vals(0..10);
    expected.push(v(99));
    assert_eq!(buffer.as_vec(), expected);
}

#[test]
fn set_with_drain_on_full_inline_buffer_spills() {
    let mut at_end = InlineBuffer::from_vec(vals(0..8));
    at_end.set_with_drain(8, 0, v(99));
    assert!(!is_inline(&at_end));
    let mut expected = vals(0..8);
    expected.push(v(99));
    assert_eq!(at_end.as_vec(), expected);

    let mut at_last = InlineBuffer::from_vec(vals(0..8));
    at_last.set_with_drain(7, 0, v(99));
    assert!(!is_inline(&at_last));
    let mut expected = vals(0..7);
    expected.push(v(99));
    assert_eq!(at_last.as_vec(), expected);
}

#[test]
fn set_slice_replaces_range_inline() {
    let mut buffer = InlineBuffer::from_vec(vals(0..5));
    let with = InlineBuffer::from_vec(vec![v(10), v(11), v(12)]);
    let drained = buffer.set_slice(1, 1, &with);
    assert_eq!(drained, 1);
    assert_eq!(buffer.as_vec(), vec![v(0), v(10), v(11), v(12), v(2), v(3), v(4)]);
    assert!(is_inline(&buffer));
}

#[test]
fn set_slice_drain_past_end() {
    let mut buffer = InlineBuffer::from_vec(vals(0..4));
    let with = InlineBuffer::from_vec(vec![v(10)]);
    let drained = buffer.set_slice(2, 10, &with);
    assert_eq!(drained, 2);
    assert_eq!(buffer.as_vec(), vec![v(0), v(1), v(10)]);
}

#[test]
fn set_slice_heap_to_inline() {
    let mut buffer = InlineBuffer::from_vec(vals(0..12));
    let with = InlineBuffer::from_vec(vec![v(20), v(21)]);
    let drained = buffer.set_slice(1, 8, &with);
    assert_eq!(drained, 8);
    assert_eq!(buffer.as_vec(), vec![v(0), v(20), v(21), v(9), v(10), v(11)]);
    assert!(is_inline(&buffer));
}

#[test]
fn set_slice_grows_to_heap() {
    let mut buffer = InlineBuffer::from_vec(vals(0..6));
    let with = InlineBuffer::from_vec(vals(10..14));
    let drained = buffer.set_slice(2, 1, &with);
    assert_eq!(drained, 1);
    assert!(!is_inline(&buffer));
    assert_eq!(
        buffer.as_vec(),
        vec![v(0), v(1), v(10), v(11), v(12), v(13), v(3), v(4), v(5)]
    );

    let mut heap = InlineBuffer::from_vec(vals(0..10));
    let with = InlineBuffer::from_vec(vals(20..22));
    heap.set_slice(9, 1, &with);
    let mut expected = vals(0..9);
    expected.extend(vals(20..22));
    assert_eq!(heap.as_vec(), expected);
}

#[test]
fn set_slice_past_end_pads() {
    let mut buffer = InlineBuffer::from_vec(vals(0..2));
    let with = InlineBuffer::from_vec(vals(5..7));
    let drained = buffer.set_slice(4, 3, &with);
    assert_eq!(drained, 0);
    assert_eq!(buffer.as_vec(), vec![v(0), v(1), nil(), nil(), v(5), v(6)]);
    assert!(is_inline(&buffer));

    let mut spilled = InlineBuffer::from_vec(vals(0..2));
    let with = InlineBuffer::from_vec(vals(5..10));
    spilled.set_slice(4, 0, &with);
    assert!(!is_inline(&spilled));
    assert_eq!(spilled.len(), 9);

    let mut far = InlineBuffer::from_vec(vals(0..2));
    let with = InlineBuffer::from_vec(vec![]);
    far.set_slice(8, 0, &with);
    assert!(!is_inline(&far));
    assert_eq!(far.len(), 8);

    let mut heap = InlineBuffer::from_vec(vals(0..9));
    let with = InlineBuffer::from_vec(vec![v(50)]);
    heap.set_slice(10, 0, &with);
    assert_eq!(heap.len(), 11);
    assert_eq!(heap.get(9), Some(nil()));
    assert_eq!(heap.get(10), Some(v(50)));
}

#[test]
fn concat_chooses_storage() {
    let mut buffer = InlineBuffer::from_vec(vals(0..3));
    buffer.concat(&InlineBuffer::from_vec(vals(3..8)));
    assert!(is_inline(&buffer));
    assert_eq!(buffer.as_vec(), vals(0..8));
    buffer.concat(&InlineBuffer::from_vec(vals(8..9)));
    assert!(!is_inline(&buffer));
    assert_eq!(buffer.as_vec(), vals(0..9));
    let mut shrunk = InlineBuffer::from_vec(vals(0..10));
    shrunk.clear();
    shrunk.concat(&InlineBuffer::from_vec(vals(0..2)));
    assert!(is_inline(&shrunk));
}

#[test]
fn pop_removes_last() {
    let mut buffer = InlineBuffer::from_vec(vals(0..2));
    assert_eq!(buffer.pop(), Some(v(1)));
    assert_eq!(buffer.pop(), Some(v(0)));
    assert_eq!(buffer.pop(), None);
    let mut heap = InlineBuffer::from_vec(vals(0..9));
    assert_eq!(heap.pop(), Some(v(8)));
    assert_eq!(heap.len(), 8);
    assert!(!is_inline(&heap));
}

#[test]
fn pop_undoes_append_law() {
    let mut buffer = InlineBuffer::from_vec(vals(0..4));
    let len = buffer.len();
    buffer.set(len, v(42));
    assert_eq!(buffer.pop(), Some(v(42)));
    assert_eq!(buffer.as_vec(), vals(0..4));
}

#[test]
fn reverse_both_storages() {
    let mut buffer = InlineBuffer::from_vec(vals(0..5));
    buffer.reverse();
    assert_eq!(buffer.as_vec(), vec![v(4), v(3), v(2), v(1), v(0)]);
    let mut heap = InlineBuffer::from_vec(vals(0..10));
    heap.reverse();
    assert_eq!(heap.as_vec(), (0..10).rev().map(v).collect::<Vec<_>>());
    let mut empty = InlineBuffer::default();
    empty.reverse();
    assert!(empty.is_empty());
}

#[test]
fn reverse_twice_law() {
    for n in [0u64, 1, 2, 7, 8, 9, 16] {
        let mut buffer = InlineBuffer::from_vec(vals(0..n));
        buffer.reverse();
        buffer.reverse();
        assert_eq!(buffer.as_vec(), vals(0..n));
    }
}

#[test]
fn clear_keeps_storage() {
    let mut heap = InlineBuffer::from_vec(vals(0..9));
    heap.clear();
    assert!(heap.is_empty());
    assert!(!is_inline(&heap));
    let mut inline = InlineBuffer::from_vec(vals(0..3));
    inline.clear();
    assert!(inline.is_empty());
    assert!(is_inline(&inline));
}

#[test]
fn clone_and_real_children() {
    let buffer = InlineBuffer::from_vec(vals(0..9));
    let copy = buffer.clone();
    assert_eq!(copy.as_vec(), buffer.as_vec());
    assert_eq!(copy.real_children(), 9);
    let small = InlineBuffer::from_vec(vals(0..2)).clone();
    assert!(is_inline(&small));
    assert_eq!(small.real_children(), 2);
}

#[test]
fn splice_restores_law() {
    let mut buffer = InlineBuffer::from_vec(vals(0..6));
    let removed = buffer.slice(1, 3);
    buffer.set_slice(1, 3, &InlineBuffer::default());
    assert_eq!(buffer.as_vec(), vec![v(0), v(4), v(5)]);
    buffer.set_slice(1, 0, &removed);
    assert_eq!(buffer.as_vec(), vals(0..6));
}

#[test]
fn set_with_drain_at_end_appends() {
    let mut buffer = InlineBuffer::from_vec(vals(0..3));
    let drained = buffer.set_with_drain(3, 0, v(9));
    assert_eq!(drained, 0);
    assert_eq!(buffer.as_vec(), vec![v(0), v(1), v(2), v(9)]);
    assert!(is_inline(&buffer));
}

#[test]
fn set_slice_at_end_appends() {
    let mut buffer = InlineBuffer::from_vec(vals(0..3));
    let drained = buffer.set_slice(3, 4, &InlineBuffer::from_vec(vals(5..7)));
    assert_eq!(drained, 0);
    assert_eq!(buffer.as_vec(), vec![v(0), v(1), v(2), v(5), v(6)]);
    assert!(is_inline(&buffer));
    let mut heap = InlineBuffer::from_vec(vals(0..9));
    heap.set_slice(9, 0, &InlineBuffer::from_vec(vals(20..21)));
    let mut expected = vals(0..9);
    expected.push(v(20));
    assert_eq!(heap.as_vec(), expected);
}
