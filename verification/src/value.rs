use vstd::prelude::*;

verus! {

/// A boxed interpreter value as the array buffers hold it: the value's type
/// tag and its payload word. Buffers copy values and never look inside them.
#[derive(Clone, Copy, Debug, PartialEq, Eq, Structural)]
pub struct Value {
    /// The value's type tag (`mrb_vtype`); `nil` has tag 0.
    pub tt: u32,
    /// The value's payload.
    pub word: u64,
}

impl Value {
    /// The `nil` value, which pads arrays that are written past their end.
    pub open spec fn spec_nil() -> Value {
        Value { tt: 0, word: 0 }
    }

    /// The `nil` value.
    pub fn nil() -> (v: Value)
        ensures
            v == Value::spec_nil(),
    {
        Value { tt: 0, word: 0 }
    }
}

} // verus!
