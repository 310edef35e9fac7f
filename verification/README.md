# artichoke-backend (verified parts)

Parts of the Artichoke Ruby interpreter's backend, written in Verus:

- `extn::core_classes::array::inline_buffer` — the storage behind `Array`:
  up to eight values inline (in an `arrayvec::ArrayVec`), more on the heap.
  Every operation's contract gives the resulting values as a sequence and
  says which storage the buffer ends up in; `array::laws` proves properties
  that span several operations.
- `extn::stdlib::securerandom` — `SecureRandom`: random bytes, hexadecimal,
  base64, alphanumeric strings, UUIDs and integers, on top of `rand`, `hex`,
  `base64` and `uuid`. The encodings are stated exactly; what depends on
  chance is stated as far as every outcome shares it.
- `class` — the spec of a Ruby class defined from Rust (name, super class,
  data flag, description text), and the decisions behind defining the class
  (`define`) and looking a class up (`rclass`), as state machines.
- `extn::core_classes` — the initialization order of the core classes, and
  of `Range` and `Warning`, as state machines that a driver runs against the
  interpreter.

`app/` holds what stays outside the verified library: the drivers of the
initialization and class protocols, the floating-point cases of
`SecureRandom.random_number`, and raw-pointer access to buffers.
