//! Text encodings from `hex`, `base64` and `uuid`. Every function here makes
//! one call into an outside crate and is trusted; its contract states the
//! encoding that the crate's source produces.

use uuid::Uuid;
use vstd::prelude::*;

verus! {

/// The lower-case hexadecimal digit for `n` in `0..16`.
pub open spec fn hex_digit(n: int) -> char {
    if n < 10 {
        (48 + n) as char
    } else {
        (97 + n - 10) as char
    }
}

/// Lower-case hexadecimal of `bytes`: two digits per byte, high nibble first.
pub open spec fn hex_lower(bytes: Seq<u8>) -> Seq<char>
    decreases bytes.len(),
{
    if bytes.len() == 0 {
        Seq::empty()
    } else {
        let b = bytes[0] as int;
        seq![hex_digit(b / 16), hex_digit(b % 16)] + hex_lower(bytes.drop_first())
    }
}

/// The digit of the standard base64 alphabet for `n` in `0..64`.
pub open spec fn base64_digit(n: int) -> char {
    if n < 26 {
        (65 + n) as char
    } else if n < 52 {
        (97 + n - 26) as char
    } else if n < 62 {
        (48 + n - 52) as char
    } else if n == 62 {
        '+'
    } else {
        '/'
    }
}

/// Standard base64 of `bytes` with `=` padding: each group of three bytes
/// becomes four digits, and a last group of one or two bytes is padded.
pub open spec fn base64_standard(bytes: Seq<u8>) -> Seq<char>
    decreases bytes.len(),
{
    let b0 = bytes[0] as int;
    let b1 = bytes[1] as int;
    let b2 = bytes[2] as int;
    if bytes.len() == 0 {
        Seq::empty()
    } else if bytes.len() == 1 {
        seq![base64_digit(b0 / 4), base64_digit((b0 % 4) * 16), '=', '=']
    } else if bytes.len() == 2 {
        seq![
            base64_digit(b0 / 4),
            base64_digit((b0 % 4) * 16 + b1 / 16),
            base64_digit((b1 % 16) * 4),
            '=',
        ]
    } else {
        seq![
            base64_digit(b0 / 4),
            base64_digit((b0 % 4) * 16 + b1 / 16),
            base64_digit((b1 % 16) * 4 + b2 / 64),
            base64_digit(b2 % 64),
        ] + base64_standard(bytes.skip(3))
    }
}

/// The length of the padded base64 of `len` bytes.
pub open spec fn base64_len(len: int) -> int {
    4 * ((len + 2) / 3)
}

/// The hyphenated lower-case form of a UUID's 16 bytes: hexadecimal in
/// groups of 4, 2, 2, 2 and 6 bytes joined by `-`.
pub open spec fn hyphenated_lower(bytes: Seq<u8>) -> Seq<char> {
    hex_lower(bytes.subrange(0, 4)) + seq!['-'] + hex_lower(bytes.subrange(4, 6)) + seq!['-']
        + hex_lower(bytes.subrange(6, 8)) + seq!['-'] + hex_lower(bytes.subrange(8, 10)) + seq![
        '-',
    ] + hex_lower(bytes.subrange(10, 16))
}

/// `hex::encode`: lower-case hexadecimal. The crate collects the digits into
/// a `String`, which panics past `isize::MAX` bytes, so that is excluded.
#[verifier::external_body]
pub(crate) fn hex_encode(bytes: &[u8]) -> (r: String)
    requires
        bytes@.len() <= isize::MAX / 2,
    ensures
        r@ == hex_lower(bytes@),
{
    hex::encode(bytes)
}

/// `base64::encode`: standard alphabet with padding. The crate allocates the
/// output up front and panics when its size is too large for that, so that
/// is excluded.
#[verifier::external_body]
pub(crate) fn base64_encode(bytes: &[u8]) -> (r: String)
    requires
        base64_len(bytes@.len() as int) <= isize::MAX,
    ensures
        r@ == base64_standard(bytes@),
{
    base64::encode(bytes)
}

/// `Hyphenated::encode_lower` of the UUID with these bytes, copied out of the
/// crate's encode buffer.
#[verifier::external_body]
pub(crate) fn uuid_encode_lower(bytes: [u8; 16]) -> (r: String)
    ensures
        r@ == hyphenated_lower(bytes@),
{
    Uuid::from_bytes(bytes).to_hyphenated().encode_lower(&mut Uuid::encode_buffer()).to_owned()
}

} // verus!
