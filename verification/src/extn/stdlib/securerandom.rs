//! `SecureRandom`: random bytes, numbers and strings from the system's
//! cryptographically secure generator.

pub mod encoding;
pub mod entropy;

use vstd::prelude::*;
use vstd::string::StringSliceAdditionalSpecFns;

use crate::extn::stdlib::securerandom::encoding::{
    base64_encode, base64_len, base64_standard, hex_digit, hex_encode, hex_lower, hyphenated_lower,
    uuid_encode_lower,
};
use crate::extn::stdlib::securerandom::entropy::{
    fill_bytes, gen_range_i64, is_ascii_alphanumeric, new_v4_bytes, sample_alphanumeric,
    thread_rng,
};

verus! {

/// How many bytes (or characters) are generated when no length is given.
pub const DEFAULT_REQUESTED_BYTES: usize = 16;

/// The `SecureRandom` module.
#[derive(Debug, Clone, Copy)]
pub struct SecureRandom;

/// The exceptions that `SecureRandom` raises.
#[derive(Debug, Clone, Copy, PartialEq, Eq, Structural)]
pub enum SecureRandomError {
    /// `ArgumentError`: a negative length was requested.
    ArgumentError,
    /// `Fatal`: a length does not fit in a `usize`.
    Fatal,
}

impl SecureRandomError {
    /// The exception's message.
    pub fn message(&self) -> (r: &'static str)
        ensures
            *self == SecureRandomError::ArgumentError ==> r@ == "negative string size (or size too big)"@,
            *self == SecureRandomError::Fatal ==> r@ == "positive Int must be usize"@,
    {
        match self {
            SecureRandomError::ArgumentError => "negative string size (or size too big)",
            SecureRandomError::Fatal => "positive Int must be usize",
        }
    }
}

/// What `random_number` returns.
#[derive(Debug, Clone, Copy, PartialEq, Eq, Structural)]
pub enum RandomNumber {
    /// An integer in `0..max`.
    Integer(i64),
    /// A float in `[0, 1)`, which the caller draws: floats stay outside this
    /// library.
    UnitFloat,
}

/// The length that an optional length argument requests: 16 when absent, an
/// `ArgumentError` when negative, `Fatal` when it does not fit in a `usize`.
pub open spec fn spec_requested_len(len: Option<i64>) -> Result<nat, SecureRandomError> {
    match len {
        None => Ok(DEFAULT_REQUESTED_BYTES as nat),
        Some(n) => if n < 0 {
            Err(SecureRandomError::ArgumentError)
        } else if n > usize::MAX {
            Err(SecureRandomError::Fatal)
        } else {
            Ok(n as nat)
        },
    }
}

/// Whether a request for `len` leaves the generated output, `scale` units
/// per requested byte, within what a `Vec` or `String` can hold.
pub open spec fn fits_in_memory(len: Option<i64>, scale: int) -> bool {
    spec_requested_len(len) matches Ok(n) ==> n * scale <= isize::MAX
}

/// The length that `len` requests, as `random_bytes` and `alphanumeric`
/// read it.
fn requested_len(len: Option<i64>) -> (r: Result<usize, SecureRandomError>)
    ensures
        match spec_requested_len(len) {
            Ok(n) => r == Ok::<usize, SecureRandomError>(n as usize),
            Err(e) => r == Err::<usize, SecureRandomError>(e),
        },
{
    match len {
        None => Ok(DEFAULT_REQUESTED_BYTES),
        Some(n) => {
            if n < 0 {
                Err(SecureRandomError::ArgumentError)
            } else if n as u64 > usize::MAX as u64 {
                Err(SecureRandomError::Fatal)
            } else {
                Ok(n as usize)
            }
        },
    }
}

/// The message of the `ArgumentError` that `random_number` raises for an
/// argument that is neither a number nor convertible to an integer:
/// `invalid argument - ` followed by the argument as `inspect` shows it.
pub fn invalid_argument_message(inspected: &[u8]) -> (r: Vec<u8>)
    ensures
        r@ == "invalid argument - ".spec_bytes() + inspected@,
{
    let prefix = "invalid argument - ".as_bytes();
    let mut message: Vec<u8> = Vec::new();
    let mut i: usize = 0;
    while i < prefix.len()
        invariant
            i <= prefix@.len(),
            message@ == prefix@.subrange(0, i as int),
        decreases prefix@.len() - i,
    {
        message.push(prefix[i]);
        i += 1;
        assert(message@ =~= prefix@.subrange(0, i as int));
    }
    assert(prefix@.subrange(0, prefix@.len() as int) =~= prefix@);
    let mut j: usize = 0;
    while j < inspected.len()
        invariant
            j <= inspected@.len(),
            message@ == prefix@ + inspected@.subrange(0, j as int),
        decreases inspected@.len() - j,
    {
        message.push(inspected[j]);
        j += 1;
        assert(message@ =~= prefix@ + inspected@.subrange(0, j as int));
    }
    assert(inspected@.subrange(0, inspected@.len() as int) =~= inspected@);
    message
}

/// Lower-case hexadecimal of `bytes`, two digits per byte.
pub fn encode_hex(bytes: &[u8]) -> (r: String)
    requires
        bytes@.len() <= isize::MAX / 2,
    ensures
        r@ == hex_lower(bytes@),
{
    hex_encode(bytes)
}

/// Standard base64 of `bytes`, padded with `=`.
pub fn encode_base64(bytes: &[u8]) -> (r: String)
    requires
        base64_len(bytes@.len() as int) <= isize::MAX,
    ensures
        r@ == base64_standard(bytes@),
{
    base64_encode(bytes)
}

/// The hyphenated lower-case form of the UUID with these bytes.
pub fn format_uuid(bytes: [u8; 16]) -> (r: String)
    ensures
        r@ == hyphenated_lower(bytes@),
{
    uuid_encode_lower(bytes)
}

impl SecureRandom {
    /// `SecureRandom.random_bytes(len = 16)`: `len` random bytes.
    pub fn random_bytes(len: Option<i64>) -> (r: Result<Vec<u8>, SecureRandomError>)
        requires
            fits_in_memory(len, 1),
        ensures
            match spec_requested_len(len) {
                Ok(n) => r matches Ok(bytes) && bytes@.len() == n,
                Err(e) => r == Err::<Vec<u8>, SecureRandomError>(e),
            },
    {
        if let Some(n) = len {
            if n == 0 {
                return Ok(Vec::new());
            }
        }
        let len = match requested_len(len) {
            Ok(len) => len,
            Err(e) => return Err(e),
        };
        let mut rng = thread_rng();
        let mut bytes = vec![0u8; len];
        fill_bytes(&mut rng, &mut bytes);
        Ok(bytes)
    }

    /// `SecureRandom.random_number(max = 0)` for an integer or absent `max`:
    /// an integer in `0..max` when `max` is positive, else a float in
    /// `[0, 1)`, which the caller draws.
    pub fn random_number(max: Option<i64>) -> (r: RandomNumber)
        ensures
            match max {
                Some(m) => if m > 0 {
                    r matches RandomNumber::Integer(n) && 0 <= n < m
                } else {
                    r == RandomNumber::UnitFloat
                },
                None => r == RandomNumber::UnitFloat,
            },
    {
        match max {
            Some(m) => {
                if m <= 0 {
                    RandomNumber::UnitFloat
                } else {
                    let mut rng = thread_rng();
                    RandomNumber::Integer(gen_range_i64(&mut rng, 0, m))
                }
            },
            None => RandomNumber::UnitFloat,
        }
    }

    /// `SecureRandom.hex(len = 16)`: `len` random bytes in lower-case
    /// hexadecimal, so twice as many characters.
    pub fn hex(len: Option<i64>) -> (r: Result<String, SecureRandomError>)
        requires
            fits_in_memory(len, 2),
        ensures
            match spec_requested_len(len) {
                Ok(n) => r matches Ok(s) && exists|bytes: Seq<u8>|
                    bytes.len() == n && s@ == hex_lower(bytes),
                Err(e) => r == Err::<String, SecureRandomError>(e),
            },
    {
        match SecureRandom::random_bytes(len) {
            Ok(bytes) => Ok(encode_hex(bytes.as_slice())),
            Err(e) => Err(e),
        }
    }

    /// `SecureRandom.base64(len = 16)`: `len` random bytes in padded
    /// standard base64.
    pub fn base64(len: Option<i64>) -> (r: Result<String, SecureRandomError>)
        requires
            spec_requested_len(len) matches Ok(n) ==> base64_len(n as int) <= isize::MAX,
        ensures
            match spec_requested_len(len) {
                Ok(n) => r matches Ok(s) && exists|bytes: Seq<u8>|
                    bytes.len() == n && s@ == base64_standard(bytes),
                Err(e) => r == Err::<String, SecureRandomError>(e),
            },
    {
        match SecureRandom::random_bytes(len) {
            Ok(bytes) => Ok(encode_base64(bytes.as_slice())),
            Err(e) => Err(e),
        }
    }

    /// `SecureRandom.alphanumeric(len = 16)`: `len` random ASCII letters and
    /// digits.
    pub fn alphanumeric(len: Option<i64>) -> (r: Result<String, SecureRandomError>)
        requires
            fits_in_memory(len, 1),
        ensures
            match spec_requested_len(len) {
                Ok(n) => r matches Ok(s) && s@.len() == n && forall|i: int|
                    0 <= i < n ==> is_ascii_alphanumeric(#[trigger] s@[i]),
                Err(e) => r == Err::<String, SecureRandomError>(e),
            },
    {
        if let Some(n) = len {
            if n == 0 {
                return Ok(String::new());
            }
        }
        let len = match requested_len(len) {
            Ok(len) => len,
            Err(e) => return Err(e),
        };
        let mut rng = thread_rng();
        let mut string = String::new();
        let mut i: usize = 0;
        while i < len
            invariant
                i <= len,
                string@.len() == i,
                forall|j: int| 0 <= j < i ==> is_ascii_alphanumeric(#[trigger] string@[j]),
            decreases len - i,
        {
            let c = sample_alphanumeric(&mut rng);
            string_push(&mut string, c);
            i += 1;
        }
        Ok(string)
    }

    /// `SecureRandom.uuid`: a random (version 4, RFC 4122 variant) UUID in
    /// hyphenated lower-case form.
    pub fn uuid() -> (r: String)
        ensures
            r@.len() == 36,
            exists|bytes: Seq<u8>|
                bytes.len() == 16 && bytes[6] / 16 == 4 && bytes[8] / 64 == 2 && r@
                    == hyphenated_lower(bytes),
    {
        let bytes = new_v4_bytes();
        let s = format_uuid(bytes);
        proof {
            lemma_hex_lower_len(bytes@.subrange(0, 4));
            lemma_hex_lower_len(bytes@.subrange(4, 6));
            lemma_hex_lower_len(bytes@.subrange(6, 8));
            lemma_hex_lower_len(bytes@.subrange(8, 10));
            lemma_hex_lower_len(bytes@.subrange(10, 16));
        }
        s
    }
}

/// `String::push`: appends one character.
#[verifier::external_body]
fn string_push(s: &mut String, c: char)
    ensures
        final(s)@ == old(s)@.push(c),
{
    s.push(c)
}

/// Hexadecimal has two digits per byte.
pub proof fn lemma_hex_lower_len(bytes: Seq<u8>)
    ensures
        hex_lower(bytes).len() == 2 * bytes.len(),
    decreases bytes.len(),
{
    if bytes.len() > 0 {
        lemma_hex_lower_len(bytes.drop_first());
    }
}

/// Padded base64 has four digits for every started group of three bytes.
pub proof fn lemma_base64_len(bytes: Seq<u8>)
    ensures
        base64_standard(bytes).len() == base64_len(bytes.len() as int),
    decreases bytes.len(),
{
    if bytes.len() > 2 {
        lemma_base64_len(bytes.skip(3));
    }
}

/// Hexadecimal consists of the digits `0-9` and `a-f` only.
pub proof fn lemma_hex_lower_digits(bytes: Seq<u8>)
    ensures
        forall|i: int|
            0 <= i < hex_lower(bytes).len() ==> ('0' <= #[trigger] hex_lower(bytes)[i] <= '9'
                || 'a' <= hex_lower(bytes)[i] <= 'f'),
    decreases bytes.len(),
{
    lemma_hex_lower_len(bytes);
    if bytes.len() > 0 {
        lemma_hex_lower_digits(bytes.drop_first());
        lemma_hex_lower_len(bytes.drop_first());
        let b = bytes[0] as int;
        let head = seq![hex_digit(b / 16), hex_digit(b % 16)];
        assert forall|i: int| 0 <= i < hex_lower(bytes).len() implies ('0' <= #[trigger] hex_lower(
            bytes,
        )[i] <= '9' || 'a' <= hex_lower(bytes)[i] <= 'f') by {
            if i >= 2 {
                assert(hex_lower(bytes)[i] == hex_lower(bytes.drop_first())[i - 2]);
            }
        }
    }
}

} // verus!
