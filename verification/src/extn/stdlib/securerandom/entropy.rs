//! Randomness from `rand` and `uuid`. Every function here makes one call
//! into an outside crate and is trusted; what it returns depends on chance,
//! so its contract states only what holds of every outcome.

use rand::distributions::Alphanumeric;
use rand::rngs::ThreadRng;
use rand::{Rng, RngCore};
use uuid::Uuid;
use vstd::prelude::*;

verus! {

#[verifier::external_type_specification]
#[verifier::external_body]
pub struct ExThreadRng(ThreadRng);

/// Whether `c` is an ASCII letter or digit.
pub open spec fn is_ascii_alphanumeric(c: char) -> bool {
    ||| 'A' <= c && c <= 'Z'
    ||| 'a' <= c && c <= 'z'
    ||| '0' <= c && c <= '9'
}

/// `rand::thread_rng`: the calling thread's generator, seeded by the system.
#[verifier::external_body]
pub(crate) fn thread_rng() -> ThreadRng {
    rand::thread_rng()
}

/// `RngCore::fill_bytes`: overwrites every byte of `dest` with random bytes;
/// the length stays. Which bytes come out is left unsaid: it rests on chance.
#[verifier::external_body]
pub(crate) fn fill_bytes(rng: &mut ThreadRng, dest: &mut Vec<u8>)
    ensures
        final(dest)@.len() == old(dest)@.len(),
{
    rng.fill_bytes(dest.as_mut_slice())
}

/// `Rng::gen_range` over `i64`: a value in `low..high`. The crate panics when
/// the range is empty, so that is excluded. Which value comes out is left
/// unsaid: it rests on chance.
#[verifier::external_body]
pub(crate) fn gen_range_i64(rng: &mut ThreadRng, low: i64, high: i64) -> (r: i64)
    requires
        low < high,
    ensures
        low <= r < high,
{
    rng.gen_range(low, high)
}

/// `Rng::sample` of the `Alphanumeric` distribution: one of the 62 ASCII
/// letters and digits. Which one comes out is left unsaid: it rests on chance.
#[verifier::external_body]
pub(crate) fn sample_alphanumeric(rng: &mut ThreadRng) -> (c: char)
    ensures
        is_ascii_alphanumeric(c),
{
    rng.sample(Alphanumeric)
}

/// `Uuid::new_v4`, as its 16 bytes: random bytes with the version nibble set
/// to 4 (random) and the variant bits set to `10` (RFC 4122). The other bits
/// are left unsaid: they rest on chance.
#[verifier::external_body]
pub(crate) fn new_v4_bytes() -> (r: [u8; 16])
    ensures
        r@[6] / 16 == 4,
        r@[8] / 64 == 2,
{
    *Uuid::new_v4().as_bytes()
}

} // verus!
