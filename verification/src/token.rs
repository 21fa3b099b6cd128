//! Correlation tokens.
//!
//! A token is the eight bytes of a number drawn from a small pseudo-random
//! generator. The device has no hardware source of entropy, so the generator
//! is seeded with the uptime clock the first time a token is asked for and
//! then gives its successive values. That is good enough to tell responses
//! apart and is no secret.
//!
//! Two tokens are equal only where the generator gives the same value twice.
//! If its values are taken to be evenly spread over all numbers of sixty-four
//! bits, the chance that any two of ten thousand tokens are equal is below one
//! in a hundred billion. Nothing here proves the spread; a collision costs one
//! read its response and no more, since the read then runs into its deadline.

use nanorand::{Rng, WyRand};
use vstd::bytes::*;
use vstd::endian::{endianness, Endian};
use vstd::prelude::*;

verus! {

/// Every token that the generator makes has this many bytes.
pub const TOKEN_LENGTH: usize = 8;

/// `nanorand::WyRand`, carried as it is: nothing inside it is looked at here.
#[verifier::external_type_specification]
#[verifier::external_body]
pub struct ExWyRand(WyRand);

/// The bytes of `value` in the byte order of the machine.
pub open spec fn native_bytes(value: u64) -> Seq<u8> {
    match endianness() {
        Endian::Little => spec_u64_to_le_bytes(value),
        Endian::Big => spec_u64_to_le_bytes(value).reverse(),
    }
}

/// `u64::to_ne_bytes`: the eight bytes of the number as they lie in memory,
/// lowest byte first on a little-endian machine, highest byte first on a
/// big-endian one.
#[verifier::external_body]
fn to_native_bytes(value: u64) -> (bytes: [u8; 8])
    ensures
        bytes@ == native_bytes(value),
{
    value.to_ne_bytes()
}

/// `WyRand::new_seed`: a generator that starts from `seed`. Nothing is claimed
/// of it.
#[verifier::external_body]
fn seeded_generator(seed: u64) -> WyRand {
    WyRand::new_seed(seed)
}

/// `Rng::generate::<u64>` on a `WyRand`: the generator's next value. Nothing is
/// claimed of the value.
#[verifier::external_body]
fn next_value(generator: &mut WyRand) -> u64 {
    generator.generate::<u64>()
}

/// `embassy_time::Instant::now().as_ticks()`: the ticks of the uptime clock.
/// Nothing is claimed of the reading.
#[verifier::external_body]
fn uptime_ticks() -> u64 {
    embassy_time::Instant::now().as_ticks()
}

/// The token that stands for a drawn value: its eight bytes in the byte order
/// of the machine.
pub fn token_from_value(value: u64) -> (token: Vec<u8>)
    ensures
        token@ == native_bytes(value),
        token@.len() == TOKEN_LENGTH,
{
    let bytes = to_native_bytes(value);
    let mut token: Vec<u8> = Vec::new();
    let mut i: usize = 0;
    while i < 8
        invariant
            i <= 8,
            token@ == bytes@.subrange(0, i as int),
        decreases 8 - i,
    {
        token.push(bytes[i]);
        i += 1;
        assert(token@ =~= bytes@.subrange(0, i as int));
    }
    assert(token@ =~= bytes@);
    token
}

/// The source of correlation tokens of one client.
pub struct TokenGenerator {
    generator: Option<WyRand>,
}

impl TokenGenerator {
    /// Whether the generator has been given its seed.
    pub closed spec fn is_seeded(&self) -> bool {
        self.generator is Some
    }

    /// A generator that takes its seed from the uptime clock when the first
    /// token is asked for.
    pub fn new() -> (fresh: TokenGenerator)
        ensures
            !fresh.is_seeded(),
    {
        TokenGenerator { generator: None }
    }

    /// A generator that starts from the given seed and never reads the clock.
    /// Two generators with the same seed give the same tokens.
    pub fn with_seed(seed: u64) -> (fresh: TokenGenerator)
        ensures
            fresh.is_seeded(),
    {
        TokenGenerator { generator: Some(seeded_generator(seed)) }
    }

    /// Makes the next token. Never fails and never waits.
    ///
    /// The token is the eight bytes of the value that the generator gives
    /// next; which value that is depends on the seed and so, in the end, on the
    /// clock.
    pub fn create_token(&mut self) -> (token: Vec<u8>)
        ensures
            token@.len() == TOKEN_LENGTH,
            exists|value: u64| token@ == #[trigger] native_bytes(value),
            final(self).is_seeded(),
    {
        let mut generator = match self.generator.take() {
            Some(generator) => generator,
            None => seeded_generator(uptime_ticks()),
        };
        let value = next_value(&mut generator);
        self.generator = Some(generator);
        token_from_value(value)
    }
}

/// Two tokens are equal exactly when they stand for the same drawn value, so a
/// generator repeats a token only where it repeats a value.
pub proof fn lemma_token_identifies_value(first: u64, second: u64)
    ensures
        native_bytes(first).len() == TOKEN_LENGTH,
        native_bytes(first) == native_bytes(second) <==> first == second,
{
    lemma_auto_spec_u64_to_from_le_bytes();
    let a = spec_u64_to_le_bytes(first);
    let b = spec_u64_to_le_bytes(second);
    if a.reverse() == b.reverse() {
        assert forall|i: int| 0 <= i < 8 implies a[i] == b[i] by {
            assert(a.reverse()[7 - i] == b.reverse()[7 - i]);
        }
        assert(a =~= b);
    }
    if a == b {
        assert(spec_u64_from_le_bytes(a) == spec_u64_from_le_bytes(b));
    }
}

} // verus!
