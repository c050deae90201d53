use std::collections::hash_map::DefaultHasher;
use std::hash::Hash;
use std::hash::Hasher;
use vstd::prelude::*;
use vstd::std_specs::hash::DefaultHasherAdditionalSpecFns;

verus! {

/// The byte strings that hashing the text `text` hands to a hasher, in the
/// order in which it writes them.
pub uninterp spec fn text_hash_writes(text: Seq<char>) -> Seq<Seq<u8>>;

/// Feeds a text to a hasher, by `Hash::hash` of `str`. What the hasher is
/// given is believed to depend on the text alone, and to follow what it was
/// given before.
#[verifier::external_body]
fn hash_text(text: &str, hasher: &mut DefaultHasher)
    ensures
        final(hasher)@ == old(hasher)@ + text_hash_writes(text@),
{
    text.hash(hasher);
}

/// The seed that a text stands for: the digest that a fresh default hasher
/// gives after the text was fed to it.
pub open spec fn text_seed(text: Seq<char>) -> u64 {
    DefaultHasher::spec_finish(text_hash_writes(text))
}

/// The seed that a signed number stands for: the number itself where it is
/// not negative, and 2^64 more than it where it is.
pub open spec fn signed_seed(number: int) -> int {
    if number >= 0 {
        number
    } else {
        number + 0x1_0000_0000_0000_0000
    }
}

/// Hashes a text to a seed.
fn seed_of_text(text: &str) -> (value: u64)
    ensures
        value == text_seed(text@),
{
    let mut hasher = DefaultHasher::new();
    hash_text(text, &mut hasher);
    assert(hasher@ =~= text_hash_writes(text@));
    hasher.finish()
}

/// A value that can seed the random number generator.
pub trait Seed: Sized {
    /// The seed that the value stands for.
    spec fn seed_value(self) -> u64;

    /// Converts the value to its seed.
    fn to_value(self) -> (value: u64)
        ensures
            value == self.seed_value(),
    ;
}

impl Seed for i64 {
    open spec fn seed_value(self) -> u64 {
        signed_seed(self as int) as u64
    }

    fn to_value(self) -> (value: u64) {
        let value = self as u64;
        assert(self >= 0 ==> value == self) by (bit_vector)
            requires
                value == self as u64,
        ;
        assert(self < 0 ==> value == self + 0x1_0000_0000_0000_0000) by (bit_vector)
            requires
                value == self as u64,
        ;
        value
    }
}

impl Seed for i32 {
    open spec fn seed_value(self) -> u64 {
        signed_seed(self as int) as u64
    }

    fn to_value(self) -> (value: u64) {
        let value = self as u64;
        assert(self >= 0 ==> value == self) by (bit_vector)
            requires
                value == self as u64,
        ;
        assert(self < 0 ==> value == self + 0x1_0000_0000_0000_0000) by (bit_vector)
            requires
                value == self as u64,
        ;
        value
    }
}

impl Seed for u64 {
    open spec fn seed_value(self) -> u64 {
        self
    }

    fn to_value(self) -> (value: u64) {
        self
    }
}

impl Seed for u32 {
    open spec fn seed_value(self) -> u64 {
        self as u64
    }

    fn to_value(self) -> (value: u64) {
        self as u64
    }
}

impl Seed for String {
    open spec fn seed_value(self) -> u64 {
        text_seed(self@)
    }

    fn to_value(self) -> (value: u64) {
        seed_of_text(self.as_str())
    }
}

impl Seed for &String {
    open spec fn seed_value(self) -> u64 {
        text_seed(self@)
    }

    fn to_value(self) -> (value: u64) {
        seed_of_text(self.as_str())
    }
}

impl Seed for &str {
    open spec fn seed_value(self) -> u64 {
        text_seed(self@)
    }

    fn to_value(self) -> (value: u64) {
        seed_of_text(self)
    }
}

} // verus!
