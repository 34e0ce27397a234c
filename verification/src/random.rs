//! The seeds of a duel's random sequence.
use vstd::prelude::*;

use crate::bytes::{read_u32, u32_at};

verus! {

/// The number of 32-bit seeds a duel uses.
pub const SEED_COUNT: usize = 8;

/// The seed a duel uses.
#[derive(Clone, Copy, Debug)]
pub enum DuelSeed {
    /// Random seeds.
    Random,
    /// One number, repeated as every seed.
    Single(u32),
    /// Every seed given.
    Complicated([u32; SEED_COUNT]),
}

/// `rand::random::<u32>()`: a number from the thread's random generator. Nothing is
/// stated of it.
#[verifier::external_body]
fn random_u32() -> u32 {
    rand::random::<u32>()
}

impl DuelSeed {
    /// The seed sequence a duel starts its random generator with: random numbers for
    /// `Random`, the number repeated for `Single`, the given seeds for `Complicated`.
    pub fn seed_sequence(&self) -> (r: [u32; SEED_COUNT])
        ensures
            r@.len() == SEED_COUNT,
            self matches DuelSeed::Single(s) ==> forall|i: int| 0 <= i < SEED_COUNT ==> r@[i] == s,
            self matches DuelSeed::Complicated(a) ==> r@ == a@,
    {
        match *self {
            DuelSeed::Random => [
                random_u32(),
                random_u32(),
                random_u32(),
                random_u32(),
                random_u32(),
                random_u32(),
                random_u32(),
                random_u32(),
            ],
            DuelSeed::Single(s) => [s, s, s, s, s, s, s, s],
            DuelSeed::Complicated(a) => a,
        }
    }
}

/// Seed `i` spelled by the bytes `b`: the `i`-th whole group of four bytes, low byte
/// first, or 0 where the bytes run out.
pub open spec fn seed_word(b: Seq<u8>, i: int) -> u32 {
    if 4 * i + 4 <= b.len() {
        u32_at(b, 4 * i)
    } else {
        0
    }
}

/// The seeds spelled by bytes.
pub open spec fn seeds_of_bytes(b: Seq<u8>) -> Seq<u32> {
    Seq::new(SEED_COUNT as nat, |i: int| seed_word(b, i))
}

fn word_at(b: &[u8], i: usize) -> (r: u32)
    requires
        i < SEED_COUNT,
    ensures
        r == seed_word(b@, i as int),
{
    if b.len() >= 4 && i <= (b.len() - 4) / 4 {
        read_u32(b, 4 * i)
    } else {
        0
    }
}

/// The seeds that bytes spell: each whole group of four bytes, low byte first, is a
/// seed; bytes past the eighth group or short of a group are ignored, and seeds with
/// no bytes are 0.
pub fn seed_from_bytes(b: &[u8]) -> (r: [u32; SEED_COUNT])
    ensures
        r@ == seeds_of_bytes(b@),
{
    let r = [
        word_at(b, 0),
        word_at(b, 1),
        word_at(b, 2),
        word_at(b, 3),
        word_at(b, 4),
        word_at(b, 5),
        word_at(b, 6),
        word_at(b, 7),
    ];
    assert(r@ =~= seeds_of_bytes(b@));
    r
}

} // verus!
