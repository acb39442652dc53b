//! Deterministic seed-sequence generation for ensemble runs.

use vstd::prelude::*;

verus! {

/// The seed at position `i` of a sequence starting at `base`: consecutive
/// integers with wrapping (modular) addition on the 64-bit width.
pub open spec fn seed_at(base: u64, i: int) -> u64 {
    ((base + i) % 0x1_0000_0000_0000_0000) as u64
}

/// Relies on `rand::rngs::StdRng::from_entropy` and `rand::Rng::gen`:
/// one integer drawn from an OS-entropy-seeded generator. Nothing can be
/// promised of its value.
#[verifier::external_body]
fn random_u64() -> u64 {
    let mut rng: rand::rngs::StdRng = rand::SeedableRng::from_entropy();
    rand::Rng::gen::<u64>(&mut rng)
}

/// Generate a deterministic sequence of seeds for an ensemble run.
///
/// If `count` is 0, the sequence is empty and the base defaults to the
/// supplied base or 0. Otherwise the seeds are the `count` consecutive
/// integers from the base (wrapping on overflow); when no base is supplied
/// one is drawn from OS entropy, so each such invocation may differ.
pub fn generate_seeds(base_seed: Option<u64>, count: usize) -> (r: (u64, Vec<u64>))
    ensures
        r.1@.len() == count,
        forall|i: int| 0 <= i < count ==> r.1@[i] == seed_at(r.0, i),
        count == 0 ==> r.0 == (if base_seed is Some {
            base_seed->0
        } else {
            0u64
        }),
        count > 0 && base_seed is Some ==> r.0 == base_seed->0,
{
    if count == 0 {
        let base: u64 = match base_seed {
            Some(s) => s,
            None => 0,
        };
        return (base, Vec::new());
    }
    let base: u64 = match base_seed {
        Some(s) => s,
        None => random_u64(),
    };
    let mut seeds: Vec<u64> = Vec::new();
    let mut i: usize = 0;
    while i < count
        invariant
            i <= count,
            seeds@.len() == i,
            forall|j: int| 0 <= j < i ==> seeds@[j] == seed_at(base, j),
        decreases count - i,
    {
        seeds.push(base.wrapping_add(i as u64));
        i = i + 1;
    }
    (base, seeds)
}

} // verus!
