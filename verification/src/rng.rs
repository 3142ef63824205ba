//! The exploration engine's random source: an explicit, seedable value owned
//! by the engine instance, so that a run can be replayed from its seed.

use vstd::prelude::*;

verus! {

/// A seedable random-number source. Nothing is promised of the values it
/// yields beyond their range and their determinism: every contract in the
/// library holds whatever numbers come out.
pub struct EngineRng {
    pub state: u64,
}

/// One round of the shift generator.
pub open spec fn shift_round(x: u64) -> u64 {
    let a = x ^ (x << 13);
    let b = a ^ (a >> 7);
    b ^ (b << 17)
}

/// A random source in the state that `seed` determines: two runs from one
/// seed draw the same numbers, so a failing run can be replayed.
pub fn seeded_rng(seed: u64) -> (r: EngineRng)
    ensures
        r.state == seed | 1,
{
    // The low bit is forced on so the state is never zero, a fixed point of
    // the shift generator.
    EngineRng { state: seed | 1 }
}

/// Draws an index below `len`, advancing the source by one shift round: the
/// draw is a function of the source's state alone.
pub fn rand_index(rng: &mut EngineRng, len: usize) -> (i: usize)
    requires
        len > 0,
    ensures
        i < len,
        final(rng).state == shift_round(old(rng).state),
        i == shift_round(old(rng).state) as int % (len as int),
{
    let mut x = rng.state;
    x = x ^ (x << 13);
    x = x ^ (x >> 7);
    x = x ^ (x << 17);
    rng.state = x;
    (x % (len as u64)) as usize
}

} // verus!
