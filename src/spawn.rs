//! When a spawner places a new unit, and the jitter words for where.
use vstd::prelude::*;
use crate::anim::Species;
use crate::hash::{hash_noise_bits, noise_bits_spec};

verus! {

/// Largest plum population at which one more may still spawn.
pub const MAX_PLUM_COUNT: usize = 30;

/// Largest spider population at which one more may still spawn.
pub const MAX_SPIDER_COUNT: usize = 1000;

/// The population cap of a species.
pub open spec fn population_cap(species: Species) -> usize {
    match species {
        Species::Plum => MAX_PLUM_COUNT,
        Species::Spider => MAX_SPIDER_COUNT,
    }
}

/// The salt that keeps the two species' jitter apart.
pub open spec fn jitter_salt(species: Species) -> u32 {
    match species {
        Species::Plum => 1,
        Species::Spider => 0,
    }
}

/// Whether a spawner places a unit this tick: the player's run has started,
/// the live population is within the cap, and the spawn interval has passed
/// since the last spawn.
pub open spec fn spawn_due_spec(
    species: Species,
    live_count: usize,
    activity_started: bool,
    interval_elapsed: bool,
) -> bool {
    activity_started && live_count <= population_cap(species) && interval_elapsed
}

/// Decides whether a spawner places a unit this tick.
pub fn spawn_due(
    species: Species,
    live_count: usize,
    activity_started: bool,
    interval_elapsed: bool,
) -> (r: bool)
    ensures
        r == spawn_due_spec(species, live_count, activity_started, interval_elapsed),
{
    let cap = match species {
        Species::Plum => MAX_PLUM_COUNT,
        Species::Spider => MAX_SPIDER_COUNT,
    };
    activity_started && live_count <= cap && interval_elapsed
}

/// The noise words for the X and Z jitter of a unit spawned at `frame`.
pub fn spawn_jitter_bits(species: Species, frame: u32) -> (r: (u32, u32))
    ensures
        r == (
            noise_bits_spec(frame, 0, jitter_salt(species)),
            noise_bits_spec(frame, 1, jitter_salt(species)),
        ),
{
    let salt: u32 = match species {
        Species::Plum => 1,
        Species::Spider => 0,
    };
    (hash_noise_bits(frame, 0, salt), hash_noise_bits(frame, 1, salt))
}

} // verus!
