//! Deterministic 32-bit integer hash used for spawn jitter.
use vstd::prelude::*;

verus! {

/// First multiplier applied to the `a` input of [`uhash`].
pub const HASH_MUL_A: u32 = 1597334673;

/// Multiplier applied to the `b` input of [`uhash`].
pub const HASH_MUL_B: u32 = 3812015801;

/// First avalanche multiplier.
pub const AVALANCHE_MUL_1: u32 = 0x7feb352d;

/// Second avalanche multiplier.
pub const AVALANCHE_MUL_2: u32 = 0x846ca68b;

/// Product of two 32-bit words modulo 2^32.
pub open spec fn wmul(x: u32, k: u32) -> u32 {
    ((x as nat * k as nat) % 0x1_0000_0000) as u32
}

/// The avalanche sequence: xor-shift 16, multiply, xor-shift 15, multiply,
/// xor-shift 16.
pub open spec fn avalanche(x: u32) -> u32 {
    let x1 = x ^ (x >> 16u32);
    let x2 = wmul(x1, AVALANCHE_MUL_1);
    let x3 = x2 ^ (x2 >> 15u32);
    let x4 = wmul(x3, AVALANCHE_MUL_2);
    x4 ^ (x4 >> 16u32)
}

/// The hash of a pair of words.
pub open spec fn uhash_spec(a: u32, b: u32) -> u32 {
    avalanche(wmul(a, HASH_MUL_A) ^ wmul(b, HASH_MUL_B))
}

/// The second hash input built from the `y` and `z` salts:
/// `(y << 11) + z`, both steps modulo 2^32.
pub open spec fn noise_key_spec(y: u32, z: u32) -> u32 {
    (((y as nat * 2048) + z as nat) % 0x1_0000_0000) as u32
}

/// The raw 32-bit noise word for `(x, y, z)`.
pub open spec fn noise_bits_spec(x: u32, y: u32, z: u32) -> u32 {
    uhash_spec(x, noise_key_spec(y, z))
}

/// Hashes two words into one.
pub fn uhash(a: u32, b: u32) -> (r: u32)
    ensures
        r == uhash_spec(a, b),
{
    let mut x: u32 = a.wrapping_mul(HASH_MUL_A) ^ b.wrapping_mul(HASH_MUL_B);
    x = x ^ (x >> 16u32);
    x = x.wrapping_mul(AVALANCHE_MUL_1);
    x = x ^ (x >> 15u32);
    x = x.wrapping_mul(AVALANCHE_MUL_2);
    x = x ^ (x >> 16u32);
    x
}

/// Builds the second hash input from two salts: `(y << 11) + z`, wrapping.
pub fn noise_key(y: u32, z: u32) -> (r: u32)
    ensures
        r == noise_key_spec(y, z),
{
    y.wrapping_mul(2048u32).wrapping_add(z)
}

/// The raw noise word for a counter `x` and two salts `y`, `z`. Mapping it
/// onto the unit interval is left to the caller.
pub fn hash_noise_bits(x: u32, y: u32, z: u32) -> (r: u32)
    ensures
        r == noise_bits_spec(x, y, z),
{
    let key = noise_key(y, z);
    uhash(x, key)
}

/// The noise word is a function of its three inputs: two evaluations on the
/// same inputs agree, whatever happened in between.
pub proof fn lemma_noise_deterministic(x: u32, y: u32, z: u32, r1: u32, r2: u32)
    requires
        r1 == noise_bits_spec(x, y, z),
        r2 == noise_bits_spec(x, y, z),
    ensures
        r1 == r2,
{
}

} // verus!
