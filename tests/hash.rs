use eldritch_core::hash::{hash_noise_bits, noise_key, uhash};
use eldritch_core::spawn::spawn_jitter_bits;
use eldritch_core::anim::Species;

#[test]
fn uhash_zero_and_one_differ() {
    let a = uhash(0, 0);
    let b = uhash(1, 0);
    assert_ne!(a, b);
    assert!((a as u64) < (1u64 << 32));
    assert!((b as u64) < (1u64 << 32));
}

#[test]
fn uhash_known_values() {
    assert_eq!(uhash(0, 0), 0);
    assert_eq!(uhash(1, 0), 579038751);
    assert_eq!(uhash(0, 1), 4040494424);
    assert_eq!(uhash(100, 0), 14438155);
}

#[test]
fn noise_key_shifts_and_adds() {
    assert_eq!(noise_key(3, 5), (3 << 11) + 5);
    assert_eq!(noise_key(1, 1), 2049);
    assert_eq!(noise_key(0xffff_ffff, 3), 0xffff_ffffu32.wrapping_shl(11).wrapping_add(3));
}

#[test]
fn hash_noise_bits_uses_key() {
    assert_eq!(hash_noise_bits(7, 3, 5), 1324020496);
    assert_eq!(hash_noise_bits(7, 3, 5), uhash(7, (3 << 11) + 5));
    assert_eq!(hash_noise_bits(5, 0xffff_ffff, 3), 497556182);
}

#[test]
fn hash_noise_bits_repeats() {
    for x in 0..50u32 {
        for y in 0..3u32 {
            assert_eq!(hash_noise_bits(x, y, 1), hash_noise_bits(x, y, 1));
        }
    }
}

#[test]
fn spawn_jitter_salts_per_species() {
    assert_eq!(spawn_jitter_bits(Species::Spider, 100), (14438155, 3234811698));
    assert_eq!(spawn_jitter_bits(Species::Plum, 100), (478300462, 555168674));
}
