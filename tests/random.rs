use terrain_generation::random::{random, RANDOM_SEED};

#[test]
fn generator_sequence_from_seed() {
    let mut state = RANDOM_SEED;
    assert_eq!(random(&mut state), 7259739503297971805);
    assert_eq!(state, 7259739503297971805);
    assert_eq!(random(&mut state), 15610065271740722454);
    assert_eq!(random(&mut state), 12960179908734345707);
}

#[test]
fn generator_is_deterministic() {
    let mut a = 42u64;
    let mut b = 42u64;
    for _ in 0..100 {
        assert_eq!(random(&mut a), random(&mut b));
    }
}

#[test]
fn generator_wraps_from_top_state() {
    let mut state = u64::MAX;
    let expected = u64::MAX.wrapping_mul(2862933555777941757).wrapping_add(3037000493);
    assert_eq!(random(&mut state), expected);
    assert_eq!(expected, 3037000493u64.wrapping_sub(2862933555777941757));
}
