use charliegame::shuffle::reseed;
use rand::rngs::SmallRng;
use rand::SeedableRng;

fn playable(a: u8, b: u8) -> bool {
    a < 64 && b < 64 && !(a == 63 && b == 63) && !(a % 2 == 0 && b % 2 == 0)
}

#[test]
fn playable_pair_passes_through() {
    let mut rng = SmallRng::seed_from_u64(0);
    assert_eq!(reseed(&mut rng, 1, 2), (1, 2));
    assert_eq!(reseed(&mut rng, 63, 62), (63, 62));
    assert_eq!(reseed(&mut rng, 0, 63), (0, 63));
}

#[test]
fn winning_pair_is_replaced_by_playable_pair() {
    let mut rng = SmallRng::seed_from_u64(0);
    let (a, b) = reseed(&mut rng, 63, 63);
    assert!(playable(a, b));
}

#[test]
fn all_even_pair_is_replaced_by_playable_pair() {
    let mut rng = SmallRng::seed_from_u64(7);
    let (a, b) = reseed(&mut rng, 0, 0);
    assert!(playable(a, b));
    let (a, b) = reseed(&mut rng, 62, 44);
    assert!(playable(a, b));
}

#[test]
fn every_reseed_along_a_run_is_playable() {
    // Walk one generator through many reseeds: each output is playable,
    // whatever state the generator has reached.
    let mut rng = SmallRng::seed_from_u64(0);
    for _ in 0..200 {
        let (a, b) = reseed(&mut rng, 63, 63);
        assert!(playable(a, b));
        let (c, d) = reseed(&mut rng, 0, 0);
        assert!(playable(c, d));
    }
}

#[test]
fn fixed_seed_means_fixed_draws() {
    // Determinism across power cycles is a design property: the same
    // seed gives the same replacement pair.
    let mut rng1 = SmallRng::seed_from_u64(0);
    let mut rng2 = SmallRng::seed_from_u64(0);
    assert_eq!(reseed(&mut rng1, 63, 63), reseed(&mut rng2, 63, 63));
}
