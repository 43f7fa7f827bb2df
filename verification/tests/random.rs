use bullet_arena::RandomSource;
use rand::rngs::SmallRng;
use rand::{RngCore, SeedableRng};

#[test]
fn source_yields_the_values_of_the_seeded_generator() {
    let mut reference = SmallRng::seed_from_u64(6);
    let mut source = RandomSource::new(6);
    for _ in 0..1000 {
        assert_eq!(source.next_u32(), reference.next_u32());
    }
}

#[test]
fn sources_of_one_seed_yield_the_same_values() {
    let mut a = RandomSource::new(42);
    let mut b = RandomSource::new(42);
    for _ in 0..1000 {
        assert_eq!(a.next_u32(), b.next_u32());
    }
}

#[test]
fn sources_of_different_seeds_differ() {
    let mut a = RandomSource::new(1);
    let mut b = RandomSource::new(2);
    let first: Vec<u32> = (0..16).map(|_| a.next_u32()).collect();
    let second: Vec<u32> = (0..16).map(|_| b.next_u32()).collect();
    assert_ne!(first, second);
}

#[test]
fn each_draw_moves_the_source_on() {
    let mut source = RandomSource::new(6);
    let values: Vec<u32> = (0..16).map(|_| source.next_u32()).collect();
    assert!(values.iter().any(|v| *v != values[0]));
}
