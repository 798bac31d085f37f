use asteroids::common::get_rng;
use asteroids::ufo::{
    maybe_spawn, next_state, spawn_choices, spawn_from, ufo_alive, ufo_targetable, Heading,
    UfoSpawn, UfoState,
};
use rand::RngExt;

#[test]
fn one_roll_in_ten_spawns() {
    let c = UfoSpawn { state: UfoState::InViewSmall, heading: Heading::Left };
    assert_eq!(spawn_from(0, Some(c)), Some(c));
    assert_eq!(
        spawn_from(0, None),
        Some(UfoSpawn { state: UfoState::InViewLarge, heading: Heading::Right })
    );
    for roll in 1..10 {
        assert_eq!(spawn_from(roll, Some(c)), None);
    }
}

#[test]
fn only_a_hidden_saucer_whose_delay_ran_out_spawns() {
    for seed in 0..200u64 {
        assert_eq!(maybe_spawn(UfoState::Hidden, false, Some(seed)), None);
        assert_eq!(maybe_spawn(UfoState::InViewLarge, true, Some(seed)), None);
        assert_eq!(maybe_spawn(UfoState::InViewSmall, true, Some(seed)), None);
        assert_eq!(maybe_spawn(UfoState::Destroyed, true, Some(seed)), None);
    }
}

#[test]
fn spawns_are_rare_and_varied() {
    let choices = spawn_choices();
    let mut spawned = 0;
    let mut seen = Vec::new();
    for seed in 0..2000u64 {
        if let Some(c) = maybe_spawn(UfoState::Hidden, true, Some(seed)) {
            assert!(choices.contains(&c));
            spawned += 1;
            if !seen.contains(&c) {
                seen.push(c);
            }
        }
    }
    assert!(spawned > 0);
    assert!(spawned < 1000);
    assert!(seen.len() > 1);
}

#[test]
fn spawns_are_reproducible_from_a_seed() {
    for seed in 0..100u64 {
        assert_eq!(
            maybe_spawn(UfoState::Hidden, true, Some(seed)),
            maybe_spawn(UfoState::Hidden, true, Some(seed))
        );
    }
    let mut a = get_rng(Some(42));
    let mut b = get_rng(Some(42));
    for _ in 0..10 {
        assert_eq!(a.random_range(0..1_000_000u32), b.random_range(0..1_000_000u32));
    }
}

#[test]
fn saucer_phases_advance() {
    assert_eq!(next_state(UfoState::InViewLarge, true, false), UfoState::InViewLarge);
    assert_eq!(next_state(UfoState::InViewSmall, true, true), UfoState::InViewSmall);
    assert_eq!(next_state(UfoState::InViewLarge, false, false), UfoState::Hidden);
    assert_eq!(next_state(UfoState::InViewSmall, false, false), UfoState::Hidden);
    assert_eq!(next_state(UfoState::Destroyed, true, false), UfoState::Destroyed);
    assert_eq!(next_state(UfoState::Destroyed, false, true), UfoState::Hidden);
    assert_eq!(next_state(UfoState::Hidden, true, true), UfoState::Hidden);
    assert_eq!(next_state(UfoState::Hidden, false, false), UfoState::Hidden);
}

#[test]
fn saucer_life_and_targeting() {
    assert!(!ufo_alive(UfoState::Destroyed));
    assert!(ufo_alive(UfoState::Hidden));
    assert!(ufo_alive(UfoState::InViewLarge));
    assert!(ufo_targetable(UfoState::InViewLarge));
    assert!(ufo_targetable(UfoState::InViewSmall));
    assert!(!ufo_targetable(UfoState::Hidden));
    assert!(!ufo_targetable(UfoState::Destroyed));
}

#[test]
fn different_seeds_give_different_generators() {
    let mut a = get_rng(Some(1));
    let mut b = get_rng(Some(2));
    let draws_a: Vec<u32> = (0..8).map(|_| a.random_range(0..1_000_000u32)).collect();
    let draws_b: Vec<u32> = (0..8).map(|_| b.random_range(0..1_000_000u32)).collect();
    assert_ne!(draws_a, draws_b);
}
