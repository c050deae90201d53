use random_color::options::{Gamut, Luminosity, Seed};
use rand::rngs::SmallRng;
use rand::SeedableRng;
use random_color::RandomColor;

fn fresh() -> RandomColor {
    RandomColor::with_generator(SmallRng::from_entropy())
}
use std::collections::hash_map::DefaultHasher;
use std::hash::{Hash, Hasher};

fn hashed(text: &str) -> u64 {
    let mut hasher = DefaultHasher::new();
    text.hash(&mut hasher);
    hasher.finish()
}

#[test]
fn unsigned_seeds_are_their_own_value() {
    assert_eq!(42u64.to_value(), 42);
    assert_eq!(0u64.to_value(), 0);
    assert_eq!(u64::MAX.to_value(), u64::MAX);
    assert_eq!(7u32.to_value(), 7);
    assert_eq!(u32::MAX.to_value(), 4294967295);
}

#[test]
fn signed_seeds_that_are_not_negative_are_their_own_value() {
    assert_eq!(42i64.to_value(), 42);
    assert_eq!(0i64.to_value(), 0);
    assert_eq!(i64::MAX.to_value(), 9223372036854775807);
    assert_eq!(42i32.to_value(), 42);
    assert_eq!(i32::MAX.to_value(), 2147483647);
}

#[test]
fn negative_seeds_wrap_around() {
    assert_eq!((-1i64).to_value(), u64::MAX);
    assert_eq!(i64::MIN.to_value(), 9223372036854775808);
    assert_eq!((-1i32).to_value(), u64::MAX);
    assert_eq!((-5i32).to_value(), 18446744073709551611);
    assert_eq!(i32::MIN.to_value(), 18446744071562067968);
}

#[test]
fn text_seeds_are_hashed() {
    assert_eq!("A random seed".to_value(), hashed("A random seed"));
    assert_eq!("".to_value(), hashed(""));
    assert_eq!("42".to_value(), hashed("42"));
    assert_ne!("42".to_value(), 42);
    assert_ne!("a".to_value(), "b".to_value());
}

#[test]
fn owned_and_borrowed_texts_give_the_same_seed() {
    let text = String::from("A random seed");

    assert_eq!((&text).to_value(), hashed("A random seed"));
    assert_eq!(text.clone().to_value(), hashed("A random seed"));
    assert_eq!(text.as_str().to_value(), hashed("A random seed"));
}

#[test]
fn a_text_seed_gives_the_colors_of_its_hash() {
    let from_text = fresh().seed("A random seed").to_hsv_array();
    let from_string = fresh().seed(String::from("A random seed")).to_hsv_array();
    let from_hash = fresh().seed(hashed("A random seed")).to_hsv_array();

    assert_eq!(from_text, from_hash);
    assert_eq!(from_string, from_hash);
}

#[test]
fn seeds_of_every_kind_are_accepted() {
    let expected = fresh().seed(42u64).to_hex();

    assert_eq!(fresh().seed(42i64).to_hex(), expected);
    assert_eq!(fresh().seed(42i32).to_hex(), expected);
    assert_eq!(fresh().seed(42u32).to_hex(), expected);
    assert_eq!(fresh().seed(42).to_hex(), expected);
}

#[test]
fn the_same_seed_gives_the_same_sequence() {
    let mut first = fresh();
    first.seed(2024);
    let mut second = fresh();
    second.seed(2024);

    for _ in 0..50 {
        assert_eq!(first.to_hsv_array(), second.to_hsv_array());
    }
}

#[test]
fn a_seeded_instance_moves_on_with_every_color() {
    let mut rc = fresh();
    rc.hue(Gamut::Blue).luminosity(Luminosity::Light).seed(42);

    let first = rc.to_hsv_array();
    let second = rc.to_hsv_array();
    let third = rc.to_hsv_array();

    assert_eq!(first, [191, 30, 98]);
    assert_ne!(first, second);
    assert_ne!(second, third);

    rc.seed(42);
    assert_eq!(rc.to_hsv_array(), first);
    assert_eq!(rc.to_hsv_array(), second);
    assert_eq!(rc.to_hsv_array(), third);
}

#[test]
fn different_seeds_give_different_sequences() {
    let mut first = fresh();
    first.seed(1);
    let mut second = fresh();
    second.seed(2);

    let a: Vec<[u32; 3]> = (0..10).map(|_| first.to_hsv_array()).collect();
    let b: Vec<[u32; 3]> = (0..10).map(|_| second.to_hsv_array()).collect();

    assert_ne!(a, b);
}

#[test]
fn unseeded_instances_differ() {
    let mut first = fresh();
    let mut second = fresh();

    let a: Vec<[u32; 3]> = (0..10).map(|_| first.to_hsv_array()).collect();
    let b: Vec<[u32; 3]> = (0..10).map(|_| second.to_hsv_array()).collect();

    assert_ne!(a, b);
}

#[test]
fn seeding_puts_the_generator_in_the_state_of_the_seed() {
    let mut first = fresh();
    let mut second = fresh();
    assert_ne!(first.seed, second.seed);

    first.seed(7);
    second.hue(Gamut::Pink).seed(7u64);
    assert_eq!(first.seed, second.seed);

    second.seed(8);
    assert_ne!(first.seed, second.seed);

    first.seed("seven");
    second.seed(String::from("seven"));
    assert_eq!(first.seed, second.seed);
}
