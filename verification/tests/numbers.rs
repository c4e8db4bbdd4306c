//! Bit patterns against the numbers that they stand for.
use krusty_crap_drone::model::{
    ANGEL_BITS, BACKFLIP_BITS, DEVIL_BITS, ONE_BITS, ZERO_BITS,
};
use krusty_crap_drone::single::Single;

#[test]
fn the_special_rates_are_the_numbers_meant() {
    assert_eq!(ANGEL_BITS, 0.777f32.to_bits());
    assert_eq!(DEVIL_BITS, 0.666f32.to_bits());
    assert_eq!(BACKFLIP_BITS, 0.360_360_360f32.to_bits());
    assert_eq!(ZERO_BITS, 0.0f32.to_bits());
    assert_eq!(ONE_BITS, 1.0f32.to_bits());
}

#[test]
fn order_and_equality_are_those_of_the_numbers() {
    let numbers = [
        0.0,
        -0.0,
        1.0,
        -1.0,
        0.25,
        0.777,
        -0.777,
        1.0e-45,
        -1.0e-45,
        f32::MIN_POSITIVE,
        f32::EPSILON,
        f32::MAX,
        f32::MIN,
        f32::INFINITY,
        f32::NEG_INFINITY,
        f32::NAN,
        -f32::NAN,
    ];
    for a in numbers {
        for b in numbers {
            let (x, y) = (Single::from_bits(a.to_bits()), Single::from_bits(b.to_bits()));
            assert_eq!(x.less_than(y), a < b, "{} {}", a, b);
            assert_eq!(x.equals(y), a == b, "{} {}", a, b);
        }
    }
}
