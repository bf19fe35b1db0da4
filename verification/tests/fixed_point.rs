use agb_fixnum::Num;
use purple_night::number::Number;
use purple_night::vector::{IntVector2D, Rect, Vector2D};

fn fixed(raw: i32) -> Num<i32, 8> {
    Num::from_raw(raw)
}

const SAMPLES: [i32; 13] = [-70000, -4097, -1025, -256, -255, -1, 0, 1, 25, 256, 1000, 4096, 65537];

#[test]
fn new_stores_whole_units() {
    assert_eq!(Number::new(1).to_raw(), 256);
    assert_eq!(Number::new(-3).to_raw(), -768);
    assert_eq!(Number::from_raw(77).to_raw(), 77);
}

#[test]
fn floor_rounds_toward_negative_infinity() {
    assert_eq!(Number::from_raw(5 * 256 + 171).floor(), 5);
    assert_eq!(Number::from_raw(-(5 * 256 + 171)).floor(), -6);
    assert_eq!(Number::from_raw(-1).floor(), -1);
    assert_eq!(Number::from_raw(-256).floor(), -1);
    assert_eq!(Number::from_raw(255).floor(), 0);
}

#[test]
fn sum_and_difference_are_exact() {
    assert_eq!(Number::from_raw(300).plus(Number::from_raw(-45)).to_raw(), 255);
    assert_eq!(Number::from_raw(300).minus(Number::from_raw(-45)).to_raw(), 345);
    assert_eq!(Number::from_raw(300).negate().to_raw(), -300);
}

#[test]
fn product_rounds_down() {
    // 1.5 * 2.5 = 3.75
    assert_eq!(Number::from_raw(384).times(Number::from_raw(640)).to_raw(), 960);
    // -1/256 * 1/2 rounds down to -1/256
    assert_eq!(Number::from_raw(-1).times(Number::from_raw(128)).to_raw(), -1);
    assert_eq!(Number::from_raw(1).times(Number::from_raw(128)).to_raw(), 0);
}

#[test]
fn quotient_rounds_toward_zero() {
    assert_eq!(Number::new(1).over(Number::new(4)).to_raw(), 64);
    assert_eq!(Number::new(-1).over(Number::new(3)).to_raw(), -85);
    assert_eq!(Number::new(1).over_int(10).to_raw(), 25);
    assert_eq!(Number::new(-1).over_int(2).to_raw(), -128);
    assert_eq!(Number::from_raw(-7).over_int(2).to_raw(), -3);
    assert_eq!(Number::from_raw(7).over_int(-2).to_raw(), -3);
}

#[test]
fn remainder_carries_the_sign_of_the_dividend() {
    assert_eq!(Number::from_raw(1000).modulo_int(3).to_raw(), 232);
    assert_eq!(Number::from_raw(-1000).modulo_int(3).to_raw(), -232);
    assert_eq!(Number::from_raw(5).modulo_int(1).to_raw(), 5);
}

#[test]
fn absolute_value_and_sign() {
    assert_eq!(Number::from_raw(-5).abs().to_raw(), 5);
    assert_eq!(Number::from_raw(5).abs().to_raw(), 5);
    assert_eq!(Number::from_raw(-5).signum(), -1);
    assert_eq!(Number::from_raw(0).signum(), 0);
    assert_eq!(Number::from_raw(9).signum(), 1);
}

#[test]
fn scalar_operations_agree_with_the_fixed_point_library() {
    for &a in SAMPLES.iter() {
        assert_eq!(Number::from_raw(a).floor(), fixed(a).floor());
        assert_eq!(Number::from_raw(a).abs().to_raw(), fixed(a).abs().to_raw());
        assert_eq!(Number::from_raw(a).times_int(40).to_raw(), (fixed(a) * 40).to_raw());
        assert_eq!(Number::from_raw(a).over_int(64).to_raw(), (fixed(a) / 64).to_raw());
        assert_eq!(Number::from_raw(a).modulo_int(4).to_raw(), (fixed(a) % 4).to_raw());
        for &b in SAMPLES.iter() {
            assert_eq!(
                Number::from_raw(a).plus(Number::from_raw(b)).to_raw(),
                (fixed(a) + fixed(b)).to_raw()
            );
            assert_eq!(
                Number::from_raw(a).minus(Number::from_raw(b)).to_raw(),
                (fixed(a) - fixed(b)).to_raw()
            );
            assert_eq!(
                Number::from_raw(a).times(Number::from_raw(b)).to_raw(),
                (fixed(a) * fixed(b)).to_raw()
            );
            if b != 0 {
                assert_eq!(
                    Number::from_raw(a).over(Number::from_raw(b)).to_raw(),
                    (fixed(a) / fixed(b)).to_raw()
                );
            }
        }
    }
}

#[test]
fn vector_operations_agree_with_the_fixed_point_library() {
    for &x in SAMPLES.iter() {
        for &y in SAMPLES.iter() {
            let ours = Vector2D::new(Number::from_raw(x), Number::from_raw(y));
            let theirs = agb_fixnum::Vector2D::new(fixed(x), fixed(y));
            assert_eq!(ours.swap().x.to_raw(), theirs.swap().x.to_raw());
            assert_eq!(ours.manhattan_distance().to_raw(), theirs.manhattan_distance().to_raw());
            assert_eq!(ours.floor().x, theirs.floor().x);
            assert_eq!(ours.floor().y, theirs.floor().y);
            let scaled = ours.hadamard(Vector2D::from_ints(-1, 0));
            let expected = theirs.hadamard(agb_fixnum::Vector2D::new(Num::new(-1), Num::new(0)));
            assert_eq!(scaled.x.to_raw(), expected.x.to_raw());
            assert_eq!(scaled.y.to_raw(), expected.y.to_raw());
            if ours.has_magnitude() {
                assert_eq!(ours.magnitude().to_raw(), theirs.magnitude().to_raw());
                match ours.normalise() {
                    Some(unit) => {
                        let expected = theirs.normalise();
                        assert_eq!(unit.x.to_raw(), expected.x.to_raw());
                        assert_eq!(unit.y.to_raw(), expected.y.to_raw());
                    }
                    None => assert_eq!(theirs.magnitude().to_raw(), 0),
                }
            }
        }
    }
}

#[test]
fn magnitude_of_a_three_four_five_triangle() {
    let v = Vector2D::from_ints(3, 4);
    assert!(v.has_magnitude());
    assert_eq!(v.magnitude().to_raw(), 5 * 256);
}

#[test]
fn magnitude_is_the_integer_square_root_of_the_squared_sum() {
    let mut x: i32 = -1_040_000;
    while x < 1_040_000 {
        let mut y: i32 = -1_040_000;
        while y < 1_040_000 {
            let v = Vector2D::new(Number::from_raw(x), Number::from_raw(y));
            let squared = ((x as i64 * x as i64) >> 8) + ((y as i64 * y as i64) >> 8);
            assert_eq!(v.has_magnitude(), squared <= i32::MAX as i64);
            if v.has_magnitude() {
                let magnitude = v.magnitude().to_raw() as i64;
                let root = magnitude / 16;
                assert_eq!(magnitude % 16, 0);
                assert!(root >= 0);
                assert!(root * root <= squared);
                assert!(squared < (root + 1) * (root + 1));
            }
            y += 7919;
        }
        x += 6007;
    }
}

#[test]
fn magnitude_of_axis_vectors_is_exact() {
    for k in 0..=46340i32 {
        let v = Vector2D::new(Number::from_raw(0), Number::from_raw(-16 * k));
        assert_eq!(v.magnitude().to_raw(), 16 * k);
    }
    for raw in 0..16 {
        assert_eq!(Vector2D::new(Number::from_raw(raw), Number::from_raw(0)).magnitude().to_raw(), 0);
    }
    assert_eq!(Vector2D::new(Number::from_raw(16), Number::from_raw(0)).magnitude().to_raw(), 16);
    assert_eq!(Vector2D::new(Number::from_raw(31), Number::from_raw(0)).magnitude().to_raw(), 16);
    assert_eq!(Vector2D::new(Number::from_raw(32), Number::from_raw(0)).magnitude().to_raw(), 32);
}

#[test]
fn magnitude_is_not_defined_for_long_vectors() {
    assert!(Vector2D::from_ints(4095, 0).has_magnitude() == false);
    assert!(Vector2D::new(Number::from_raw(0x10_0000), Number::from_raw(0)).has_magnitude() == false);
    assert!(Vector2D::from_ints(2000, 2000).has_magnitude());
    assert_eq!(Vector2D::from_ints(4095, 0).normalise(), None);
}

#[test]
fn normalise_gives_a_unit_vector() {
    let unit = Vector2D::from_ints(4, 4).normalise().unwrap();
    assert_eq!(unit.x.to_raw(), 182);
    assert_eq!(unit.y.to_raw(), 182);
    let left = Vector2D::from_ints(-20, 0).normalise().unwrap();
    assert_eq!(left, Vector2D::from_ints(-1, 0));
}

#[test]
fn normalise_of_a_vanishing_vector_is_none() {
    assert_eq!(Vector2D::from_ints(0, 0).normalise(), None);
    assert_eq!(Vector2D::new(Number::from_raw(15), Number::from_raw(-15)).normalise(), None);
}

#[test]
fn hadamard_scales_each_axis_on_its_own() {
    let size = Vector2D::from_ints(4, 12);
    assert_eq!(size.hadamard(Vector2D::from_ints(0, 1)), Vector2D::from_ints(0, 12));
    assert_eq!(size.hadamard(Vector2D::from_ints(-1, 0)), Vector2D::from_ints(-4, 0));
    assert_eq!(size.swap(), Vector2D::from_ints(12, 4));
}

#[test]
fn manhattan_distance_adds_the_magnitudes() {
    assert_eq!(Vector2D::from_ints(3, -4).manhattan_distance(), Number::new(7));
    assert_eq!(Vector2D::from_ints(0, 0).manhattan_distance(), Number::new(0));
}

#[test]
fn vector_arithmetic() {
    let a = Vector2D::from_ints(3, -4);
    let b = Vector2D::from_ints(1, 2);
    assert_eq!(a.plus(b), Vector2D::from_ints(4, -2));
    assert_eq!(a.minus(b), Vector2D::from_ints(2, -6));
    assert_eq!(a.times_int(3), Vector2D::from_ints(9, -12));
    assert_eq!(a.over_int(2).x.to_raw(), 384);
    assert_eq!(a.over_int(2).y.to_raw(), -512);
    assert_eq!(a.times(Number::from_raw(128)).x.to_raw(), 384);
    assert_eq!(a.over(Number::new(2)).y.to_raw(), -512);
    assert_eq!(Vector2D::new(Number::from_raw(-1), Number::from_raw(511)).floor(), IntVector2D::new(-1, 1));
    assert_eq!(IntVector2D::new(2, 3).plus(IntVector2D::new(-5, 1)), IntVector2D::new(-3, 4));
    assert_eq!(IntVector2D::new(2, 3).minus(IntVector2D::new(-5, 1)), IntVector2D::new(7, 2));
    assert_eq!(IntVector2D::new(2, -3).to_fixed(), Vector2D::from_ints(2, -3));
}

#[test]
fn rectangles_that_overlap_touch() {
    let a = Rect::from_ints(0, 0, 4, 4);
    assert!(a.touches(Rect::from_ints(2, 2, 4, 4)));
    assert!(a.touches(Rect::from_ints(-10, -10, 30, 30)));
    assert!(!a.touches(Rect::from_ints(5, 0, 4, 4)));
    assert!(!a.touches(Rect::from_ints(0, -9, 4, 4)));
}

#[test]
fn rectangles_that_share_an_edge_touch() {
    let a = Rect::from_ints(0, 0, 4, 4);
    assert!(a.touches(Rect::from_ints(4, 0, 4, 4)));
    assert!(a.touches(Rect::from_ints(0, -4, 4, 4)));
    assert!(a.touches(Rect::from_ints(4, 4, 1, 1)));
    let point = Rect::from_ints(4, 2, 0, 0);
    assert!(a.touches(point));
    assert!(point.touches(a));
}
