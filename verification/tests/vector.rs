use std::ops::{Add, AddAssign, Div, DivAssign, Mul, MulAssign, Neg, Rem, RemAssign, Sub, SubAssign};

use stellar_engine::math::{Ratio, Vector2, VectorItem};

fn item_sum<T: VectorItem>(a: T, b: T) -> T {
    a + b
}

#[test]
fn new_keeps_the_components() {
    let v = Vector2::new(3i32, -4i32);
    assert_eq!(v.x, 3);
    assert_eq!(v.y, -4);
}

#[test]
fn default_vector_is_zero() {
    let v: Vector2<i16> = Vector2::default();
    assert_eq!(v, Vector2::new(0, 0));
}

#[test]
fn length_squared_is_the_sum_of_the_squares() {
    assert_eq!(Vector2::new(3i32, -4i32).length_squared(), 25);
    assert_eq!(Vector2::new(0u8, 15u8).length_squared(), 225);
    assert_eq!(Vector2::new(-7i64, 0i64).length_squared(), 49);
    assert_eq!(Vector2::new(0u64, 0u64).length_squared(), 0);
    assert_eq!(Vector2::new(8i8, 7i8).length_squared(), 113);
}

#[test]
fn every_integer_type_is_an_item() {
    assert_eq!(item_sum(1i8, 2i8), 3);
    assert_eq!(item_sum(1i16, 2i16), 3);
    assert_eq!(item_sum(1i32, 2i32), 3);
    assert_eq!(item_sum(1i64, 2i64), 3);
    assert_eq!(item_sum(1u8, 2u8), 3);
    assert_eq!(item_sum(1u16, 2u16), 3);
    assert_eq!(item_sum(1u32, 2u32), 3);
    assert_eq!(item_sum(1u64, 2u64), 3);
}

#[test]
fn vectors_add_and_subtract_by_component() {
    let a = Vector2::new(10i32, -20i32);
    let b = Vector2::new(3i32, 4i32);
    assert_eq!(a + b, Vector2::new(13, -16));
    assert_eq!(a - b, Vector2::new(7, -24));
    assert_eq!(a.add(b), Vector2::new(13, -16));
    assert_eq!(a.sub(b), Vector2::new(7, -24));
}

#[test]
fn vectors_scale_by_a_scalar() {
    let a = Vector2::new(10i32, -21i32);
    assert_eq!(a * 3, Vector2::new(30, -63));
    assert_eq!(a / 4, Vector2::new(2, -5));
    assert_eq!(a % 4, Vector2::new(2, -1));
    assert_eq!(a.mul(3), Vector2::new(30, -63));
    assert_eq!(a.div(4), Vector2::new(2, -5));
    assert_eq!(a.rem(4), Vector2::new(2, -1));
}

#[test]
fn unsigned_vectors_divide_and_leave_remainders() {
    let a = Vector2::new(17u16, 4u16);
    assert_eq!(a / 5, Vector2::new(3, 0));
    assert_eq!(a % 5, Vector2::new(2, 4));
}

#[test]
fn negation_negates_both_components() {
    assert_eq!(-Vector2::new(5i64, -6i64), Vector2::new(-5, 6));
    assert_eq!(Vector2::new(0i8, 127i8).neg(), Vector2::new(0, -127));
}

#[test]
fn assigning_operators_change_the_vector_in_place() {
    let mut v = Vector2::new(10i32, 20i32);
    v += Vector2::new(1, 2);
    assert_eq!(v, Vector2::new(11, 22));
    v -= Vector2::new(10, 10);
    assert_eq!(v, Vector2::new(1, 12));
    v *= 7;
    assert_eq!(v, Vector2::new(7, 84));
    v /= 2;
    assert_eq!(v, Vector2::new(3, 42));
    v %= 4;
    assert_eq!(v, Vector2::new(3, 2));
    v.add_assign(Vector2::new(1, 1));
    v.sub_assign(Vector2::new(0, 1));
    v.mul_assign(5);
    v.div_assign(3);
    v.rem_assign(4);
    assert_eq!(v, Vector2::new(2, 3));
}

#[test]
fn ratio_keeps_numerator_and_denominator() {
    let r = Ratio::new(-3, 4);
    assert_eq!(r.num, -3);
    assert_eq!(r.den, 4);
    assert_eq!(r, Ratio { num: -3, den: 4 });
    assert_ne!(r, Ratio { num: -6, den: 8 });
}
