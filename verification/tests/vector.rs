use lazr::direction::{Angle, Projection};
use lazr::vector::Vector;

#[test]
fn scalar_multiplication_scales_every_component() {
    assert_eq!(Vector::new([1.0, 2.0]) * 3.0, Vector::new([3.0, 6.0]));
}

#[test]
fn vectors_of_integers_add_component_by_component() {
    assert_eq!(Vector::new([1, 2]) + Vector::new([3, 4]), Vector::new([4, 6]));
}

#[test]
fn unit_of_a_right_angle() {
    assert_eq!(Vector::unit(Angle::right()), Vector::new([Projection::Zero, Projection::One]));
}

#[test]
fn unit_is_cosine_then_sine() {
    for octants in 0..8 {
        let angle = Angle::from_octants(octants);
        let unit = Vector::unit(angle);
        assert_eq!(unit[0], angle.cos());
        assert_eq!(unit[1], angle.sin());
    }
}

#[test]
fn components_are_read_by_position() {
    let v = Vector::new([10u8, 20, 30]);
    assert_eq!(v[0], 10);
    assert_eq!(v[1], 20);
    assert_eq!(v[2], 30);
}

#[test]
fn writing_a_component_leaves_the_others() {
    let mut v = Vector::new([10u8, 20, 30]);
    v[1] = 21;
    assert_eq!(v, Vector::new([10, 21, 30]));
}

#[test]
fn a_vector_of_no_components() {
    let empty: Vector<i32, 0> = Vector::new([]);
    assert_eq!(empty + 1, Vector::new([]));
    assert_eq!(empty + empty, empty);
}

#[test]
fn scalar_operators_on_integers() {
    let v = Vector::new([7i32, -7, 0]);
    assert_eq!(v + 2, Vector::new([9, -5, 2]));
    assert_eq!(v - 2, Vector::new([5, -9, -2]));
    assert_eq!(v * 2, Vector::new([14, -14, 0]));
    assert_eq!(v / 2, Vector::new([3, -3, 0]));
    assert_eq!(v % 4, Vector::new([3, -3, 0]));
}

#[test]
fn scalar_operators_change_the_component_type() {
    let words = Vector::new([String::from("a"), String::from("b")]);
    assert_eq!(words + "c", Vector::new([String::from("ac"), String::from("bc")]));
}

#[test]
fn scalar_operators_on_floats() {
    let v = Vector::new([1.5f32, -3.0]);
    assert_eq!(v + 0.5, Vector::new([2.0, -2.5]));
    assert_eq!(v - 0.5, Vector::new([1.0, -3.5]));
    assert_eq!(v / 2.0, Vector::new([0.75, -1.5]));
    assert_eq!(v % 1.0, Vector::new([0.5, -0.0]));
}

#[test]
fn vectors_of_vectors_take_a_scalar() {
    let rows = Vector::new([Vector::new([1u16, 2]), Vector::new([3, 4])]);
    assert_eq!(rows * 10, Vector::new([Vector::new([10, 20]), Vector::new([30, 40])]));
}

#[test]
fn componentwise_operators_on_signed_integers() {
    let a = Vector::new([7i64, -7, 9]);
    let b = Vector::new([2i64, 2, -4]);
    assert_eq!(a + b, Vector::new([9, -5, 5]));
    assert_eq!(a - b, Vector::new([5, -9, 13]));
    assert_eq!(a * b, Vector::new([14, -14, -36]));
    assert_eq!(a / b, Vector::new([3, -3, -2]));
    assert_eq!(a % b, Vector::new([1, -1, 1]));
}

#[test]
fn componentwise_operators_on_unsigned_integers() {
    let a = Vector::new([200u8, 7]);
    let b = Vector::new([55u8, 2]);
    assert_eq!(a + b, Vector::new([255, 9]));
    assert_eq!(a - b, Vector::new([145, 5]));
    assert_eq!(Vector::new([15u8, 7]) * Vector::new([17u8, 2]), Vector::new([255, 14]));
    assert_eq!(a / b, Vector::new([3, 3]));
    assert_eq!(a % b, Vector::new([35, 1]));
}

#[test]
fn componentwise_addition_on_every_integer_type() {
    assert_eq!(Vector::new([1u8]) + Vector::new([2u8]), Vector::new([3u8]));
    assert_eq!(Vector::new([1u16]) + Vector::new([2u16]), Vector::new([3u16]));
    assert_eq!(Vector::new([1u32]) + Vector::new([2u32]), Vector::new([3u32]));
    assert_eq!(Vector::new([1u64]) + Vector::new([2u64]), Vector::new([3u64]));
    assert_eq!(Vector::new([1u128]) + Vector::new([2u128]), Vector::new([3u128]));
    assert_eq!(Vector::new([1usize]) + Vector::new([2usize]), Vector::new([3usize]));
    assert_eq!(Vector::new([1i8]) + Vector::new([-2i8]), Vector::new([-1i8]));
    assert_eq!(Vector::new([1i16]) + Vector::new([-2i16]), Vector::new([-1i16]));
    assert_eq!(Vector::new([1i32]) + Vector::new([-2i32]), Vector::new([-1i32]));
    assert_eq!(Vector::new([1i64]) + Vector::new([-2i64]), Vector::new([-1i64]));
    assert_eq!(Vector::new([1i128]) + Vector::new([-2i128]), Vector::new([-1i128]));
    assert_eq!(Vector::new([1isize]) + Vector::new([-2isize]), Vector::new([-1isize]));
}

#[test]
fn negation_negates_every_component() {
    assert_eq!(-Vector::new([1i32, -2, 0]), Vector::new([-1, 2, 0]));
    assert_eq!(-Vector::new([1.5f64, -2.0]), Vector::new([-1.5, 2.0]));
}

#[test]
fn complement_of_every_component() {
    assert_eq!(!Vector::new([true, false]), Vector::new([false, true]));
    assert_eq!(!Vector::new([0u8, 0xf0]), Vector::new([0xff, 0x0f]));
}

#[test]
fn vectors_are_equal_when_their_components_are() {
    assert_eq!(Vector::new([1, 2]), Vector::new([1, 2]));
    assert_ne!(Vector::new([1, 2]), Vector::new([2, 1]));
}
