use lazr::direction::{Angle, Direction, Projection};
use std::f32::consts::{FRAC_1_SQRT_2, FRAC_PI_4};

const DIRECTIONS: [Direction; 8] = [
    Direction::East,
    Direction::Northeast,
    Direction::North,
    Direction::Northwest,
    Direction::West,
    Direction::Southwest,
    Direction::South,
    Direction::Southeast,
];

fn value(projection: Projection) -> f32 {
    f32::from_bits(projection.to_f32_bits())
}

fn radians(angle: Angle) -> f32 {
    angle.octants() as f32 * FRAC_PI_4
}

#[test]
pub fn trig_fns() {
    for octant in 0..8 {
        let angle = Angle::from_octants(octant);
        println!("testing angle {:#?}", angle);
        assert!((value(angle.sin()) - radians(angle).sin()).abs() < 0.000001);
        assert!((value(angle.cos()) - radians(angle).cos()).abs() < 0.000001);
    }
}

#[test]
pub fn angle() {}

#[test]
fn bit_patterns_are_those_of_the_nearest_floats() {
    assert_eq!(value(Projection::NegOne), -1.0);
    assert_eq!(value(Projection::NegFrac1Sqrt2), -FRAC_1_SQRT_2);
    assert_eq!(value(Projection::Zero), 0.0);
    assert_eq!(value(Projection::Zero).to_bits(), 0);
    assert_eq!(value(Projection::Frac1Sqrt2), FRAC_1_SQRT_2);
    assert_eq!(value(Projection::One), 1.0);
    assert_eq!(Projection::Frac1Sqrt2.to_f32_bits(), 0x3f35_04f3);
    assert_eq!(Projection::NegOne.to_f32_bits(), 0xbf80_0000);
}

#[test]
fn from_octants_reduces_every_count_into_range() {
    for n in 0..=u8::MAX {
        let octants = Angle::from_octants(n).octants();
        assert!(octants < 8);
        assert_eq!(octants, n % 8);
    }
}

#[test]
fn from_octants_at_the_edges() {
    assert_eq!(Angle::from_octants(0).octants(), 0);
    assert_eq!(Angle::from_octants(7).octants(), 7);
    assert_eq!(Angle::from_octants(8).octants(), 0);
    assert_eq!(Angle::from_octants(255).octants(), 7);
}

#[test]
fn reducing_twice_changes_nothing() {
    for o in 0..=u8::MAX {
        let once = Angle::from_octants(o);
        let twice = Angle::from_octants(once.octants());
        assert_eq!(once.octants(), twice.octants());
        assert_eq!(once, twice);
    }
}

#[test]
fn named_angles() {
    assert_eq!(Angle::zero().octants(), 0);
    assert_eq!(Angle::forty_five().octants(), 1);
    assert_eq!(Angle::right().octants(), 2);
    assert_eq!(Angle::straight().octants(), 4);
    assert_eq!(Angle::right(), Angle::from_octants(2));
}

#[test]
fn from_horizontal_counts_clockwise_from_east() {
    for (octants, direction) in DIRECTIONS.iter().enumerate() {
        assert_eq!(Angle::from_horizontal(*direction).octants() as usize, octants);
    }
}

#[test]
fn rotated_from_east_inverts_from_horizontal() {
    for direction in DIRECTIONS {
        assert_eq!(Direction::rotated_from_east(Angle::from_horizontal(direction)), direction);
    }
}

#[test]
fn from_horizontal_inverts_rotated_from_east() {
    for octants in 0..8 {
        let angle = Angle::from_octants(octants);
        assert_eq!(Angle::from_horizontal(Direction::rotated_from_east(angle)), angle);
    }
}

#[test]
fn rotated_from_east_follows_the_table() {
    assert_eq!(Direction::rotated_from_east(Angle::from_octants(0)), Direction::East);
    assert_eq!(Direction::rotated_from_east(Angle::from_octants(3)), Direction::Northwest);
    assert_eq!(Direction::rotated_from_east(Angle::from_octants(7)), Direction::Southeast);
    assert_eq!(Direction::rotated_from_east(Angle::from_octants(13)), Direction::Southwest);
}

#[test]
fn between_wraps_around() {
    assert_eq!(Angle::between(Direction::Southeast, Direction::East), Angle::from_octants(1));
}

#[test]
fn between_is_the_difference_modulo_eight() {
    for (from, a) in DIRECTIONS.iter().enumerate() {
        for (to, b) in DIRECTIONS.iter().enumerate() {
            let expected = (to + 8 - from) % 8;
            assert_eq!(Angle::between(*a, *b).octants() as usize, expected);
            assert_eq!(a.angle_to(*b), Angle::between(*a, *b));
        }
    }
}

#[test]
fn angle_to_a_direction_itself_is_zero() {
    for direction in DIRECTIONS {
        assert_eq!(direction.angle_to(direction), Angle::zero());
    }
}

#[test]
fn rotated_from_north_by_a_right_angle() {
    assert_eq!(Direction::rotated_from(Direction::North, Angle::right()), Direction::West);
}

#[test]
fn rotated_from_moves_on_by_the_angle() {
    for (from, start) in DIRECTIONS.iter().enumerate() {
        for octants in 0..8u8 {
            let angle = Angle::from_octants(octants);
            let expected = DIRECTIONS[(from + octants as usize) % 8];
            assert_eq!(Direction::rotated_from(*start, angle), expected);
        }
    }
}

#[test]
fn rotated_from_by_the_zero_angle_changes_nothing() {
    for direction in DIRECTIONS {
        assert_eq!(Direction::rotated_from(direction, Angle::zero()), direction);
    }
}

#[test]
fn rotated_from_by_the_angle_to_another_gives_the_other() {
    for a in DIRECTIONS {
        for b in DIRECTIONS {
            assert_eq!(Direction::rotated_from(a, a.angle_to(b)), b);
            assert_eq!(Direction::rotated_from(a, Angle::between(a, b)), b);
        }
    }
}

#[test]
fn rotated_from_twice_is_rotated_from_by_the_sum() {
    for start in DIRECTIONS {
        for x in 0..8u8 {
            for y in 0..8u8 {
                let (first, second) = (Angle::from_octants(x), Angle::from_octants(y));
                assert_eq!(
                    Direction::rotated_from(Direction::rotated_from(start, first), second),
                    Direction::rotated_from(start, first + second)
                );
            }
        }
    }
}

#[test]
fn rotated_from_east_agrees_with_rotated_from() {
    for octants in 0..8 {
        let angle = Angle::from_octants(octants);
        assert_eq!(
            Direction::rotated_from(Direction::East, angle),
            Direction::rotated_from_east(angle)
        );
    }
}

#[test]
fn quadrants_and_quadrant() {
    let quadrants: Vec<u8> = (0..8).map(|o| Angle::from_octants(o).quadrants()).collect();
    assert_eq!(quadrants, vec![0, 0, 1, 1, 2, 2, 3, 3]);
    let quadrant: Vec<u8> = (0..8).map(|o| Angle::from_octants(o).quadrant()).collect();
    assert_eq!(quadrant, vec![1, 1, 2, 2, 3, 3, 4, 4]);
}

#[test]
fn degrees_are_forty_five_an_octant() {
    let degrees: Vec<u16> = (0..8).map(|o| Angle::from_octants(o).degrees()).collect();
    assert_eq!(degrees, vec![0, 45, 90, 135, 180, 225, 270, 315]);
}

#[test]
fn binary_degrees_keep_eight_bits() {
    let units: Vec<u8> = (0..8).map(|o| Angle::from_octants(o).binary_degrees()).collect();
    assert_eq!(units, vec![0, 64, 128, 192, 0, 64, 128, 192]);
}

#[test]
fn sine_table() {
    let sines: Vec<Projection> = (0..8).map(|o| Angle::from_octants(o).sin()).collect();
    assert_eq!(
        sines,
        vec![
            Projection::Zero,
            Projection::Frac1Sqrt2,
            Projection::One,
            Projection::Frac1Sqrt2,
            Projection::Zero,
            Projection::NegFrac1Sqrt2,
            Projection::NegOne,
            Projection::NegFrac1Sqrt2,
        ]
    );
}

#[test]
fn cosine_table() {
    let cosines: Vec<Projection> = (0..8).map(|o| Angle::from_octants(o).cos()).collect();
    assert_eq!(
        cosines,
        vec![
            Projection::One,
            Projection::Frac1Sqrt2,
            Projection::Zero,
            Projection::NegFrac1Sqrt2,
            Projection::NegOne,
            Projection::NegFrac1Sqrt2,
            Projection::Zero,
            Projection::Frac1Sqrt2,
        ]
    );
}

#[test]
fn sine_and_cosine_lie_on_the_unit_circle() {
    for octants in 0..8 {
        let angle = Angle::from_octants(octants);
        let (sin, cos) = (value(angle.sin()), value(angle.cos()));
        assert!((sin * sin + cos * cos - 1.0).abs() < 0.000001);
    }
}

#[test]
fn cosine_is_the_sine_a_quarter_turn_on() {
    for octants in 0..8 {
        let angle = Angle::from_octants(octants);
        assert_eq!(angle.cos(), (angle + Angle::right()).sin());
    }
}

#[test]
fn a_half_turn_negates_sine_and_cosine() {
    for octants in 0..8 {
        let angle = Angle::from_octants(octants);
        let turned = angle + Angle::straight();
        assert_eq!(value(turned.sin()), -value(angle.sin()));
        assert_eq!(value(turned.cos()), -value(angle.cos()));
    }
}

#[test]
fn angles_add_modulo_eight() {
    assert_eq!((Angle::from_octants(3) + Angle::from_octants(2)).octants(), 5);
    assert_eq!((Angle::from_octants(7) + Angle::from_octants(7)).octants(), 6);
    assert_eq!(Angle::straight() + Angle::straight(), Angle::zero());
}

#[test]
fn angles_subtract_modulo_eight() {
    assert_eq!((Angle::from_octants(5) - Angle::from_octants(2)).octants(), 3);
    assert_eq!((Angle::right() - Angle::straight()).octants(), 6);
    assert_eq!((Angle::zero() - Angle::forty_five()).octants(), 7);
}

#[test]
fn angles_multiply_modulo_eight() {
    assert_eq!((Angle::from_octants(3) * Angle::from_octants(2)).octants(), 6);
    assert_eq!((Angle::from_octants(7) * Angle::from_octants(7)).octants(), 1);
    assert_eq!((Angle::straight() * Angle::right()).octants(), 0);
}

#[test]
fn angles_divide_and_leave_remainders() {
    assert_eq!((Angle::from_octants(7) / Angle::right()).octants(), 3);
    assert_eq!((Angle::from_octants(7) % Angle::right()).octants(), 1);
    assert_eq!((Angle::from_octants(2) / Angle::from_octants(5)).octants(), 0);
    assert_eq!((Angle::from_octants(2) % Angle::from_octants(5)).octants(), 2);
}

#[test]
fn angles_are_ordered_by_octants() {
    assert!(Angle::zero() < Angle::forty_five());
    assert!(Angle::right() < Angle::straight());
    assert!(Angle::from_octants(9) < Angle::right());
}
