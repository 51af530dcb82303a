//! Eight-way compass directions and angles counted in octants.
//!
//! An [`Angle`] is a whole number of octants (eighths of a full turn) kept
//! reduced modulo 8, so every rotation of a [`Direction`] is exact.

use vstd::prelude::*;
use vstd::std_specs::ops::AddSpec;

verus! {

/// One of the eight compass directions, listed clockwise starting at East.
#[derive(Debug, Clone, Copy, PartialEq, Eq, Structural)]
pub enum Direction {
    East,
    Northeast,
    North,
    Northwest,
    West,
    Southwest,
    South,
    Southeast,
}

impl Direction {
    /// The number of octants that lie between East and this direction, going
    /// clockwise: 0 for East up to 7 for Southeast.
    pub open spec fn clockwise_from_east(self) -> int {
        match self {
            Direction::East => 0,
            Direction::Northeast => 1,
            Direction::North => 2,
            Direction::Northwest => 3,
            Direction::West => 4,
            Direction::Southwest => 5,
            Direction::South => 6,
            Direction::Southeast => 7,
        }
    }

    /// What [`Direction::angle_to`] computes.
    pub open spec fn spec_angle_to(&self, other: Self) -> Angle {
        Angle::spec_between(*self, other)
    }

    /// The clockwise angle from this direction to `other`.
    #[verifier::when_used_as_spec(spec_angle_to)]
    pub fn angle_to(&self, other: Self) -> (angle: Angle)
        ensures
            angle == self.spec_angle_to(other),
            angle.octants() == (other.clockwise_from_east() - self.clockwise_from_east()) % 8,
    {
        Angle::between(*self, other)
    }

    /// What [`Direction::rotated_from`] computes.
    pub open spec fn spec_rotated_from(start: Self, angle: Angle) -> Self {
        Self::spec_rotated_from_east(
            Angle::spec_from_octants(
                (Angle::spec_between(Direction::East, start).octants() + angle.octants()) as u8,
            ),
        )
    }

    /// The direction that `start` turns into when it is turned clockwise by
    /// `angle`: the one that lies `angle` further from East than `start`.
    #[verifier::when_used_as_spec(spec_rotated_from)]
    pub fn rotated_from(start: Self, angle: Angle) -> (direction: Self)
        ensures
            direction == Self::spec_rotated_from(start, angle),
            direction.clockwise_from_east() == (start.clockwise_from_east() + angle.octants()) % 8,
    {
        let sum: u8 = Angle::between(Direction::East, start).octants() + angle.octants();
        Self::rotated_from_east(Angle::from_octants(sum))
    }

    /// What [`Direction::rotated_from_east`] computes.
    pub open spec fn spec_rotated_from_east(angle: Angle) -> Self {
        let octants = angle.octants();
        if octants == 0 {
            Direction::East
        } else if octants == 1 {
            Direction::Northeast
        } else if octants == 2 {
            Direction::North
        } else if octants == 3 {
            Direction::Northwest
        } else if octants == 4 {
            Direction::West
        } else if octants == 5 {
            Direction::Southwest
        } else if octants == 6 {
            Direction::South
        } else {
            Direction::Southeast
        }
    }

    /// The direction that lies `angle` clockwise of East.
    #[verifier::when_used_as_spec(spec_rotated_from_east)]
    pub fn rotated_from_east(angle: Angle) -> (direction: Self)
        ensures
            direction == Self::spec_rotated_from_east(angle),
            direction.clockwise_from_east() == angle.octants(),
    {
        match angle.octants() {
            0 => Direction::East,
            1 => Direction::Northeast,
            2 => Direction::North,
            3 => Direction::Northwest,
            4 => Direction::West,
            5 => Direction::Southwest,
            6 => Direction::South,
            _ => Direction::Southeast,
        }
    }

    /// Turning East by the angle that a direction makes with East gives that
    /// direction back.
    pub proof fn lemma_rotated_from_east_inverts_from_horizontal(direction: Direction)
        ensures
            Direction::rotated_from_east(Angle::from_horizontal(direction)) == direction,
    {
    }

    /// A direction is nothing more than its place in the clockwise order.
    pub proof fn lemma_position_determines(a: Direction, b: Direction)
        requires
            a.clockwise_from_east() == b.clockwise_from_east(),
        ensures
            a == b,
    {
    }

    /// Turning a direction by an angle moves it on by that many octants.
    pub proof fn lemma_rotated_from_position(start: Direction, angle: Angle)
        requires
            angle.wf(),
        ensures
            Direction::rotated_from(start, angle).clockwise_from_east() == (
            start.clockwise_from_east() + angle.octants()) % 8,
    {
    }

    /// Turning a direction by the zero angle gives the direction back.
    pub proof fn lemma_rotated_from_by_zero(start: Direction)
        ensures
            Direction::rotated_from(start, Angle::from_octants(0)) == start,
    {
    }

    /// Turning East by an angle gives the direction that far from East.
    pub proof fn lemma_rotated_from_east_is_rotated_from(angle: Angle)
        requires
            angle.wf(),
        ensures
            Direction::rotated_from(Direction::East, angle) == Direction::rotated_from_east(angle),
    {
    }

    /// Turning a direction by the angle from it to another gives the other.
    pub proof fn lemma_rotated_from_by_angle_to(a: Direction, b: Direction)
        ensures
            Direction::rotated_from(a, a.angle_to(b)) == b,
            Direction::rotated_from(a, Angle::between(a, b)) == b,
    {
    }

    /// Turning by one angle and then by another is turning by their sum.
    pub proof fn lemma_rotated_from_composes(start: Direction, first: Angle, second: Angle)
        requires
            first.wf(),
            second.wf(),
        ensures
            Direction::rotated_from(Direction::rotated_from(start, first), second)
                == Direction::rotated_from(start, first.add_spec(second)),
    {
        let sum = first.add_spec(second);
        let halfway = Direction::rotated_from(start, first);
        assert(sum.octants() == (first.octants() + second.octants()) % 8);
        Self::lemma_rotated_from_position(start, first);
        Self::lemma_rotated_from_position(halfway, second);
        Self::lemma_rotated_from_position(start, sum);
        Self::lemma_same_place(
            start.clockwise_from_east(),
            first.octants() as int,
            second.octants() as int,
            Direction::rotated_from(halfway, second),
            Direction::rotated_from(start, sum),
        );
    }

    /// Two directions that lie `first` and then `second` octants on from
    /// place `from`, and their sum on from it, are one direction.
    proof fn lemma_same_place(from: int, first: int, second: int, a: Direction, b: Direction)
        requires
            0 <= from < 8,
            0 <= first < 8,
            0 <= second < 8,
            a.clockwise_from_east() == ((from + first) % 8 + second) % 8,
            b.clockwise_from_east() == (from + (first + second) % 8) % 8,
        ensures
            a == b,
    {
    }

    /// The angle that the direction `angle` clockwise of East makes with East
    /// is `angle` again.
    pub proof fn lemma_from_horizontal_inverts_rotated_from_east(angle: Angle)
        requires
            angle.wf(),
        ensures
            Angle::from_horizontal(Direction::rotated_from_east(angle)) == angle,
    {
    }
}

/// The exact sine or cosine of a whole number of octants: 0, 1, -1, or plus
/// or minus one over the square root of two.
#[derive(Debug, Clone, Copy, PartialEq, Eq, Structural)]
pub enum Projection {
    NegOne,
    NegFrac1Sqrt2,
    Zero,
    Frac1Sqrt2,
    One,
}

impl Projection {
    /// Twice the square of this value: 0, 1 or 2.
    pub open spec fn twice_squared(self) -> int {
        match self {
            Projection::Zero => 0,
            Projection::Frac1Sqrt2 | Projection::NegFrac1Sqrt2 => 1,
            Projection::One | Projection::NegOne => 2,
        }
    }

    /// What [`Projection::to_f32_bits`] computes.
    pub open spec fn spec_to_f32_bits(self) -> u32 {
        match self {
            Projection::NegOne => 0xbf80_0000,
            Projection::NegFrac1Sqrt2 => 0xbf35_04f3,
            Projection::Zero => 0,
            Projection::Frac1Sqrt2 => 0x3f35_04f3,
            Projection::One => 0x3f80_0000,
        }
    }

    /// The bit pattern of the single-precision number nearest to this value:
    /// sign, eight bits of exponent, twenty-three bits of fraction.
    #[verifier::when_used_as_spec(spec_to_f32_bits)]
    pub fn to_f32_bits(self) -> (bits: u32)
        ensures
            bits == self.spec_to_f32_bits(),
    {
        match self {
            Projection::NegOne => 0xbf80_0000,
            Projection::NegFrac1Sqrt2 => 0xbf35_04f3,
            Projection::Zero => 0,
            Projection::Frac1Sqrt2 => 0x3f35_04f3,
            Projection::One => 0x3f80_0000,
        }
    }

    /// Negating a value other than zero changes the sign bit of its bit
    /// pattern and leaves the other bits as they are; zero stays all zeros.
    pub proof fn lemma_negated_flips_sign_bit(value: Projection)
        ensures
            value.negated().to_f32_bits() % 0x8000_0000 == value.to_f32_bits() % 0x8000_0000,
            value != Projection::Zero ==> (value.negated().to_f32_bits() >= 0x8000_0000) != (
            value.to_f32_bits() >= 0x8000_0000),
            value == Projection::Zero ==> value.negated().to_f32_bits() == 0,
    {
    }

    /// This value with the opposite sign.
    pub open spec fn negated(self) -> Projection {
        match self {
            Projection::NegOne => Projection::One,
            Projection::NegFrac1Sqrt2 => Projection::Frac1Sqrt2,
            Projection::Zero => Projection::Zero,
            Projection::Frac1Sqrt2 => Projection::NegFrac1Sqrt2,
            Projection::One => Projection::NegOne,
        }
    }
}

/// A rotation by a whole number of octants, kept in the range 0 to 7.
#[derive(Debug, Clone, Copy, PartialEq, Eq, Structural, PartialOrd, Ord)]
pub struct Angle {
    octants: u8,
}

impl Angle {
    /// The stored octant count is reduced modulo 8.
    #[verifier::type_invariant]
    pub open spec fn wf(self) -> bool {
        self.octants() < 8
    }

    /// The octant count of this angle.
    pub closed spec fn spec_octants(&self) -> u8 {
        self.octants
    }

    /// The angle of `octants` octants, reduced modulo 8.
    pub closed spec fn spec_from_octants(octants: u8) -> Self {
        Angle { octants: octants % 8 }
    }

    /// What [`Angle::from_horizontal`] computes.
    pub open spec fn spec_from_horizontal(direction: Direction) -> Self {
        Self::spec_from_octants(direction.clockwise_from_east() as u8)
    }

    /// What [`Angle::between`] computes.
    pub open spec fn spec_between(a: Direction, b: Direction) -> Self {
        Self::spec_from_octants(((b.clockwise_from_east() - a.clockwise_from_east()) % 8) as u8)
    }

    /// The angle of no rotation.
    pub fn zero() -> (angle: Self)
        ensures
            angle == Self::spec_from_octants(0),
            angle.octants() == 0,
    {
        Self { octants: 0 }
    }

    /// One octant: 45 degrees.
    pub fn forty_five() -> (angle: Self)
        ensures
            angle == Self::spec_from_octants(1),
            angle.octants() == 1,
    {
        Self { octants: 1 }
    }

    /// A quarter turn: 90 degrees.
    pub fn right() -> (angle: Self)
        ensures
            angle == Self::spec_from_octants(2),
            angle.octants() == 2,
    {
        Self { octants: 2 }
    }

    /// A half turn: 180 degrees.
    pub fn straight() -> (angle: Self)
        ensures
            angle == Self::spec_from_octants(4),
            angle.octants() == 4,
    {
        Self { octants: 4 }
    }

    /// The angle of `octants` octants; whole turns are dropped.
    #[verifier::when_used_as_spec(spec_from_octants)]
    pub fn from_octants(octants: u8) -> (angle: Self)
        ensures
            angle == Self::spec_from_octants(octants),
            angle.octants() == octants % 8,
            angle.octants() < 8,
    {
        Self { octants: octants % 8 }
    }

    /// The clockwise angle from East to `direction`.
    #[verifier::when_used_as_spec(spec_from_horizontal)]
    pub fn from_horizontal(direction: Direction) -> (angle: Self)
        ensures
            angle == Self::spec_from_horizontal(direction),
            angle.octants() == direction.clockwise_from_east(),
    {
        Self {
            octants: match direction {
                Direction::East => 0,
                Direction::Northeast => 1,
                Direction::North => 2,
                Direction::Northwest => 3,
                Direction::West => 4,
                Direction::Southwest => 5,
                Direction::South => 6,
                Direction::Southeast => 7,
            },
        }
    }

    /// The clockwise angle from `a` to `b`. The difference of the two octant
    /// counts wraps around instead of going negative.
    #[verifier::when_used_as_spec(spec_between)]
    pub fn between(a: Direction, b: Direction) -> (angle: Self)
        ensures
            angle == Self::spec_between(a, b),
            angle.octants() == (b.clockwise_from_east() - a.clockwise_from_east()) % 8,
    {
        let from: u8 = Self::from_horizontal(a).octants();
        let to: u8 = Self::from_horizontal(b).octants();
        Self::from_octants(to.wrapping_sub(from))
    }

    /// The number of octants in this angle, from 0 to 7.
    #[verifier::when_used_as_spec(spec_octants)]
    pub fn octants(&self) -> (octants: u8)
        ensures
            octants == self.spec_octants(),
            octants < 8,
    {
        proof {
            use_type_invariant(self);
        }
        self.octants
    }

    /// The number of whole quarter turns in this angle, from 0 to 3.
    pub fn quadrants(&self) -> (quadrants: u8)
        ensures
            quadrants == self.octants() / 2,
    {
        self.octants / 2
    }

    /// The quadrant that this angle falls in, counted from 1 to 4.
    pub fn quadrant(&self) -> (quadrant: u8)
        ensures
            quadrant == self.octants() / 2 + 1,
    {
        self.quadrants() + 1
    }

    /// This angle's octant count times 64, kept to eight bits.
    pub fn binary_degrees(&self) -> (units: u8)
        ensures
            units == (self.octants() * 64) % 256,
    {
        self.octants.wrapping_mul(0x40)
    }

    /// This angle in degrees: 45 for each octant.
    pub fn degrees(&self) -> (degrees: u16)
        ensures
            degrees == 45 * self.octants(),
    {
        proof {
            use_type_invariant(self);
        }
        self.octants as u16 * 45
    }

    /// What [`Angle::sin`] computes.
    pub open spec fn spec_sin(&self) -> Projection {
        let octants = self.octants();
        if octants == 0 || octants == 4 {
            Projection::Zero
        } else if octants == 1 || octants == 3 {
            Projection::Frac1Sqrt2
        } else if octants == 2 {
            Projection::One
        } else if octants == 6 {
            Projection::NegOne
        } else {
            Projection::NegFrac1Sqrt2
        }
    }

    /// The sine of this angle, exactly, looked up by octant.
    #[verifier::when_used_as_spec(spec_sin)]
    pub fn sin(&self) -> (sine: Projection)
        ensures
            sine == self.spec_sin(),
    {
        match self.octants() {
            0 => Projection::Zero,
            1 => Projection::Frac1Sqrt2,
            2 => Projection::One,
            3 => Projection::Frac1Sqrt2,
            4 => Projection::Zero,
            5 => Projection::NegFrac1Sqrt2,
            6 => Projection::NegOne,
            _ => Projection::NegFrac1Sqrt2,
        }
    }

    /// What [`Angle::cos`] computes.
    pub open spec fn spec_cos(&self) -> Projection {
        let octants = self.octants();
        if octants == 2 || octants == 6 {
            Projection::Zero
        } else if octants == 1 || octants == 7 {
            Projection::Frac1Sqrt2
        } else if octants == 0 {
            Projection::One
        } else if octants == 4 {
            Projection::NegOne
        } else {
            Projection::NegFrac1Sqrt2
        }
    }

    /// The cosine of this angle, exactly, looked up by octant.
    #[verifier::when_used_as_spec(spec_cos)]
    pub fn cos(&self) -> (cosine: Projection)
        ensures
            cosine == self.spec_cos(),
    {
        match self.octants() {
            0 => Projection::One,
            1 => Projection::Frac1Sqrt2,
            2 => Projection::Zero,
            3 => Projection::NegFrac1Sqrt2,
            4 => Projection::NegOne,
            5 => Projection::NegFrac1Sqrt2,
            6 => Projection::Zero,
            _ => Projection::Frac1Sqrt2,
        }
    }

    /// An angle is nothing more than its octant count.
    pub proof fn lemma_octants_determine(a: Angle, b: Angle)
        requires
            a.octants() == b.octants(),
        ensures
            a == b,
    {
    }

    /// Reducing an octant count a second time changes nothing.
    pub proof fn lemma_reduction_idempotent(octants: u8)
        ensures
            Angle::from_octants(octants).octants() == octants % 8,
            Angle::from_octants(octants).wf(),
            Angle::from_octants(octants).octants() == Angle::from_octants(
                Angle::from_octants(octants).octants(),
            ).octants(),
            Angle::from_octants(Angle::from_octants(octants).octants()) == Angle::from_octants(
                octants,
            ),
    {
    }
}

impl Angle {
    /// The squares of the sine and of the cosine of an angle add up to one.
    pub proof fn lemma_sin_cos_on_unit_circle(angle: Angle)
        requires
            angle.wf(),
        ensures
            angle.sin().twice_squared() + angle.cos().twice_squared() == 2,
    {
    }

    /// The cosine of an angle is the sine of the angle a quarter turn on.
    pub proof fn lemma_cos_is_sin_quarter_turn_on(angle: Angle)
        requires
            angle.wf(),
        ensures
            angle.cos() == angle.add_spec(Angle::from_octants(2)).sin(),
    {
    }

    /// A half turn negates both the sine and the cosine.
    pub proof fn lemma_half_turn_negates(angle: Angle)
        requires
            angle.wf(),
        ensures
            angle.add_spec(Angle::from_octants(4)).sin() == angle.sin().negated(),
            angle.add_spec(Angle::from_octants(4)).cos() == angle.cos().negated(),
    {
    }
}

impl std::ops::Add for Angle {
    type Output = Self;

    /// The sum of the two octant counts, reduced modulo 8.
    fn add(self, rhs: Self) -> (sum: Self)
        ensures
            sum.octants() == (self.octants() + rhs.octants()) % 8,
    {
        proof {
            use_type_invariant(self);
            use_type_invariant(rhs);
        }
        Self::from_octants(self.octants + rhs.octants)
    }
}

impl vstd::std_specs::ops::AddSpecImpl for Angle {
    open spec fn obeys_add_spec() -> bool {
        true
    }

    open spec fn add_req(self, rhs: Self) -> bool {
        true
    }

    open spec fn add_spec(self, rhs: Self) -> Self {
        Angle::spec_from_octants(((self.octants() + rhs.octants()) % 8) as u8)
    }
}

impl std::ops::Sub for Angle {
    type Output = Self;

    /// The difference of the two octant counts, reduced modulo 8: taking away
    /// the larger angle wraps around.
    fn sub(self, rhs: Self) -> (difference: Self)
        ensures
            difference.octants() == (self.octants() - rhs.octants()) % 8,
    {
        proof {
            use_type_invariant(self);
            use_type_invariant(rhs);
        }
        Self::from_octants(self.octants.wrapping_sub(rhs.octants))
    }
}

impl vstd::std_specs::ops::SubSpecImpl for Angle {
    open spec fn obeys_sub_spec() -> bool {
        true
    }

    open spec fn sub_req(self, rhs: Self) -> bool {
        true
    }

    open spec fn sub_spec(self, rhs: Self) -> Self {
        Angle::spec_from_octants(((self.octants() - rhs.octants()) % 8) as u8)
    }
}

impl std::ops::Mul for Angle {
    type Output = Self;

    /// The product of the two octant counts, reduced modulo 8.
    fn mul(self, rhs: Self) -> (product: Self)
        ensures
            product.octants() == (self.octants() * rhs.octants()) % 8,
    {
        proof {
            use_type_invariant(self);
            use_type_invariant(rhs);
            assert(self.octants * rhs.octants <= 49) by (nonlinear_arith)
                requires
                    self.octants < 8,
                    rhs.octants < 8,
            ;
        }
        Self::from_octants(self.octants * rhs.octants)
    }
}

impl vstd::std_specs::ops::MulSpecImpl for Angle {
    open spec fn obeys_mul_spec() -> bool {
        true
    }

    open spec fn mul_req(self, rhs: Self) -> bool {
        true
    }

    open spec fn mul_spec(self, rhs: Self) -> Self {
        Angle::spec_from_octants(((self.octants() * rhs.octants()) % 8) as u8)
    }
}

impl std::ops::Div for Angle {
    type Output = Self;

    /// The whole quotient of the two octant counts. The divisor is not the
    /// zero angle.
    fn div(self, rhs: Self) -> (quotient: Self)
        ensures
            quotient.octants() == self.octants() / rhs.octants(),
    {
        proof {
            use_type_invariant(self);
            use_type_invariant(rhs);
        }
        Self::from_octants(self.octants / rhs.octants)
    }
}

impl vstd::std_specs::ops::DivSpecImpl for Angle {
    open spec fn obeys_div_spec() -> bool {
        true
    }

    open spec fn div_req(self, rhs: Self) -> bool {
        rhs.octants() != 0
    }

    open spec fn div_spec(self, rhs: Self) -> Self {
        Angle::spec_from_octants((self.octants() / rhs.octants()) as u8)
    }
}

impl std::ops::Rem for Angle {
    type Output = Self;

    /// The remainder of dividing the two octant counts. The divisor is not
    /// the zero angle.
    fn rem(self, rhs: Self) -> (remainder: Self)
        ensures
            remainder.octants() == self.octants() % rhs.octants(),
    {
        proof {
            use_type_invariant(self);
            use_type_invariant(rhs);
        }
        Self::from_octants(self.octants % rhs.octants)
    }
}

impl vstd::std_specs::ops::RemSpecImpl for Angle {
    open spec fn obeys_rem_spec() -> bool {
        true
    }

    open spec fn rem_req(self, rhs: Self) -> bool {
        rhs.octants() != 0
    }

    open spec fn rem_spec(self, rhs: Self) -> Self {
        Angle::spec_from_octants((self.octants() % rhs.octants()) as u8)
    }
}

} // verus!
