use vstd::prelude::*;

use crate::scalar::{
    abs_bits, binary64_add, binary64_div, binary64_mul, binary64_round_to_integral, binary64_sub,
    binary64_to_u16, compare_bits, ieee_eq, is_nan, le, lt, Scalar, EPSILON_BITS, HALF_BITS, ONE_BITS, ZERO_BITS,
};
use std::cmp::Ordering;
use vstd::std_specs::cmp::{PartialEqSpecImpl, PartialOrdSpecImpl};
use vstd::std_specs::ops::{AddSpecImpl, DivSpecImpl, MulSpecImpl, SubSpecImpl};

verus! {

/// Encoding of -0.5.
pub const MINUS_HALF_BITS: u64 = 0xBFE0_0000_0000_0000u64;

/// A point in the plane.
#[derive(Clone, Copy, Debug)]
pub struct Position {
    pub x: Scalar,
    pub y: Scalar,
}

/// A width and a height.
#[derive(Clone, Copy, Debug)]
pub struct Dimension {
    pub width: Scalar,
    pub height: Scalar,
}

/// An axis-aligned rectangle: its corner and its size.
#[derive(Clone, Copy, Debug)]
pub struct Rect {
    pub position: Position,
    pub dimension: Dimension,
}

/// The part of `a` after the point: `a` less its truncation.
pub open spec fn fract_of(a: u64) -> u64 {
    binary64_sub(a, binary64_round_to_integral(a, true))
}

/// `f` with one added where it is negative.
pub open spec fn wrapped(f: u64) -> u64 {
    if lt(f, ZERO_BITS) {
        binary64_add(ONE_BITS, f)
    } else {
        f
    }
}

/// `a` lies in `[0, 1)`.
pub open spec fn in_unit_interval(a: u64) -> bool {
    le(ZERO_BITS, a) && lt(a, ONE_BITS)
}

/// The part of `a` after the point, moved into `[0, 1)` by adding one where it
/// is negative. One plus a tiny negative part rounds to one itself; that, the
/// only value a finite `a` can give outside `[0, 1)`, wraps round to zero. A
/// NaN (from an infinite or NaN `a`) stays.
pub open spec fn fraction_0_1_of(a: u64) -> u64 {
    let g = wrapped(fract_of(a));
    if is_nan(g) || in_unit_interval(g) {
        g
    } else {
        ZERO_BITS
    }
}

/// `a` moved by one toward zero where it lies beyond ±0.5.
pub open spec fn normalized_of(a: u64) -> u64 {
    if lt(HALF_BITS, a) {
        binary64_sub(a, ONE_BITS)
    } else if lt(a, MINUS_HALF_BITS) {
        binary64_add(a, ONE_BITS)
    } else {
        a
    }
}

proof fn lemma_zero_in_unit_interval()
    ensures
        in_unit_interval(ZERO_BITS),
{
    assert(0u64 & 0x7FFF_FFFF_FFFF_FFFFu64 == 0u64) by (bit_vector);
    assert(0u64 & 0x8000_0000_0000_0000u64 == 0u64) by (bit_vector);
    assert(0x3FF0_0000_0000_0000u64 & 0x7FFF_FFFF_FFFF_FFFFu64 == 0x3FF0_0000_0000_0000u64)
        by (bit_vector);
    assert(0x3FF0_0000_0000_0000u64 & 0x8000_0000_0000_0000u64 == 0u64) by (bit_vector);
}

fn fraction_0_1_scalar(a: Scalar) -> (r: Scalar)
    ensures
        r.bits == fraction_0_1_of(a.bits),
{
    let f = a.fract();
    let zero = Scalar::zero();
    let one = Scalar::from_bits(ONE_BITS);
    let g = if f.lt(zero) {
        one.add(f)
    } else {
        f
    };
    if g.is_nan() || (zero.le(g) && g.lt(one)) {
        g
    } else {
        zero
    }
}

fn normalized_scalar(a: Scalar) -> (r: Scalar)
    ensures
        r.bits == normalized_of(a.bits),
{
    if Scalar::from_bits(HALF_BITS).lt(a) {
        a.sub(Scalar::from_bits(ONE_BITS))
    } else if a.lt(Scalar::from_bits(MINUS_HALF_BITS)) {
        a.add(Scalar::from_bits(ONE_BITS))
    } else {
        a
    }
}

impl Position {
    pub fn new(x: Scalar, y: Scalar) -> (p: Position)
        ensures
            p.x == x,
            p.y == y,
    {
        Position { x, y }
    }

    pub fn x(&self) -> (r: Scalar)
        ensures
            r == self.x,
    {
        self.x
    }

    pub fn y(&self) -> (r: Scalar)
        ensures
            r == self.y,
    {
        self.y
    }

    /// Returns the fraction of the position between 0.0 and 1.0 (exclusive);
    /// a coordinate that is infinite or NaN gives NaN.
    /// 0.0 will return 0.0
    /// 1.0 will return 0.0
    /// 1.5 will return 0.5
    /// -1.5 will return 0.5
    /// -0.2 will return 0.8
    /// 0.2 will return 0.2
    pub fn fraction_0_1(&self) -> (p: Position)
        ensures
            p.x.bits == fraction_0_1_of(self.x.bits),
            p.y.bits == fraction_0_1_of(self.y.bits),
            is_nan(p.x.bits) || in_unit_interval(p.x.bits),
            is_nan(p.y.bits) || in_unit_interval(p.y.bits),
    {
        proof {
            lemma_zero_in_unit_interval();
        }
        Position::new(fraction_0_1_scalar(self.x), fraction_0_1_scalar(self.y))
    }

    pub fn translate_x(&self, x: Scalar) -> (p: Position)
        ensures
            p.x.bits == binary64_add(self.x.bits, x.bits),
            p.y == self.y,
    {
        Position::new(self.x.add(x), self.y)
    }

    pub fn translate_y(&self, y: Scalar) -> (p: Position)
        ensures
            p.x == self.x,
            p.y.bits == binary64_add(self.y.bits, y.bits),
    {
        Position::new(self.x, self.y.add(y))
    }

    /// Each coordinate moved by one toward zero where it lies beyond ±0.5.
    pub fn normalized_offset(&self) -> (p: Position)
        ensures
            p.x.bits == normalized_of(self.x.bits),
            p.y.bits == normalized_of(self.y.bits),
    {
        Position::new(normalized_scalar(self.x), normalized_scalar(self.y))
    }

    /// Each coordinate plus one half, truncated to a `u16` (saturating).
    pub fn round_to_u16(&self) -> (r: (u16, u16))
        ensures
            r.0 == binary64_to_u16(binary64_add(self.x.bits, HALF_BITS)),
            r.1 == binary64_to_u16(binary64_add(self.y.bits, HALF_BITS)),
    {
        let half = Scalar::from_bits(HALF_BITS);
        let x = self.x.add(half).to_u16();
        let y = self.y.add(half).to_u16();
        (x, y)
    }

    /// Each coordinate rounded to the nearest integer, halves away from zero.
    pub fn rounded(&self) -> (p: Position)
        ensures
            p.x.bits == binary64_round_to_integral(self.x.bits, false),
            p.y.bits == binary64_round_to_integral(self.y.bits, false),
    {
        Position::new(self.x.round(), self.y.round())
    }

    /// Each coordinate rounded toward zero.
    pub fn truncated(&self) -> (p: Position)
        ensures
            p.x.bits == binary64_round_to_integral(self.x.bits, true),
            p.y.bits == binary64_round_to_integral(self.y.bits, true),
    {
        Position::new(self.x.trunc(), self.y.trunc())
    }

    /// The part of each coordinate after the point.
    pub fn fraction(&self) -> (p: Position)
        ensures
            p.x.bits == fract_of(self.x.bits),
            p.y.bits == fract_of(self.y.bits),
    {
        Position::new(self.x.fract(), self.y.fract())
    }

    /// Both coordinates are within the machine epsilon of zero.
    pub fn is_near_zero(&self) -> (r: bool)
        ensures
            r == (le(abs_bits(self.x.bits), EPSILON_BITS) && le(abs_bits(self.y.bits), EPSILON_BITS)),
    {
        let epsilon = Scalar::from_bits(EPSILON_BITS);
        let x = self.x.abs().le(epsilon);
        let y = self.y.abs().le(epsilon);
        x && y
    }

    /// The point moved by `d`: its width along x, its height along y.
    pub fn add_dimension(self, d: Dimension) -> (p: Position)
        ensures
            p.x.bits == binary64_add(self.x.bits, d.width.bits),
            p.y.bits == binary64_add(self.y.bits, d.height.bits),
    {
        Position::new(self.x.add(d.width), self.y.add(d.height))
    }
}

impl std::ops::Add<Position> for Position {
    type Output = Position;

    fn add(self, rhs: Position) -> (p: Position)
        ensures
            p.x.bits == binary64_add(self.x.bits, rhs.x.bits),
            p.y.bits == binary64_add(self.y.bits, rhs.y.bits),
    {
        Position::new(self.x.add(rhs.x), self.y.add(rhs.y))
    }
}

impl std::ops::Sub<Position> for Position {
    type Output = Position;

    fn sub(self, rhs: Position) -> (p: Position)
        ensures
            p.x.bits == binary64_sub(self.x.bits, rhs.x.bits),
            p.y.bits == binary64_sub(self.y.bits, rhs.y.bits),
    {
        Position::new(self.x.sub(rhs.x), self.y.sub(rhs.y))
    }
}

impl std::ops::Mul<Scalar> for Position {
    type Output = Position;

    fn mul(self, rhs: Scalar) -> (p: Position)
        ensures
            p.x.bits == binary64_mul(self.x.bits, rhs.bits),
            p.y.bits == binary64_mul(self.y.bits, rhs.bits),
    {
        Position::new(self.x.mul(rhs), self.y.mul(rhs))
    }
}

impl std::ops::Div<Scalar> for Position {
    type Output = Position;

    fn div(self, rhs: Scalar) -> (p: Position)
        ensures
            p.x.bits == binary64_div(self.x.bits, rhs.bits),
            p.y.bits == binary64_div(self.y.bits, rhs.bits),
    {
        Position::new(self.x.div(rhs), self.y.div(rhs))
    }
}

impl std::ops::Add<Dimension> for Position {
    type Output = Position;

    fn add(self, rhs: Dimension) -> (p: Position)
        ensures
            p.x.bits == binary64_add(self.x.bits, rhs.width.bits),
            p.y.bits == binary64_add(self.y.bits, rhs.height.bits),
    {
        self.add_dimension(rhs)
    }
}


impl AddSpecImpl<Position> for Position {
    open spec fn obeys_add_spec() -> bool {
        true
    }

    open spec fn add_req(self, rhs: Position) -> bool {
        true
    }

    open spec fn add_spec(self, rhs: Position) -> Position {
        Position {
            x: Scalar { bits: binary64_add(self.x.bits, rhs.x.bits) },
            y: Scalar { bits: binary64_add(self.y.bits, rhs.y.bits) },
        }
    }
}

impl SubSpecImpl<Position> for Position {
    open spec fn obeys_sub_spec() -> bool {
        true
    }

    open spec fn sub_req(self, rhs: Position) -> bool {
        true
    }

    open spec fn sub_spec(self, rhs: Position) -> Position {
        Position {
            x: Scalar { bits: binary64_sub(self.x.bits, rhs.x.bits) },
            y: Scalar { bits: binary64_sub(self.y.bits, rhs.y.bits) },
        }
    }
}

impl MulSpecImpl<Scalar> for Position {
    open spec fn obeys_mul_spec() -> bool {
        true
    }

    open spec fn mul_req(self, rhs: Scalar) -> bool {
        true
    }

    open spec fn mul_spec(self, rhs: Scalar) -> Position {
        Position {
            x: Scalar { bits: binary64_mul(self.x.bits, rhs.bits) },
            y: Scalar { bits: binary64_mul(self.y.bits, rhs.bits) },
        }
    }
}

impl DivSpecImpl<Scalar> for Position {
    open spec fn obeys_div_spec() -> bool {
        true
    }

    open spec fn div_req(self, rhs: Scalar) -> bool {
        true
    }

    open spec fn div_spec(self, rhs: Scalar) -> Position {
        Position {
            x: Scalar { bits: binary64_div(self.x.bits, rhs.bits) },
            y: Scalar { bits: binary64_div(self.y.bits, rhs.bits) },
        }
    }
}

impl AddSpecImpl<Dimension> for Position {
    open spec fn obeys_add_spec() -> bool {
        true
    }

    open spec fn add_req(self, rhs: Dimension) -> bool {
        true
    }

    open spec fn add_spec(self, rhs: Dimension) -> Position {
        Position {
            x: Scalar { bits: binary64_add(self.x.bits, rhs.width.bits) },
            y: Scalar { bits: binary64_add(self.y.bits, rhs.height.bits) },
        }
    }
}

impl std::ops::AddAssign<Dimension> for Position {
    fn add_assign(&mut self, rhs: Dimension)
        ensures
            final(self).x.bits == binary64_add(old(self).x.bits, rhs.width.bits),
            final(self).y.bits == binary64_add(old(self).y.bits, rhs.height.bits),
    {
        *self = self.add_dimension(rhs);
    }
}

impl Default for Position {
    fn default() -> (p: Position)
        ensures
            p.x.bits == ZERO_BITS,
            p.y.bits == ZERO_BITS,
    {
        Position::new(Scalar::zero(), Scalar::zero())
    }
}

impl PartialEq for Position {
    fn eq(&self, other: &Position) -> (r: bool) {
        self.x == other.x && self.y == other.y
    }
}

impl PartialEqSpecImpl for Position {
    open spec fn obeys_eq_spec() -> bool {
        true
    }

    open spec fn eq_spec(&self, other: &Position) -> bool {
        ieee_eq(self.x.bits, other.x.bits) && ieee_eq(self.y.bits, other.y.bits)
    }
}

/// How `a` compares with `b`: by x, and by y where the x are equal.
pub open spec fn compare_positions(a: Position, b: Position) -> Option<Ordering> {
    match compare_bits(a.x.bits, b.x.bits) {
        Some(Ordering::Equal) => compare_bits(a.y.bits, b.y.bits),
        by_x => by_x,
    }
}

impl PartialOrd for Position {
    fn partial_cmp(&self, other: &Position) -> (r: Option<Ordering>) {
        match self.x.partial_cmp(&other.x) {
            Some(Ordering::Equal) => self.y.partial_cmp(&other.y),
            by_x => by_x,
        }
    }
}

impl PartialOrdSpecImpl for Position {
    open spec fn obeys_partial_cmp_spec() -> bool {
        true
    }

    open spec fn partial_cmp_spec(&self, other: &Position) -> Option<Ordering> {
        compare_positions(*self, *other)
    }
}

impl Dimension {
    pub fn new(width: Scalar, height: Scalar) -> (d: Dimension)
        ensures
            d.width == width,
            d.height == height,
    {
        Dimension { width, height }
    }
}

impl Rect {
    pub fn new(position: Position, dimension: Dimension) -> (r: Rect)
        ensures
            r.position == position,
            r.dimension == dimension,
    {
        Rect { position, dimension }
    }
}

} // verus!
