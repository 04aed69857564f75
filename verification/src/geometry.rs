use vstd::prelude::*;
use crate::units::{div_round, rounded_div};

verus! {

/// Width of a frame in logical pixels.
pub const WIDTH: u32 = 400;

/// A colour with an alpha channel, eight bits each.
#[derive(Clone, Copy, Debug, PartialEq, Eq, Structural)]
pub struct Color {
    pub r: u8,
    pub g: u8,
    pub b: u8,
    pub a: u8,
}

impl Color {
    /// The opaque colour with the given red, green and blue parts.
    pub open spec fn opaque(r: u8, g: u8, b: u8) -> Color {
        Color { r, g, b, a: 255 }
    }

    /// Opaque white.
    pub open spec fn white() -> Color {
        Color::opaque(255, 255, 255)
    }

    /// Opaque grey, half way between black and white.
    pub open spec fn grey() -> Color {
        Color::opaque(128, 128, 128)
    }

    /// The opaque colour with the given red, green and blue parts.
    pub fn rgb(r: u8, g: u8, b: u8) -> (c: Color)
        ensures
            c == Color::opaque(r, g, b),
    {
        Color { r, g, b, a: 255 }
    }

    /// The colour with the given parts, alpha last.
    pub fn rgba(r: u8, g: u8, b: u8, a: u8) -> (c: Color)
        ensures
            c == (Color { r, g, b, a }),
    {
        Color { r, g, b, a }
    }
}

/// The largest magnitude of a coordinate, and of the parts of an angle,
/// that the shapes of a dial can be drawn with.
pub const DRAWABLE: i64 = 0x100_0000_0000;

/// A position in logical pixels, `y` growing downwards.
#[derive(Clone, Copy, Debug, PartialEq, Eq, Structural)]
pub struct Point {
    pub x: i64,
    pub y: i64,
}

impl Point {
    /// Neither coordinate is beyond `DRAWABLE`.
    pub open spec fn drawable(self) -> bool {
        -DRAWABLE <= self.x <= DRAWABLE && -DRAWABLE <= self.y <= DRAWABLE
    }

    /// Tells whether neither coordinate is beyond `DRAWABLE`.
    pub fn is_drawable(&self) -> (res: bool)
        ensures
            res == self.drawable(),
    {
        -DRAWABLE <= self.x && self.x <= DRAWABLE && -DRAWABLE <= self.y && self.y <= DRAWABLE
    }
}

/// An angle given as the fraction `num / den` of a half turn, that is
/// `num / den * pi` radians, counted counter-clockwise from the positive
/// x axis. A point at distance `r` under this angle from a centre `c` sits
/// at `c + r * (cos, -sin)`.
#[derive(Clone, Copy, Debug, PartialEq, Eq, Structural)]
pub struct Angle {
    pub num: i64,
    pub den: i64,
}

impl Angle {
    /// Both fractions name the same angle.
    pub open spec fn same(self, other: Angle) -> bool {
        self.num * other.den == other.num * self.den
    }

    /// This angle is not larger than `other`.
    pub open spec fn le(self, other: Angle) -> bool {
        self.num * other.den <= other.num * self.den
    }

    /// The half turn, `pi`.
    pub open spec fn half_turn() -> Angle {
        Angle { num: 1, den: 1 }
    }

    /// The angle zero.
    pub open spec fn zero() -> Angle {
        Angle { num: 0, den: 1 }
    }

    /// The quarter turn, `pi / 2`.
    pub open spec fn quarter_turn() -> Angle {
        Angle { num: 1, den: 2 }
    }

    /// Small enough to be written out in degrees: a positive denominator,
    /// and neither part beyond `DRAWABLE`.
    pub open spec fn drawable(self) -> bool {
        0 < self.den <= DRAWABLE && -DRAWABLE <= self.num <= DRAWABLE
    }

    /// Tells whether the angle is small enough to be written out in
    /// degrees.
    pub fn is_drawable(&self) -> (res: bool)
        ensures
            res == self.drawable(),
    {
        0 < self.den && self.den <= DRAWABLE && -DRAWABLE <= self.num && self.num <= DRAWABLE
    }

    /// How far a ray under this angle is turned clockwise from the ray that
    /// points left, in thousandths of a degree, rounded to the nearest.
    pub open spec fn turn(self) -> int {
        rounded_div(180_000 * (self.den - self.num), self.den as int)
    }

    /// Computes how far a ray under this angle is turned clockwise from the
    /// ray that points left, in thousandths of a degree.
    pub fn turn_of(&self) -> (res: i64)
        requires
            self.drawable(),
        ensures
            res == self.turn(),
            -0x800_0000_0000_0000 <= res <= 0x800_0000_0000_0000,
    {
        let n: i64 = 180_000 * (self.den - self.num);
        let d: i64 = self.den;
        assert(-0x800_0000_0000_0000 <= rounded_div(n as int, d as int) <= 0x800_0000_0000_0000)
            by (nonlinear_arith)
            requires
                d > 0,
                -0x800_0000_0000_0000 <= n <= 0x800_0000_0000_0000,
        ;
        div_round(n, d)
    }

    /// Tells whether two fractions name the same angle.
    pub fn same_as(&self, other: &Angle) -> (b: bool)
        ensures
            b == self.same(*other),
    {
        let a: i128 = self.num as i128;
        let b: i128 = other.den as i128;
        let c: i128 = other.num as i128;
        let d: i128 = self.den as i128;
        assert(-0x4000_0000_0000_0000_0000_0000_0000_0000 <= a * b
            <= 0x4000_0000_0000_0000_0000_0000_0000_0000) by (nonlinear_arith)
            requires
                -0x8000_0000_0000_0000 <= a <= 0x8000_0000_0000_0000,
                -0x8000_0000_0000_0000 <= b <= 0x8000_0000_0000_0000,
        ;
        assert(-0x4000_0000_0000_0000_0000_0000_0000_0000 <= c * d
            <= 0x4000_0000_0000_0000_0000_0000_0000_0000) by (nonlinear_arith)
            requires
                -0x8000_0000_0000_0000 <= c <= 0x8000_0000_0000_0000,
                -0x8000_0000_0000_0000 <= d <= 0x8000_0000_0000_0000,
        ;
        a * b == c * d
    }
}

} // verus!
