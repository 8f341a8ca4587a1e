//! Geometric primitives: fixed-point lengths, points, sizes, alignments and
//! the small value types that describe how something is painted.
//!
//! Every quantity is an integer count of a fixed unit, so every value is
//! finite and all arithmetic is exact up to the stated rounding. Sums and
//! differences that leave the representable range stop at its ends.

use vstd::prelude::*;

verus! {

/// The number of raw length units in one typographic point.
pub const UNITS_PER_PT: i64 = 12700;

/// The number of raw length units in one millimeter.
pub const UNITS_PER_MM: i64 = 36000;

/// The number of raw font-relative units in one em.
pub const UNITS_PER_EM: i64 = 1000;

/// The number of raw ratio units in the ratio one.
pub const UNITS_PER_ONE: i64 = 1000000;

/// The integer nearest to `v` that an `i64` can hold.
pub open spec fn saturate(v: int) -> i64 {
    if v < i64::MIN {
        i64::MIN
    } else if v > i64::MAX {
        i64::MAX
    } else {
        v as i64
    }
}

/// The quotient of `a` by a positive `b`, rounded toward zero.
pub open spec fn div_toward_zero(a: int, b: int) -> int {
    if a >= 0 {
        a / b
    } else {
        -((-a) / b)
    }
}

/// Brings a wide intermediate result back into the range of an `i64`.
pub fn saturate_wide(v: i128) -> (r: i64)
    ensures
        r == saturate(v as int),
{
    if v < i64::MIN as i128 {
        i64::MIN
    } else if v > i64::MAX as i128 {
        i64::MAX
    } else {
        v as i64
    }
}

/// An absolute length.
///
/// One point is [`UNITS_PER_PT`] raw units and one millimeter is
/// [`UNITS_PER_MM`] raw units, so lengths given in either unit are exact.
#[derive(Clone, Copy, Debug, PartialEq, Eq, Hash, Structural)]
pub struct Abs {
    pub raw: i64,
}

impl Abs {
    /// The sum of two lengths, stopping at the ends of the range.
    pub open spec fn spec_plus(self, rhs: Abs) -> Abs {
        Abs { raw: saturate(self.raw + rhs.raw) }
    }

    /// The difference of two lengths, stopping at the ends of the range.
    pub open spec fn spec_minus(self, rhs: Abs) -> Abs {
        Abs { raw: saturate(self.raw - rhs.raw) }
    }

    /// Half of a length, rounded toward zero.
    pub open spec fn spec_half(self) -> Abs {
        Abs { raw: div_toward_zero(self.raw as int, 2) as i64 }
    }

    /// The length zero.
    pub open spec fn spec_zero() -> Abs {
        Abs { raw: 0 }
    }

    /// A whole number of points.
    pub open spec fn spec_pt(pt: i32) -> Abs {
        Abs { raw: (pt * UNITS_PER_PT) as i64 }
    }

    /// A whole number of millimeters.
    pub open spec fn spec_mm(mm: i32) -> Abs {
        Abs { raw: (mm * UNITS_PER_MM) as i64 }
    }

    /// The length zero.
    #[verifier::when_used_as_spec(spec_zero)]
    pub fn zero() -> (r: Abs)
        ensures
            r == Abs::spec_zero(),
    {
        Abs { raw: 0 }
    }

    /// A length from its count of raw units.
    pub fn raw(raw: i64) -> (r: Abs)
        ensures
            r.raw == raw,
    {
        Abs { raw }
    }

    /// A length of `pt` points.
    #[verifier::when_used_as_spec(spec_pt)]
    pub fn pt(pt: i32) -> (r: Abs)
        ensures
            r == Abs::spec_pt(pt),
            r.raw == pt * UNITS_PER_PT,
    {
        Abs { raw: (pt as i64) * UNITS_PER_PT }
    }

    /// A length of `mm` millimeters.
    #[verifier::when_used_as_spec(spec_mm)]
    pub fn mm(mm: i32) -> (r: Abs)
        ensures
            r == Abs::spec_mm(mm),
            r.raw == mm * UNITS_PER_MM,
    {
        Abs { raw: (mm as i64) * UNITS_PER_MM }
    }

    /// The count of raw units in this length.
    pub fn to_raw(self) -> (r: i64)
        ensures
            r == self.raw,
    {
        self.raw
    }

    /// Whether this is the length zero.
    pub fn is_zero(self) -> (r: bool)
        ensures
            r == (self == Abs::spec_zero()),
    {
        self.raw == 0
    }

    /// Adds two lengths. A sum beyond the range becomes the nearest end of it.
    #[verifier::when_used_as_spec(spec_plus)]
    pub fn plus(self, rhs: Abs) -> (r: Abs)
        ensures
            r == self.spec_plus(rhs),
    {
        Abs { raw: saturate_wide(self.raw as i128 + rhs.raw as i128) }
    }

    /// Subtracts `rhs` from this length, stopping at the ends of the range.
    #[verifier::when_used_as_spec(spec_minus)]
    pub fn minus(self, rhs: Abs) -> (r: Abs)
        ensures
            r == self.spec_minus(rhs),
    {
        Abs { raw: saturate_wide(self.raw as i128 - rhs.raw as i128) }
    }

    /// Halves a length, rounding toward zero.
    #[verifier::when_used_as_spec(spec_half)]
    pub fn half(self) -> (r: Abs)
        ensures
            r == self.spec_half(),
    {
        Abs { raw: self.raw / 2 }
    }
}

/// A length relative to the font size, in thousandths of an em.
#[derive(Clone, Copy, Debug, PartialEq, Eq, Hash, Structural)]
pub struct Em {
    pub raw: i64,
}

impl Em {
    /// The absolute length that this font-relative length has at a font size.
    ///
    /// The product is rounded toward zero to whole raw units.
    pub open spec fn spec_at(self, font_size: Abs) -> Abs {
        Abs { raw: saturate(div_toward_zero(self.raw * font_size.raw, UNITS_PER_EM as int)) }
    }

    /// The font-relative length zero.
    pub open spec fn spec_zero() -> Em {
        Em { raw: 0 }
    }

    /// The font-relative length zero.
    #[verifier::when_used_as_spec(spec_zero)]
    pub fn zero() -> (r: Em)
        ensures
            r == Em::spec_zero(),
    {
        Em { raw: 0 }
    }

    /// A font-relative length from its count of thousandths of an em.
    pub fn raw(raw: i64) -> (r: Em)
        ensures
            r.raw == raw,
    {
        Em { raw }
    }

    /// The count of thousandths of an em in this length.
    pub fn to_raw(self) -> (r: i64)
        ensures
            r == self.raw,
    {
        self.raw
    }

    /// Converts to an absolute length at the given font size.
    #[verifier::when_used_as_spec(spec_at)]
    pub fn at(self, font_size: Abs) -> (r: Abs)
        ensures
            r == self.spec_at(font_size),
    {
        let a: i64 = self.raw;
        let b: i64 = font_size.raw;
        assert(-0x8000_0000_0000_0000 * 0x8000_0000_0000_0000 <= a * b
            <= 0x8000_0000_0000_0000 * 0x8000_0000_0000_0000) by (nonlinear_arith)
            requires
                -0x8000_0000_0000_0000 <= a <= 0x7fff_ffff_ffff_ffff,
                -0x8000_0000_0000_0000 <= b <= 0x7fff_ffff_ffff_ffff,
        ;
        let product: i128 = (a as i128) * (b as i128);
        Abs { raw: saturate_wide(product / (UNITS_PER_EM as i128)) }
    }
}

/// A dimensionless factor, in millionths.
#[derive(Clone, Copy, Debug, PartialEq, Eq, Hash, Structural)]
pub struct Ratio {
    pub raw: i64,
}

impl Ratio {
    /// The ratio zero.
    pub open spec fn spec_zero() -> Ratio {
        Ratio { raw: 0 }
    }

    /// The ratio one.
    pub open spec fn spec_one() -> Ratio {
        Ratio { raw: UNITS_PER_ONE }
    }

    /// The ratio zero.
    #[verifier::when_used_as_spec(spec_zero)]
    pub fn zero() -> (r: Ratio)
        ensures
            r == Ratio::spec_zero(),
    {
        Ratio { raw: 0 }
    }

    /// The ratio one.
    #[verifier::when_used_as_spec(spec_one)]
    pub fn one() -> (r: Ratio)
        ensures
            r == Ratio::spec_one(),
    {
        Ratio { raw: UNITS_PER_ONE }
    }

    /// A ratio from its count of millionths.
    pub fn raw(raw: i64) -> (r: Ratio)
        ensures
            r.raw == raw,
    {
        Ratio { raw }
    }

    /// This share of a length, rounded toward zero to whole raw units.
    pub open spec fn spec_of(self, whole: Abs) -> Abs {
        Abs { raw: saturate(div_toward_zero(self.raw * whole.raw, UNITS_PER_ONE as int)) }
    }

    /// This share of a length.
    #[verifier::when_used_as_spec(spec_of)]
    pub fn of(self, whole: Abs) -> (r: Abs)
        ensures
            r == self.spec_of(whole),
    {
        let a: i64 = self.raw;
        let b: i64 = whole.raw;
        assert(-0x8000_0000_0000_0000 * 0x8000_0000_0000_0000 <= a * b
            <= 0x8000_0000_0000_0000 * 0x8000_0000_0000_0000) by (nonlinear_arith)
            requires
                -0x8000_0000_0000_0000 <= a <= 0x7fff_ffff_ffff_ffff,
                -0x8000_0000_0000_0000 <= b <= 0x7fff_ffff_ffff_ffff,
        ;
        let product: i128 = (a as i128) * (b as i128);
        Abs { raw: saturate_wide(product / (UNITS_PER_ONE as i128)) }
    }
}

/// A point in two dimensions, measured from the top left.
#[derive(Clone, Copy, Debug, PartialEq, Eq, Hash, Structural)]
pub struct Point {
    pub x: Abs,
    pub y: Abs,
}

impl Point {
    /// The origin.
    pub open spec fn spec_zero() -> Point {
        Point { x: Abs::spec_zero(), y: Abs::spec_zero() }
    }

    /// The point moved by `offset`, each coordinate added on its own.
    pub open spec fn spec_plus(self, offset: Point) -> Point {
        Point { x: self.x.spec_plus(offset.x), y: self.y.spec_plus(offset.y) }
    }

    /// The origin.
    #[verifier::when_used_as_spec(spec_zero)]
    pub fn zero() -> (r: Point)
        ensures
            r == Point::spec_zero(),
    {
        Point { x: Abs::zero(), y: Abs::zero() }
    }

    /// A point from its two coordinates.
    pub fn new(x: Abs, y: Abs) -> (r: Point)
        ensures
            r == (Point { x, y }),
    {
        Point { x, y }
    }

    /// A point on the horizontal axis.
    pub fn with_x(x: Abs) -> (r: Point)
        ensures
            r == (Point { x, y: Abs::spec_zero() }),
    {
        Point { x, y: Abs::zero() }
    }

    /// A point on the vertical axis.
    pub fn with_y(y: Abs) -> (r: Point)
        ensures
            r == (Point { x: Abs::spec_zero(), y }),
    {
        Point { x: Abs::zero(), y }
    }

    /// Whether both coordinates are zero.
    pub fn is_zero(self) -> (r: bool)
        ensures
            r == (self == Point::spec_zero()),
    {
        self.x.is_zero() && self.y.is_zero()
    }

    /// Moves the point by `offset`.
    #[verifier::when_used_as_spec(spec_plus)]
    pub fn plus(self, offset: Point) -> (r: Point)
        ensures
            r == self.spec_plus(offset),
    {
        Point { x: self.x.plus(offset.x), y: self.y.plus(offset.y) }
    }
}

/// A width and a height.
#[derive(Clone, Copy, Debug, PartialEq, Eq, Hash, Structural)]
pub struct Size {
    /// The width.
    pub x: Abs,
    /// The height.
    pub y: Abs,
}

impl Size {
    /// The size with no extent.
    pub open spec fn spec_zero() -> Size {
        Size { x: Abs::spec_zero(), y: Abs::spec_zero() }
    }

    /// The size with no extent.
    #[verifier::when_used_as_spec(spec_zero)]
    pub fn zero() -> (r: Size)
        ensures
            r == Size::spec_zero(),
    {
        Size { x: Abs::zero(), y: Abs::zero() }
    }

    /// A size from its width and its height.
    pub fn new(x: Abs, y: Abs) -> (r: Size)
        ensures
            r == (Size { x, y }),
    {
        Size { x, y }
    }

    /// The bottom right corner of a region of this size placed at the origin.
    pub fn to_point(self) -> (r: Point)
        ensures
            r == (Point { x: self.x, y: self.y }),
    {
        Point { x: self.x, y: self.y }
    }
}

/// A pair of alignments, one for the horizontal and one for the vertical
/// axis.
#[derive(Clone, Copy, Debug, PartialEq, Eq, Hash, Structural)]
pub struct Axes {
    /// The alignment along the horizontal axis.
    pub x: Align,
    /// The alignment along the vertical axis.
    pub y: Align,
}

impl Axes {
    /// A pair from its two components.
    pub fn new(x: Align, y: Align) -> (r: Axes)
        ensures
            r == (Axes { x, y }),
    {
        Axes { x, y }
    }
}

/// Where to align something along an axis.
#[derive(Clone, Copy, Debug, PartialEq, Eq, Hash, Structural)]
pub enum Align {
    /// Align at the left side.
    Left,
    /// Align in the horizontal middle.
    Center,
    /// Align at the right side.
    Right,
    /// Align at the top side.
    Top,
    /// Align in the vertical middle.
    Horizon,
    /// Align at the bottom side.
    Bottom,
}

impl Align {
    /// The offset of the aligned item when `extent` of free space is left on
    /// the axis: nothing at the start, half of it in the middle, all of it at
    /// the end.
    pub open spec fn spec_position(self, extent: Abs) -> Abs {
        match self {
            Align::Left | Align::Top => Abs::spec_zero(),
            Align::Center | Align::Horizon => extent.spec_half(),
            Align::Right | Align::Bottom => extent,
        }
    }

    /// Whether this alignment belongs to the horizontal axis.
    pub fn is_horizontal(self) -> (r: bool)
        ensures
            r == (self is Left || self is Center || self is Right),
    {
        match self {
            Align::Left | Align::Center | Align::Right => true,
            Align::Top | Align::Horizon | Align::Bottom => false,
        }
    }

    /// The offset at which to place an item that leaves `extent` of free
    /// space on the axis.
    #[verifier::when_used_as_spec(spec_position)]
    pub fn position(self, extent: Abs) -> (r: Abs)
        ensures
            r == self.spec_position(extent),
    {
        match self {
            Align::Left | Align::Top => Abs::zero(),
            Align::Center | Align::Horizon => extent.half(),
            Align::Right | Align::Bottom => extent,
        }
    }
}

/// The four directions into which text and content can be laid out.
#[derive(Clone, Copy, Debug, PartialEq, Eq, Hash, Structural)]
pub enum Dir {
    /// Left to right.
    LTR,
    /// Right to left.
    RTL,
    /// Top to bottom.
    TTB,
    /// Bottom to top.
    BTT,
}

/// A scale-skew-translate transformation.
#[derive(Clone, Copy, Debug, PartialEq, Eq, Hash, Structural)]
pub struct Transform {
    pub sx: Ratio,
    pub ky: Ratio,
    pub kx: Ratio,
    pub sy: Ratio,
    pub tx: Abs,
    pub ty: Abs,
}

impl Transform {
    /// The transformation that leaves everything where it is.
    pub open spec fn spec_identity() -> Transform {
        Transform {
            sx: Ratio::spec_one(),
            ky: Ratio::spec_zero(),
            kx: Ratio::spec_zero(),
            sy: Ratio::spec_one(),
            tx: Abs::spec_zero(),
            ty: Abs::spec_zero(),
        }
    }

    /// The identity transformation.
    #[verifier::when_used_as_spec(spec_identity)]
    pub fn identity() -> (r: Transform)
        ensures
            r == Transform::spec_identity(),
    {
        Transform {
            sx: Ratio::one(),
            ky: Ratio::zero(),
            kx: Ratio::zero(),
            sy: Ratio::one(),
            tx: Abs::zero(),
            ty: Abs::zero(),
        }
    }

    /// A pure translation.
    pub fn translate(tx: Abs, ty: Abs) -> (r: Transform)
        ensures
            r == (Transform { tx, ty, ..Transform::spec_identity() }),
    {
        Transform { tx, ty, ..Transform::identity() }
    }

    /// A pure scaling.
    pub fn scale(sx: Ratio, sy: Ratio) -> (r: Transform)
        ensures
            r == (Transform { sx, sy, ..Transform::spec_identity() }),
    {
        Transform { sx, sy, ..Transform::identity() }
    }

    /// Whether this is the identity transformation.
    pub fn is_identity(self) -> (r: bool)
        ensures
            r == (self == Transform::spec_identity()),
    {
        self == Transform::identity()
    }
}

/// An 8-bit RGBA color.
#[derive(Clone, Copy, Debug, PartialEq, Eq, Hash, Structural)]
pub struct Color {
    pub r: u8,
    pub g: u8,
    pub b: u8,
    pub a: u8,
}

impl Color {
    /// An opaque color from its red, green and blue components.
    pub fn rgb(r: u8, g: u8, b: u8) -> (c: Color)
        ensures
            c == (Color { r, g, b, a: 255 }),
    {
        Color { r, g, b, a: 255 }
    }
}

/// How a fill or stroke should be painted.
#[derive(Clone, Copy, Debug, PartialEq, Eq, Hash, Structural)]
pub enum Paint {
    /// A solid color.
    Solid(Color),
}

/// The outline of a shape.
#[derive(Clone, Copy, Debug, PartialEq, Eq, Hash, Structural)]
pub struct Stroke {
    /// The stroke's paint.
    pub paint: Paint,
    /// The stroke's thickness.
    pub thickness: Abs,
}

/// The form of a shape.
#[derive(Clone, Copy, Debug, PartialEq, Eq, Hash, Structural)]
pub enum Geometry {
    /// A line to a point, relative to its position.
    Line(Point),
    /// A rectangle with its origin in the top left corner.
    Rect(Size),
    /// An ellipse with its origin in the top left corner.
    Ellipse(Size),
}

/// A geometric shape with optional fill and stroke.
#[derive(Clone, Copy, Debug, PartialEq, Eq, Hash, Structural)]
pub struct Shape {
    /// The shape's geometry.
    pub geometry: Geometry,
    /// The shape's background fill.
    pub fill: Option<Paint>,
    /// The shape's border stroke.
    pub stroke: Option<Stroke>,
}

} // verus!
