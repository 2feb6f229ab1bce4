use vstd::prelude::*;

verus! {

/// A single-precision float carried by its bit pattern.
///
/// The session forwards coordinates, radii and colour channels to the backend
/// untouched, so it only ever needs to hold and compare their bits.
#[derive(Clone, Copy, Debug, PartialEq, Eq, Structural)]
pub struct Scalar {
    pub bits: u32,
}

/// Bit pattern of `0.0f32`.
pub const ZERO_BITS: u32 = 0x0000_0000;

/// Bit pattern of `1.0f32`.
pub const ONE_BITS: u32 = 0x3F80_0000;

/// Bit pattern of `10.0f32`.
pub const TEN_BITS: u32 = 0x4120_0000;

impl Scalar {
    pub open spec fn view(self) -> u32 {
        self.bits
    }

    pub fn from_bits(bits: u32) -> (s: Scalar)
        ensures
            s@ == bits,
    {
        Scalar { bits }
    }

    pub fn to_bits(&self) -> (bits: u32)
        ensures
            bits == self@,
    {
        self.bits
    }
}

/// A colour as four channels (red, green, blue, alpha), normally in `[0, 1]`.
/// Out-of-range channels are kept as given; the backend decides what they mean.
#[derive(Clone, Copy, Debug, PartialEq, Eq, Structural)]
pub struct Color {
    pub r: Scalar,
    pub g: Scalar,
    pub b: Scalar,
    pub a: Scalar,
}

impl Color {
    pub fn new(r: Scalar, g: Scalar, b: Scalar, a: Scalar) -> (c: Color)
        ensures
            c == (Color { r, g, b, a }),
    {
        Color { r, g, b, a }
    }

    pub fn red(&self) -> (v: Scalar)
        ensures
            v == self.r,
    {
        self.r
    }

    pub fn green(&self) -> (v: Scalar)
        ensures
            v == self.g,
    {
        self.g
    }

    pub fn blue(&self) -> (v: Scalar)
        ensures
            v == self.b,
    {
        self.b
    }

    pub fn alpha(&self) -> (v: Scalar)
        ensures
            v == self.a,
    {
        self.a
    }

    pub fn set_red(&mut self, red: Scalar)
        ensures
            *final(self) == (Color { r: red, ..*old(self) }),
    {
        self.r = red;
    }

    pub fn set_green(&mut self, green: Scalar)
        ensures
            *final(self) == (Color { g: green, ..*old(self) }),
    {
        self.g = green;
    }

    pub fn set_blue(&mut self, blue: Scalar)
        ensures
            *final(self) == (Color { b: blue, ..*old(self) }),
    {
        self.b = blue;
    }

    pub fn set_alpha(&mut self, alpha: Scalar)
        ensures
            *final(self) == (Color { a: alpha, ..*old(self) }),
    {
        self.a = alpha;
    }
}

/// A gradient or image pattern, as the backend describes it: a 2x3 transform,
/// an extent, a corner radius, a feather width, two colours and an image id.
/// The session treats it as an immutable record.
#[derive(Clone, Copy, Debug, PartialEq, Eq)]
pub struct Paint {
    pub xform: (Scalar, Scalar, Scalar, Scalar, Scalar, Scalar),
    pub extent: (Scalar, Scalar),
    pub radius: Scalar,
    pub feather: Scalar,
    pub inner_color: Color,
    pub outer_color: Color,
    pub image: i32,
}

/// What a fill or a stroke is coloured with.
#[derive(Clone, Copy, Debug, PartialEq, Eq)]
pub enum ColoringStyle {
    Color(Color),
    Paint(Paint),
}

/// How a path is stroked: its colouring, its line width and its miter limit.
#[derive(Clone, Copy, Debug, PartialEq, Eq)]
pub struct StrokeStyle {
    pub coloring_style: ColoringStyle,
    pub width: Scalar,
    pub miter_limit: Scalar,
}

impl Default for StrokeStyle {
    /// Opaque red, width `1.0`, miter limit `10.0`.
    fn default() -> (s: StrokeStyle)
        ensures
            s.coloring_style == ColoringStyle::Color(
                Color {
                    r: Scalar { bits: ONE_BITS },
                    g: Scalar { bits: ZERO_BITS },
                    b: Scalar { bits: ZERO_BITS },
                    a: Scalar { bits: ONE_BITS },
                },
            ),
            s.width@ == ONE_BITS,
            s.miter_limit@ == TEN_BITS,
    {
        let one = Scalar::from_bits(ONE_BITS);
        let zero = Scalar::from_bits(ZERO_BITS);
        StrokeStyle {
            coloring_style: ColoringStyle::Color(Color::new(one, zero, zero, one)),
            width: one,
            miter_limit: Scalar::from_bits(TEN_BITS),
        }
    }
}

/// Winding of a sub-path, which decides how overlapping contours are filled
/// (a counter-clockwise contour inside a clockwise one cuts a hole).
#[derive(Clone, Copy, Debug, PartialEq, Eq, Structural)]
pub enum Direction {
    Clockwise,
    CounterClockwise,
}

/// The backend's code for counter-clockwise winding.
pub const WINDING_CCW: i32 = 1;

/// The backend's code for clockwise winding.
pub const WINDING_CW: i32 = 2;

impl Direction {
    pub open spec fn spec_into_raw(self) -> i32 {
        match self {
            Direction::Clockwise => WINDING_CW,
            Direction::CounterClockwise => WINDING_CCW,
        }
    }

    /// The winding code the backend takes for this direction.
    pub fn into_raw(self) -> (code: i32)
        ensures
            code == self.spec_into_raw(),
    {
        match self {
            Direction::Clockwise => WINDING_CW,
            Direction::CounterClockwise => WINDING_CCW,
        }
    }
}

} // verus!
