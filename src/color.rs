use vstd::prelude::*;

verus! {

/// A colour as red, green and blue intensities.
#[derive(Clone, Copy, Debug, PartialEq, Eq, Structural)]
pub struct Color {
    pub r: u8,
    pub g: u8,
    pub b: u8,
}

/// The colour of a packed integer: red, green and blue from the most to the
/// least significant of its low three bytes.
pub open spec fn unpacked_color(i: u32) -> Color {
    Color { r: ((i / 0x1_0000) % 0x100) as u8, g: ((i / 0x100) % 0x100) as u8, b: (i % 0x100) as u8 }
}

/// The packed integer of a colour: `0x00RRGGBB`.
pub open spec fn packed_color(c: Color) -> u32 {
    (c.r as u32 * 0x1_0000 + c.g as u32 * 0x100 + c.b as u32) as u32
}

/// One component scaled by `u / 255`, rounded down.
pub open spec fn scaled(u: u8, c: u8) -> u8 {
    (u as int * c as int / 255) as u8
}

/// One component of an additive blend, capped at 255.
pub open spec fn blended(a: u8, b: u8) -> u8 {
    if a + b > 255 { 255 } else { (a + b) as u8 }
}

impl From<u32> for Color {
    fn from(i: u32) -> (r: Color)
        ensures
            r == unpacked_color(i),
    {
        let r = ((i >> 16u32) & 0xff) as u8;
        let g = ((i >> 8u32) & 0xff) as u8;
        let b = (i & 0xff) as u8;
        assert((i >> 16u32) & 0xff == (i / 0x1_0000) % 0x100) by (bit_vector);
        assert((i >> 8u32) & 0xff == (i / 0x100) % 0x100) by (bit_vector);
        assert(i & 0xff == i % 0x100) by (bit_vector);
        Color { r, g, b }
    }
}

impl vstd::std_specs::convert::FromSpecImpl<u32> for Color {
    open spec fn obeys_from_spec() -> bool {
        true
    }

    open spec fn from_spec(i: u32) -> Color {
        unpacked_color(i)
    }
}

impl From<(u8, u8, u8)> for Color {
    fn from(rgb: (u8, u8, u8)) -> (r: Color)
        ensures
            r == (Color { r: rgb.0, g: rgb.1, b: rgb.2 }),
    {
        Color { r: rgb.0, g: rgb.1, b: rgb.2 }
    }
}

impl vstd::std_specs::convert::FromSpecImpl<(u8, u8, u8)> for Color {
    open spec fn obeys_from_spec() -> bool {
        true
    }

    open spec fn from_spec(rgb: (u8, u8, u8)) -> Color {
        Color { r: rgb.0, g: rgb.1, b: rgb.2 }
    }
}

impl From<Color> for u32 {
    fn from(c: Color) -> (r: u32)
        ensures
            r == packed_color(c),
    {
        let r = c.r as u32;
        let g = c.g as u32;
        let b = c.b as u32;
        assert((r << 16u32) | (g << 8u32) | b == r * 0x1_0000 + g * 0x100 + b) by (bit_vector)
            requires
                r < 256,
                g < 256,
                b < 256,
        ;
        (r << 16u32) | (g << 8u32) | b
    }
}

impl vstd::std_specs::convert::FromSpecImpl<Color> for u32 {
    open spec fn obeys_from_spec() -> bool {
        true
    }

    open spec fn from_spec(c: Color) -> u32 {
        packed_color(c)
    }
}

impl From<Color> for (u8, u8, u8) {
    fn from(c: Color) -> (r: (u8, u8, u8))
        ensures
            r == (c.r, c.g, c.b),
    {
        (c.r, c.g, c.b)
    }
}

impl vstd::std_specs::convert::FromSpecImpl<Color> for (u8, u8, u8) {
    open spec fn obeys_from_spec() -> bool {
        true
    }

    open spec fn from_spec(c: Color) -> (u8, u8, u8) {
        (c.r, c.g, c.b)
    }
}

impl Color {
    /// Scales each component by `u / 255`, rounding down.
    pub fn scale_by(&self, u: u8) -> (r: Color)
        ensures
            r.r == scaled(u, self.r),
            r.g == scaled(u, self.g),
            r.b == scaled(u, self.b),
    {
        let s = u as u32;
        let r = self.r as u32;
        let g = self.g as u32;
        let b = self.b as u32;
        assert(s * r <= 255 * 255 && s * g <= 255 * 255 && s * b <= 255 * 255) by (nonlinear_arith)
            requires
                s <= 255,
                r <= 255,
                g <= 255,
                b <= 255,
        ;
        assert(s * r / 255 <= 255 && s * g / 255 <= 255 && s * b / 255 <= 255) by (nonlinear_arith)
            requires
                s * r <= 255 * 255,
                s * g <= 255 * 255,
                s * b <= 255 * 255,
        ;
        Color { r: (s * r / 255) as u8, g: (s * g / 255) as u8, b: (s * b / 255) as u8 }
    }
}

impl std::ops::Add for Color {
    type Output = Color;

    /// Adds two colours component by component, capping each at 255.
    fn add(self, other: Color) -> (r: Color)
        ensures
            r == (Color {
                r: blended(self.r, other.r),
                g: blended(self.g, other.g),
                b: blended(self.b, other.b),
            }),
    {
        Color {
            r: self.r.saturating_add(other.r),
            g: self.g.saturating_add(other.g),
            b: self.b.saturating_add(other.b),
        }
    }
}

impl vstd::std_specs::ops::AddSpecImpl for Color {
    open spec fn obeys_add_spec() -> bool {
        true
    }

    open spec fn add_req(self, other: Color) -> bool {
        true
    }

    open spec fn add_spec(self, other: Color) -> Color {
        Color { r: blended(self.r, other.r), g: blended(self.g, other.g), b: blended(self.b, other.b) }
    }
}

/// Unpacking a packed colour gives the colour back.
pub proof fn lemma_color_round_trip(c: Color)
    ensures
        unpacked_color(packed_color(c)) == c,
{
    let (r, g, b) = (c.r as int, c.g as int, c.b as int);
    let p = r * 0x1_0000 + g * 0x100 + b;
    assert(p / 0x1_0000 == r && (p / 0x100) % 0x100 == g && p % 0x100 == b) by (nonlinear_arith)
        requires
            0 <= r < 256,
            0 <= g < 256,
            0 <= b < 256,
            p == r * 0x1_0000 + g * 0x100 + b,
    ;
}

} // verus!
