use vstd::prelude::*;

verus! {

/// Largest channel value: a channel is stored in thousandths of full
/// intensity, so 0 is none and 1000 is full.
pub const CHANNEL_MAX: u16 = 1000;

/// An RGBA color with fixed-point channels (thousandths of full
/// intensity).
#[derive(Clone, Copy, Debug, PartialEq, Eq, Structural)]
pub struct Color {
    pub r: u16,
    pub g: u16,
    pub b: u16,
    pub a: u16,
}

impl Color {
    /// Every channel is within range.
    pub open spec fn wf(self) -> bool {
        self.r <= CHANNEL_MAX && self.g <= CHANNEL_MAX && self.b <= CHANNEL_MAX
            && self.a <= CHANNEL_MAX
    }

    pub fn new(r: u16, g: u16, b: u16, a: u16) -> (c: Color)
        requires
            r <= CHANNEL_MAX,
            g <= CHANNEL_MAX,
            b <= CHANNEL_MAX,
            a <= CHANNEL_MAX,
        ensures
            c == (Color { r, g, b, a }),
            c.wf(),
    {
        Color { r, g, b, a }
    }
}

/// Full white: the healthy-battery bar color.
pub open spec fn white() -> Color {
    Color { r: 1000, g: 1000, b: 1000, a: 1000 }
}

/// Amber: the low-battery warning color.
pub open spec fn amber() -> Color {
    Color { r: 1000, g: 500, b: 0, a: 1000 }
}

/// Light green: the charging / full color.
pub open spec fn green() -> Color {
    Color { r: 500, g: 1000, b: 500, a: 1000 }
}

/// Pink: the not-charging / empty color.
pub open spec fn pink() -> Color {
    Color { r: 1000, g: 500, b: 500, a: 1000 }
}

} // verus!
