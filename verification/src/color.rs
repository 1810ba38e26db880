//! Colors on a fixed grid.
//!
//! A channel counts steps of 1/5100 of the full intensity. That grid is the
//! coarsest one on which every eight-bit level (twenty steps each) and every
//! whole percentage (fifty-one steps each) is a whole number of steps, so
//! `#7289DA` and "opacity 30%" are both exact.

use vstd::prelude::*;

verus! {

/// The number of steps in a channel at full intensity.
pub const FULL: u16 = 5100;

/// The number of steps between two neighbouring eight-bit levels.
pub const STEPS_PER_LEVEL: u16 = 20;

/// The number of steps in one percent of the full intensity.
pub const STEPS_PER_PERCENT: u16 = 51;

/// The steps that an eight-bit level stands for: level 255 is `FULL`.
pub open spec fn spec_level(n: u8) -> u16 {
    (n * STEPS_PER_LEVEL) as u16
}

/// The steps that an eight-bit level stands for.
#[verifier::when_used_as_spec(spec_level)]
pub fn level(n: u8) -> (steps: u16)
    ensures
        steps == spec_level(n),
        steps == n * 20,
        steps <= FULL,
{
    let wide: u16 = n as u16;
    wide * STEPS_PER_LEVEL
}

/// The steps that a percentage stands for: 100 percent is `FULL`.
pub open spec fn spec_percent(p: u8) -> u16 {
    (p * STEPS_PER_PERCENT) as u16
}

/// The steps that a percentage stands for. Percentages above 100 are
/// converted like any other and give a channel above `FULL`.
#[verifier::when_used_as_spec(spec_percent)]
pub fn percent(p: u8) -> (steps: u16)
    ensures
        steps == spec_percent(p),
        steps == p * 51,
        steps <= FULL <==> p <= 100,
{
    let wide: u16 = p as u16;
    wide * STEPS_PER_PERCENT
}

/// A color in the sRGB color space with an opacity.
#[derive(Clone, Copy, Debug, PartialEq, Eq, Structural)]
pub struct Color {
    /// Red, in steps.
    pub r: u16,
    /// Green, in steps.
    pub g: u16,
    /// Blue, in steps.
    pub b: u16,
    /// Opacity, in steps: 0 is fully transparent, `FULL` fully opaque.
    pub a: u16,
}

impl Color {
    /// Every channel lies between nothing and full intensity.
    pub open spec fn spec_is_valid(&self) -> bool {
        &&& self.r <= FULL
        &&& self.g <= FULL
        &&& self.b <= FULL
        &&& self.a <= FULL
    }

    /// Tells whether every channel lies between nothing and full intensity.
    #[verifier::when_used_as_spec(spec_is_valid)]
    pub fn is_valid(&self) -> (valid: bool)
        ensures
            valid == self.spec_is_valid(),
    {
        self.r <= FULL && self.g <= FULL && self.b <= FULL && self.a <= FULL
    }

    /// Opaque black.
    pub open spec fn spec_black() -> Color {
        Color { r: 0, g: 0, b: 0, a: FULL }
    }

    /// Opaque black.
    #[verifier::when_used_as_spec(spec_black)]
    pub fn black() -> (color: Color)
        ensures
            color == Color::spec_black(),
    {
        Color { r: 0, g: 0, b: 0, a: FULL }
    }

    /// Opaque white.
    pub open spec fn spec_white() -> Color {
        Color { r: FULL, g: FULL, b: FULL, a: FULL }
    }

    /// Opaque white.
    #[verifier::when_used_as_spec(spec_white)]
    pub fn white() -> (color: Color)
        ensures
            color == Color::spec_white(),
    {
        Color { r: FULL, g: FULL, b: FULL, a: FULL }
    }

    /// The color with no opacity at all.
    pub open spec fn spec_transparent() -> Color {
        Color { r: 0, g: 0, b: 0, a: 0 }
    }

    /// The color with no opacity at all.
    #[verifier::when_used_as_spec(spec_transparent)]
    pub fn transparent() -> (color: Color)
        ensures
            color == Color::spec_transparent(),
    {
        Color { r: 0, g: 0, b: 0, a: 0 }
    }

    /// The opaque color with the given channels, in steps.
    pub open spec fn spec_from_rgb(r: u16, g: u16, b: u16) -> Color {
        Color { r, g, b, a: FULL }
    }

    /// The opaque color with the given channels, in steps.
    #[verifier::when_used_as_spec(spec_from_rgb)]
    pub fn from_rgb(r: u16, g: u16, b: u16) -> (color: Color)
        ensures
            color == Color::spec_from_rgb(r, g, b),
    {
        Color { r, g, b, a: FULL }
    }

    /// The opaque color with the given eight-bit levels.
    pub open spec fn spec_from_rgb8(r: u8, g: u8, b: u8) -> Color {
        Color { r: spec_level(r), g: spec_level(g), b: spec_level(b), a: FULL }
    }

    /// The opaque color with the given eight-bit levels, as in `#RRGGBB`.
    #[verifier::when_used_as_spec(spec_from_rgb8)]
    pub fn from_rgb8(r: u8, g: u8, b: u8) -> (color: Color)
        ensures
            color == Color::spec_from_rgb8(r, g, b),
            color.is_valid(),
    {
        Color { r: level(r), g: level(g), b: level(b), a: FULL }
    }

    /// This color with its opacity replaced.
    pub open spec fn spec_with_alpha(self, a: u16) -> Color {
        Color { a, ..self }
    }

    /// This color with its opacity replaced and its other channels kept.
    #[verifier::when_used_as_spec(spec_with_alpha)]
    pub fn with_alpha(self, a: u16) -> (color: Color)
        ensures
            color == self.spec_with_alpha(a),
            color.r == self.r,
            color.g == self.g,
            color.b == self.b,
            color.a == a,
    {
        Color { a, ..self }
    }
}

/// What fills the inside of a widget.
#[derive(Clone, Copy, Debug, PartialEq, Eq, Structural)]
pub enum Background {
    /// A solid color.
    Color(Color),
}

impl Background {
    /// The color that the background is made of.
    pub open spec fn spec_color(self) -> Color {
        match self {
            Background::Color(color) => color,
        }
    }

    /// The color that the background is made of.
    #[verifier::when_used_as_spec(spec_color)]
    pub fn color(self) -> (color: Color)
        ensures
            color == self.spec_color(),
            self == Background::Color(color),
    {
        match self {
            Background::Color(color) => color,
        }
    }
}

} // verus!
