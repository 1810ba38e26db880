//! The appearance of a rule: the line that divides content.

use vstd::prelude::*;
use crate::color::Color;
use crate::theme::Theme;

verus! {

/// The thickness of a themed rule, in pixels.
pub const WIDTH: u16 = 2;

/// The corner radius of a themed rule, in pixels.
pub const RADIUS: u16 = 1;

/// The space that a themed rule leaves free at each of its ends, in pixels.
pub const PADDING: u16 = 15;

/// How much of the length of its container a rule takes.
#[derive(Clone, Copy, Debug, PartialEq, Eq, Structural)]
pub enum FillMode {
    /// The whole length.
    Full,
    /// A percentage of the length, centered.
    Percent(u8),
    /// The length less the same number of pixels at each end.
    Padded(u16),
    /// The length less a number of pixels at the first end and another at
    /// the second.
    AsymmetricPadding(u16, u16),
}

/// The drawing attributes of a rule.
#[derive(Clone, Copy, Debug, PartialEq, Eq, Structural)]
pub struct Style {
    /// The color of the line.
    pub color: Color,
    /// The thickness of the line, in pixels.
    pub width: u16,
    /// The corner radius of the line, in pixels.
    pub radius: u16,
    /// How much of the length of the container the line takes.
    pub fill_mode: FillMode,
}

impl Style {
    /// The color of the line has its channels in range.
    pub open spec fn is_populated(&self) -> bool {
        self.color.is_valid()
    }
}

/// The capability of styling rules. A rule has no states, so a sheet gives
/// it one style.
pub trait StyleSheet {
    /// The style of a rule.
    spec fn spec_style(&self) -> Style;

    /// Produces the style of a rule.
    fn style(&self) -> (style: Style)
        ensures
            style == self.spec_style(),
    ;
}

impl StyleSheet for Theme {
    /// A rule is a line of the palette's surface color, two pixels thick
    /// with rounded ends, that stops fifteen pixels short of each end of
    /// its container.
    open spec fn spec_style(&self) -> Style {
        Style {
            color: self.colors().surface(),
            width: 2,
            radius: 1,
            fill_mode: FillMode::Padded(15),
        }
    }

    fn style(&self) -> (style: Style) {
        Style {
            color: self.colors().surface(),
            width: WIDTH,
            radius: RADIUS,
            fill_mode: FillMode::Padded(PADDING),
        }
    }
}

/// A palette whose colors are in range gives a themed rule a color that is
/// in range.
pub proof fn lemma_style_is_populated(theme: Theme)
    ensures
        theme.colors().is_valid() ==> theme.spec_style().is_populated(),
{
}

/// The style of a themed rule is decided by the palette: two themes with
/// the same palette cannot be told apart by their rules.
pub proof fn lemma_style_by_palette(a: Theme, b: Theme)
    requires
        a.colors() == b.colors(),
    ensures
        a.spec_style() == b.spec_style(),
{
}

} // verus!
