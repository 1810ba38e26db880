//! The appearance of a container.

use vstd::prelude::*;
use crate::color::{Background, Color};
use crate::theme::ThemeColors;

verus! {

/// The drawing attributes of a container.
#[derive(Clone, Copy, Debug, PartialEq, Eq)]
pub struct Style {
    /// The color of text inside the container, if the container sets one.
    pub text_color: Option<Color>,
    /// The fill, if the container has one.
    pub background: Option<Background>,
    /// The corner radius, in pixels.
    pub border_radius: u16,
    /// The border width, in pixels.
    pub border_width: u16,
    /// The border color.
    pub border_color: Color,
}

impl Style {
    /// The style of a container about which nothing has been decided: no
    /// text color, no fill, no border.
    pub open spec fn spec_default() -> Style {
        Style {
            text_color: None,
            background: None,
            border_radius: 0,
            border_width: 0,
            border_color: Color::transparent(),
        }
    }

    /// The container has a text color and a fill, and every color in the
    /// style has its channels in range.
    pub open spec fn is_populated(&self) -> bool {
        &&& self.text_color matches Some(text) && text.is_valid()
        &&& self.background matches Some(fill) && fill.color().is_valid()
        &&& self.border_color.is_valid()
    }
}

impl Default for Style {
    fn default() -> (style: Style)
        ensures
            style == Style::spec_default(),
    {
        Style {
            text_color: None,
            background: None,
            border_radius: 0,
            border_width: 0,
            border_color: Color::transparent(),
        }
    }
}

/// The capability of styling containers. A container has no states, so a
/// sheet gives it one style.
pub trait StyleSheet {
    /// The style of a container.
    spec fn spec_style(&self) -> Style;

    /// Produces the style of a container.
    fn style(&self) -> (style: Style)
        ensures
            style == self.spec_style(),
    ;
}

impl StyleSheet for ThemeColors {
    /// A container is filled with the palette's background color and sets
    /// its text color; it has square corners and no border.
    open spec fn spec_style(&self) -> Style {
        Style {
            text_color: Some(self.text()),
            background: Some(Background::Color(self.background())),
            border_radius: 0,
            border_width: 0,
            border_color: Color::transparent(),
        }
    }

    fn style(&self) -> (style: Style) {
        Style {
            background: Some(Background::Color(self.background())),
            text_color: Some(self.text()),
            ..Style::default()
        }
    }
}

/// A themed container differs from an undecided one in its fill and its
/// text color and in nothing else.
pub proof fn lemma_style_overrides_default(colors: ThemeColors)
    ensures
        colors.spec_style() == (Style {
            background: Some(Background::Color(colors.background())),
            text_color: Some(colors.text()),
            ..Style::spec_default()
        }),
{
}

/// A themed container has a fill and a text color, whatever the palette;
/// and a palette whose colors are in range gives only colors that are in
/// range.
pub proof fn lemma_style_is_populated(colors: ThemeColors)
    ensures
        colors.spec_style().background is Some,
        colors.spec_style().text_color is Some,
        colors.is_valid() ==> colors.spec_style().is_populated(),
{
}

} // verus!
