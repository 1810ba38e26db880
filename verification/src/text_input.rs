//! The appearance of a text input.

use vstd::prelude::*;
use crate::color::{percent, Background, Color};
use crate::theme::Theme;

verus! {

/// The corner radius of a themed text input, in pixels.
pub const BORDER_RADIUS: u16 = 2;

/// The border width of a themed text input that is hovered or focused, in
/// pixels.
pub const OUTLINE_WIDTH: u16 = 1;

/// The opacity of the outline of a themed text input under the pointer, in
/// percent.
pub const HOVERED_OPACITY: u8 = 30;

/// The intensity of the gray of a placeholder, in percent.
pub const PLACEHOLDER_GRAY: u8 = 40;

/// What a text input is doing. A text input is in exactly one of these
/// states.
#[derive(Clone, Copy, Debug, PartialEq, Eq, Structural)]
pub enum State {
    /// At rest.
    Active,
    /// Holding the keyboard focus.
    Focused,
    /// Under the pointer.
    Hovered,
}

impl Default for State {
    /// A text input starts at rest.
    fn default() -> (state: State)
        ensures
            state == State::Active,
    {
        State::Active
    }
}

/// The drawing attributes of a text input.
#[derive(Clone, Copy, Debug, PartialEq, Eq, Structural)]
pub struct Style {
    /// The fill.
    pub background: Background,
    /// The corner radius, in pixels.
    pub border_radius: u16,
    /// The border width, in pixels.
    pub border_width: u16,
    /// The border color.
    pub border_color: Color,
}

impl Style {
    /// Every color in the style has its channels in range.
    pub open spec fn is_populated(&self) -> bool {
        &&& self.background.color().is_valid()
        &&& self.border_color.is_valid()
    }
}

/// The capability of styling text inputs: one style for each state and
/// three colors for the text, each a function of the sheet alone.
pub trait StyleSheet {
    /// The style of a text input at rest.
    spec fn spec_active(&self) -> Style;

    /// The style of a text input that holds the focus.
    spec fn spec_focused(&self) -> Style;

    /// The style of a text input under the pointer.
    spec fn spec_hovered(&self) -> Style;

    /// The color of the placeholder.
    spec fn spec_placeholder_color(&self) -> Color;

    /// The color of the text that was typed.
    spec fn spec_value_color(&self) -> Color;

    /// The color behind selected text.
    spec fn spec_selection_color(&self) -> Color;

    /// Produces the style of a text input at rest.
    fn active(&self) -> (style: Style)
        ensures
            style == self.spec_active(),
    ;

    /// Produces the style of a text input that holds the focus.
    fn focused(&self) -> (style: Style)
        ensures
            style == self.spec_focused(),
    ;

    /// Produces the style of a text input under the pointer.
    fn hovered(&self) -> (style: Style)
        ensures
            style == self.spec_hovered(),
    ;

    /// Produces the color of the placeholder.
    fn placeholder_color(&self) -> (color: Color)
        ensures
            color == self.spec_placeholder_color(),
    ;

    /// Produces the color of the text that was typed.
    fn value_color(&self) -> (color: Color)
        ensures
            color == self.spec_value_color(),
    ;

    /// Produces the color behind selected text.
    fn selection_color(&self) -> (color: Color)
        ensures
            color == self.spec_selection_color(),
    ;
}

/// The style that a sheet gives a text input in the given state.
pub open spec fn resolved<S: StyleSheet + ?Sized>(sheet: &S, state: State) -> Style {
    match state {
        State::Active => sheet.spec_active(),
        State::Focused => sheet.spec_focused(),
        State::Hovered => sheet.spec_hovered(),
    }
}

/// Produces the style that a sheet gives a text input in the given state.
pub fn resolve<S: StyleSheet + ?Sized>(sheet: &S, state: State) -> (style: Style)
    ensures
        style == resolved(sheet, state),
{
    match state {
        State::Active => sheet.active(),
        State::Focused => sheet.focused(),
        State::Hovered => sheet.hovered(),
    }
}

impl StyleSheet for Theme {
    /// At rest a text input is filled with the palette's surface color and
    /// has rounded corners and no border.
    open spec fn spec_active(&self) -> Style {
        Style {
            background: Background::Color(self.colors().surface()),
            border_radius: BORDER_RADIUS,
            border_width: 0,
            border_color: Color::transparent(),
        }
    }

    /// With the focus, the input is outlined in the palette's accent color.
    open spec fn spec_focused(&self) -> Style {
        Style {
            background: Background::Color(self.colors().surface()),
            border_radius: BORDER_RADIUS,
            border_width: OUTLINE_WIDTH,
            border_color: self.colors().accent(),
        }
    }

    /// Under the pointer, the outline is the accent color at 30 percent
    /// opacity.
    open spec fn spec_hovered(&self) -> Style {
        Style {
            background: Background::Color(self.colors().surface()),
            border_radius: BORDER_RADIUS,
            border_width: OUTLINE_WIDTH,
            border_color: self.colors().accent().with_alpha(percent(30)),
        }
    }

    /// A placeholder is written in an opaque gray of 40 percent intensity,
    /// whatever the palette.
    open spec fn spec_placeholder_color(&self) -> Color {
        Color::from_rgb(percent(40), percent(40), percent(40))
    }

    /// Typed text is opaque white, whatever the palette.
    open spec fn spec_value_color(&self) -> Color {
        Color::white()
    }

    /// Selected text lies on the palette's accent color.
    open spec fn spec_selection_color(&self) -> Color {
        self.colors().accent()
    }

    fn active(&self) -> (style: Style) {
        Style {
            background: Background::Color(self.colors().surface()),
            border_radius: BORDER_RADIUS,
            border_width: 0,
            border_color: Color::transparent(),
        }
    }

    fn focused(&self) -> (style: Style) {
        Style {
            border_width: OUTLINE_WIDTH,
            border_color: self.colors().accent(),
            ..self.hovered()
        }
    }

    fn hovered(&self) -> (style: Style) {
        Style {
            border_width: OUTLINE_WIDTH,
            border_color: Color { a: percent(HOVERED_OPACITY), ..self.colors().accent() },
            ..self.active()
        }
    }

    fn placeholder_color(&self) -> (color: Color) {
        let gray: u16 = percent(PLACEHOLDER_GRAY);
        Color::from_rgb(gray, gray, gray)
    }

    fn value_color(&self) -> (color: Color) {
        Color::white()
    }

    fn selection_color(&self) -> (color: Color) {
        self.colors().accent()
    }
}

/// Hovering layers on the resting style: it sets the border to one pixel of
/// the accent color at 30 percent opacity, and keeps every other attribute
/// of the resting style.
pub proof fn lemma_hovered_overrides_active(theme: Theme)
    ensures
        theme.spec_hovered() == (Style {
            border_width: 1,
            border_color: theme.colors().accent().with_alpha(percent(30)),
            ..theme.spec_active()
        }),
        theme.spec_hovered().border_color.a == 1530,
        theme.spec_hovered().background == theme.spec_active().background,
        theme.spec_hovered().border_radius == theme.spec_active().border_radius,
{
}

/// Focus layers on the hovered style: it sets the border to one pixel of
/// the accent color as the palette has it, and keeps every other attribute
/// of the hovered style.
pub proof fn lemma_focused_overrides_hovered(theme: Theme)
    ensures
        theme.spec_focused() == (Style {
            border_width: 1,
            border_color: theme.colors().accent(),
            ..theme.spec_hovered()
        }),
        theme.spec_focused().background == theme.spec_hovered().background,
        theme.spec_focused().border_radius == theme.spec_hovered().border_radius,
{
}

/// The hovered and the focused style differ in the border color alone, so
/// each is the other with that one attribute replaced.
pub proof fn lemma_hovered_overrides_focused(theme: Theme)
    ensures
        theme.spec_hovered() == (Style {
            border_width: 1,
            border_color: theme.colors().accent().with_alpha(percent(30)),
            ..theme.spec_focused()
        }),
        theme.spec_hovered().border_width == theme.spec_focused().border_width,
{
}

/// A palette whose colors are in range gives a themed text input, in every
/// state, only colors that are in range, and a selection color that is in
/// range. The placeholder and the typed text are in range whatever the
/// palette.
pub proof fn lemma_resolved_is_populated(theme: Theme, state: State)
    ensures
        theme.colors().is_valid() ==> resolved(&theme, state).is_populated(),
        theme.spec_placeholder_color().is_valid(),
        theme.spec_value_color().is_valid(),
        theme.colors().is_valid() ==> theme.spec_selection_color().is_valid(),
{
}

/// The style of a themed text input is decided by the palette and the
/// state: two themes with the same palette cannot be told apart by their
/// text inputs.
pub proof fn lemma_resolved_by_palette(a: Theme, b: Theme, state: State)
    requires
        a.colors() == b.colors(),
    ensures
        resolved(&a, state) == resolved(&b, state),
        a.spec_placeholder_color() == b.spec_placeholder_color(),
        a.spec_value_color() == b.spec_value_color(),
        a.spec_selection_color() == b.spec_selection_color(),
{
}

} // verus!
