//! The appearance of a radio button.

use vstd::prelude::*;
use crate::color::{percent, Background, Color};
use crate::theme::Theme;

verus! {

/// The border width of a themed radio button, in pixels.
pub const BORDER_WIDTH: u16 = 1;

/// The opacity of the fill of a themed radio button under the pointer, in
/// percent.
pub const HOVERED_OPACITY: u8 = 50;

/// What a radio button is doing. A radio button is in exactly one of these
/// states.
#[derive(Clone, Copy, Debug, PartialEq, Eq, Structural)]
pub enum State {
    /// At rest.
    Active,
    /// Under the pointer.
    Hovered,
}

impl Default for State {
    /// A radio button starts at rest.
    fn default() -> (state: State)
        ensures
            state == State::Active,
    {
        State::Active
    }
}

/// The drawing attributes of a radio button.
#[derive(Clone, Copy, Debug, PartialEq, Eq)]
pub struct Style {
    /// The fill of the circle.
    pub background: Background,
    /// The color of the dot that marks the chosen option.
    pub dot_color: Color,
    /// The border width, in pixels.
    pub border_width: u16,
    /// The border color.
    pub border_color: Color,
    /// The color of the label, if the radio button sets one.
    pub text_color: Option<Color>,
}

impl Style {
    /// The radio button has a text color, and every color in the style has
    /// its channels in range.
    pub open spec fn is_populated(&self) -> bool {
        &&& self.background.color().is_valid()
        &&& self.dot_color.is_valid()
        &&& self.border_color.is_valid()
        &&& self.text_color matches Some(text) && text.is_valid()
    }
}

/// The capability of styling radio buttons: one style for each state, each
/// a function of the sheet alone.
pub trait StyleSheet {
    /// The style of a radio button at rest.
    spec fn spec_active(&self) -> Style;

    /// The style of a radio button under the pointer.
    spec fn spec_hovered(&self) -> Style;

    /// Produces the style of a radio button at rest.
    fn active(&self) -> (style: Style)
        ensures
            style == self.spec_active(),
    ;

    /// Produces the style of a radio button under the pointer.
    fn hovered(&self) -> (style: Style)
        ensures
            style == self.spec_hovered(),
    ;
}

/// The style that a sheet gives a radio button in the given state.
pub open spec fn resolved<S: StyleSheet + ?Sized>(sheet: &S, state: State) -> Style {
    match state {
        State::Active => sheet.spec_active(),
        State::Hovered => sheet.spec_hovered(),
    }
}

/// Produces the style that a sheet gives a radio button in the given state.
pub fn resolve<S: StyleSheet + ?Sized>(sheet: &S, state: State) -> (style: Style)
    ensures
        style == resolved(sheet, state),
{
    match state {
        State::Active => sheet.active(),
        State::Hovered => sheet.hovered(),
    }
}

impl StyleSheet for Theme {
    /// At rest a radio button is filled with the palette's surface color;
    /// its dot and its border have the active color.
    open spec fn spec_active(&self) -> Style {
        Style {
            background: Background::Color(self.colors().surface()),
            dot_color: self.colors().active(),
            border_width: BORDER_WIDTH,
            border_color: self.colors().active(),
            text_color: Some(self.colors().text()),
        }
    }

    /// Under the pointer the fill is the surface color at half opacity.
    open spec fn spec_hovered(&self) -> Style {
        Style {
            background: Background::Color(self.colors().surface().with_alpha(percent(50))),
            dot_color: self.colors().active(),
            border_width: BORDER_WIDTH,
            border_color: self.colors().active(),
            text_color: Some(self.colors().text()),
        }
    }

    fn active(&self) -> (style: Style) {
        Style {
            background: Background::Color(self.colors().surface()),
            text_color: Some(self.colors().text()),
            dot_color: self.colors().active(),
            border_width: BORDER_WIDTH,
            border_color: self.colors().active(),
        }
    }

    fn hovered(&self) -> (style: Style) {
        Style {
            background: Background::Color(
                Color { a: percent(HOVERED_OPACITY), ..self.colors().surface() },
            ),
            ..self.active()
        }
    }
}

/// Hovering layers on the resting style: it replaces the fill by the
/// surface color at half opacity, and keeps every other attribute of the
/// resting style.
pub proof fn lemma_hovered_overrides_active(theme: Theme)
    ensures
        theme.spec_hovered() == (Style {
            background: Background::Color(theme.colors().surface().with_alpha(percent(50))),
            ..theme.spec_active()
        }),
        theme.spec_hovered().background.color().a == 2550,
        theme.spec_hovered().dot_color == theme.spec_active().dot_color,
        theme.spec_hovered().border_width == theme.spec_active().border_width,
        theme.spec_hovered().border_color == theme.spec_active().border_color,
        theme.spec_hovered().text_color == theme.spec_active().text_color,
{
}

/// In every state a themed radio button has a text color, whatever the
/// palette; and a palette whose colors are in range gives only colors that
/// are in range.
pub proof fn lemma_resolved_is_populated(theme: Theme, state: State)
    ensures
        resolved(&theme, state).text_color is Some,
        theme.colors().is_valid() ==> resolved(&theme, state).is_populated(),
{
}

/// The style of a themed radio button is decided by the palette and the
/// state: two themes with the same palette cannot be told apart by their
/// radio buttons.
pub proof fn lemma_resolved_by_palette(a: Theme, b: Theme, state: State)
    requires
        a.colors() == b.colors(),
    ensures
        resolved(&a, state) == resolved(&b, state),
{
}

} // verus!
