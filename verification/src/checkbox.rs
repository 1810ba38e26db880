//! The appearance of a checkbox.

use vstd::prelude::*;
use crate::color::{percent, Background, Color};
use crate::theme::Theme;

verus! {

/// The corner radius of a themed checkbox, in pixels.
pub const BORDER_RADIUS: u16 = 2;

/// The border width of a themed checkbox, in pixels.
pub const BORDER_WIDTH: u16 = 1;

/// The opacity of the fill of a themed checkbox under the pointer, in
/// percent.
pub const HOVERED_OPACITY: u8 = 80;

/// What a checkbox is doing. A checkbox is in exactly one of these states,
/// and in each of them it is either checked or not.
#[derive(Clone, Copy, Debug, PartialEq, Eq, Structural)]
pub enum State {
    /// At rest.
    Active,
    /// Under the pointer.
    Hovered,
}

impl Default for State {
    /// A checkbox starts at rest.
    fn default() -> (state: State)
        ensures
            state == State::Active,
    {
        State::Active
    }
}

/// The drawing attributes of a checkbox.
#[derive(Clone, Copy, Debug, PartialEq, Eq)]
pub struct Style {
    /// The fill of the box.
    pub background: Background,
    /// The color of the mark in a checked box.
    pub checkmark_color: Color,
    /// The corner radius, in pixels.
    pub border_radius: u16,
    /// The border width, in pixels.
    pub border_width: u16,
    /// The border color.
    pub border_color: Color,
    /// The color of the label, if the checkbox sets one.
    pub text_color: Option<Color>,
}

impl Style {
    /// The checkbox has a text color, and every color in the style has its
    /// channels in range.
    pub open spec fn is_populated(&self) -> bool {
        &&& self.background.color().is_valid()
        &&& self.checkmark_color.is_valid()
        &&& self.border_color.is_valid()
        &&& self.text_color matches Some(text) && text.is_valid()
    }
}

/// The capability of styling checkboxes: one style for each state of a
/// checked and of an unchecked box, each a function of the sheet and of
/// whether the box is checked.
pub trait StyleSheet {
    /// The style of a checkbox at rest.
    spec fn spec_active(&self, is_checked: bool) -> Style;

    /// The style of a checkbox under the pointer.
    spec fn spec_hovered(&self, is_checked: bool) -> Style;

    /// Produces the style of a checkbox at rest.
    fn active(&self, is_checked: bool) -> (style: Style)
        ensures
            style == self.spec_active(is_checked),
    ;

    /// Produces the style of a checkbox under the pointer.
    fn hovered(&self, is_checked: bool) -> (style: Style)
        ensures
            style == self.spec_hovered(is_checked),
    ;
}

/// The style that a sheet gives a checkbox in the given state.
pub open spec fn resolved<S: StyleSheet + ?Sized>(
    sheet: &S,
    state: State,
    is_checked: bool,
) -> Style {
    match state {
        State::Active => sheet.spec_active(is_checked),
        State::Hovered => sheet.spec_hovered(is_checked),
    }
}

/// Produces the style that a sheet gives a checkbox in the given state.
pub fn resolve<S: StyleSheet + ?Sized>(sheet: &S, state: State, is_checked: bool) -> (style:
    Style)
    ensures
        style == resolved(sheet, state, is_checked),
{
    match state {
        State::Active => sheet.active(is_checked),
        State::Hovered => sheet.hovered(is_checked),
    }
}

/// The color that fills a themed checkbox before its state is looked at:
/// the palette's active color in a checked box, its surface color in an
/// unchecked one.
pub open spec fn spec_fill(theme: &Theme, is_checked: bool) -> Color {
    if is_checked {
        theme.colors().active()
    } else {
        theme.colors().surface()
    }
}

/// Chooses the color that fills a themed checkbox before its state is
/// looked at.
#[verifier::when_used_as_spec(spec_fill)]
pub fn fill(theme: &Theme, is_checked: bool) -> (color: Color)
    ensures
        color == spec_fill(theme, is_checked),
        is_checked ==> color == theme.colors().active(),
        !is_checked ==> color == theme.colors().surface(),
{
    if is_checked {
        theme.colors().active()
    } else {
        theme.colors().surface()
    }
}

impl StyleSheet for Theme {
    /// At rest a checkbox is filled by the color chosen for it; the mark has
    /// the palette's text color and the border its active color.
    open spec fn spec_active(&self, is_checked: bool) -> Style {
        Style {
            background: Background::Color(fill(self, is_checked)),
            checkmark_color: self.colors().text(),
            border_radius: BORDER_RADIUS,
            border_width: BORDER_WIDTH,
            border_color: self.colors().active(),
            text_color: Some(self.colors().text()),
        }
    }

    /// Under the pointer the fill is the chosen color at 80 percent opacity.
    open spec fn spec_hovered(&self, is_checked: bool) -> Style {
        Style {
            background: Background::Color(fill(self, is_checked).with_alpha(percent(80))),
            checkmark_color: self.colors().text(),
            border_radius: BORDER_RADIUS,
            border_width: BORDER_WIDTH,
            border_color: self.colors().active(),
            text_color: Some(self.colors().text()),
        }
    }

    fn active(&self, is_checked: bool) -> (style: Style) {
        Style {
            background: Background::Color(fill(self, is_checked)),
            text_color: Some(self.colors().text()),
            checkmark_color: self.colors().text(),
            border_radius: BORDER_RADIUS,
            border_width: BORDER_WIDTH,
            border_color: self.colors().active(),
        }
    }

    fn hovered(&self, is_checked: bool) -> (style: Style) {
        Style {
            background: Background::Color(
                Color { a: percent(HOVERED_OPACITY), ..fill(self, is_checked) },
            ),
            ..self.active(is_checked)
        }
    }
}

/// The fill of a themed checkbox follows the check: at rest a checked box
/// has the palette's active color and an unchecked one its surface color;
/// under the pointer each has the same color at 80 percent opacity.
pub proof fn lemma_fill_follows_check(theme: Theme)
    ensures
        theme.spec_active(true).background == Background::Color(theme.colors().active()),
        theme.spec_active(false).background == Background::Color(theme.colors().surface()),
        theme.spec_hovered(true).background == Background::Color(
            theme.colors().active().with_alpha(percent(80)),
        ),
        theme.spec_hovered(false).background == Background::Color(
            theme.colors().surface().with_alpha(percent(80)),
        ),
        theme.spec_hovered(true).background.color().a == 4080,
        theme.spec_hovered(false).background.color().a == 4080,
{
}

/// Hovering layers on the resting style of the same box: it replaces the
/// opacity of the fill, and keeps the red, green and blue of the fill and
/// every other attribute of the resting style.
pub proof fn lemma_hovered_overrides_active(theme: Theme, is_checked: bool)
    ensures
        theme.spec_hovered(is_checked) == (Style {
            background: Background::Color(
                theme.spec_active(is_checked).background.color().with_alpha(percent(80)),
            ),
            ..theme.spec_active(is_checked)
        }),
        theme.spec_hovered(is_checked).checkmark_color == theme.spec_active(
            is_checked,
        ).checkmark_color,
        theme.spec_hovered(is_checked).border_radius == theme.spec_active(is_checked).border_radius,
        theme.spec_hovered(is_checked).border_width == theme.spec_active(is_checked).border_width,
        theme.spec_hovered(is_checked).border_color == theme.spec_active(is_checked).border_color,
        theme.spec_hovered(is_checked).text_color == theme.spec_active(is_checked).text_color,
{
}

/// In every state a themed checkbox has a text color, whatever the palette;
/// and a palette whose colors are in range gives only colors that are in
/// range.
pub proof fn lemma_resolved_is_populated(theme: Theme, state: State, is_checked: bool)
    ensures
        resolved(&theme, state, is_checked).text_color is Some,
        theme.colors().is_valid() ==> resolved(&theme, state, is_checked).is_populated(),
{
}

/// The style of a themed checkbox is decided by the palette, the state and
/// the check: two themes with the same palette cannot be told apart by
/// their checkboxes.
pub proof fn lemma_resolved_by_palette(a: Theme, b: Theme, state: State, is_checked: bool)
    requires
        a.colors() == b.colors(),
    ensures
        resolved(&a, state, is_checked) == resolved(&b, state, is_checked),
{
}

} // verus!
