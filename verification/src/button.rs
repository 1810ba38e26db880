//! The appearance of a button.

use vstd::prelude::*;
use crate::color::{Background, Color};
use crate::theme::Theme;
use crate::vector::Vector;

verus! {

/// The corner radius of a themed button, in pixels.
pub const BORDER_RADIUS: u16 = 3;

/// The border width of a themed button while it is held down, in pixels.
pub const PRESSED_BORDER_WIDTH: u16 = 1;

/// What a button is doing. A button is in exactly one of these states.
#[derive(Clone, Copy, Debug, PartialEq, Eq, Structural)]
pub enum State {
    /// At rest.
    Active,
    /// Under the pointer.
    Hovered,
    /// Held down.
    Pressed,
}

impl Default for State {
    /// A button starts at rest.
    fn default() -> (state: State)
        ensures
            state == State::Active,
    {
        State::Active
    }
}

/// The drawing attributes of a button.
#[derive(Clone, Copy, Debug, PartialEq, Eq)]
pub struct Style {
    /// How far the shadow is displaced.
    pub shadow_offset: Vector,
    /// The fill, if the button has one.
    pub background: Option<Background>,
    /// The corner radius, in pixels.
    pub border_radius: u16,
    /// The border width, in pixels.
    pub border_width: u16,
    /// The border color.
    pub border_color: Color,
    /// The color of the label.
    pub text_color: Color,
}

impl Style {
    /// The style of a button about which nothing has been decided: no
    /// shadow, no fill, no border, black text.
    pub open spec fn spec_default() -> Style {
        Style {
            shadow_offset: Vector { x: 0, y: 0 },
            background: None,
            border_radius: 0,
            border_width: 0,
            border_color: Color::transparent(),
            text_color: Color::black(),
        }
    }

    /// The button has a fill, and every color in the style has its channels
    /// in range.
    pub open spec fn is_populated(&self) -> bool {
        &&& self.background matches Some(fill) && fill.color().is_valid()
        &&& self.border_color.is_valid()
        &&& self.text_color.is_valid()
    }
}

impl Default for Style {
    fn default() -> (style: Style)
        ensures
            style == Style::spec_default(),
    {
        Style {
            shadow_offset: Vector::zero(),
            background: None,
            border_radius: 0,
            border_width: 0,
            border_color: Color::transparent(),
            text_color: Color::black(),
        }
    }
}

/// The capability of styling buttons: one style for each state, each a
/// function of the sheet alone.
pub trait StyleSheet {
    /// The style of a button at rest.
    spec fn spec_active(&self) -> Style;

    /// The style of a button under the pointer.
    spec fn spec_hovered(&self) -> Style;

    /// The style of a button that is held down.
    spec fn spec_pressed(&self) -> Style;

    /// Produces the style of a button at rest.
    fn active(&self) -> (style: Style)
        ensures
            style == self.spec_active(),
    ;

    /// Produces the style of a button under the pointer.
    fn hovered(&self) -> (style: Style)
        ensures
            style == self.spec_hovered(),
    ;

    /// Produces the style of a button that is held down.
    fn pressed(&self) -> (style: Style)
        ensures
            style == self.spec_pressed(),
    ;
}

/// The style that a sheet gives a button in the given state.
pub open spec fn resolved<S: StyleSheet + ?Sized>(sheet: &S, state: State) -> Style {
    match state {
        State::Active => sheet.spec_active(),
        State::Hovered => sheet.spec_hovered(),
        State::Pressed => sheet.spec_pressed(),
    }
}

/// Produces the style that a sheet gives a button in the given state.
pub fn resolve<S: StyleSheet + ?Sized>(sheet: &S, state: State) -> (style: Style)
    ensures
        style == resolved(sheet, state),
{
    match state {
        State::Active => sheet.active(),
        State::Hovered => sheet.hovered(),
        State::Pressed => sheet.pressed(),
    }
}

impl StyleSheet for Theme {
    /// At rest a button is filled with the palette's active color and
    /// labelled in its text color, with rounded corners and no border.
    open spec fn spec_active(&self) -> Style {
        Style {
            shadow_offset: Vector { x: 0, y: 0 },
            background: Some(Background::Color(self.colors().active())),
            border_radius: BORDER_RADIUS,
            border_width: 0,
            border_color: Color::transparent(),
            text_color: self.colors().text(),
        }
    }

    /// Under the pointer the fill is the palette's hover color.
    open spec fn spec_hovered(&self) -> Style {
        Style {
            shadow_offset: Vector { x: 0, y: 0 },
            background: Some(Background::Color(self.colors().hovered())),
            border_radius: BORDER_RADIUS,
            border_width: 0,
            border_color: Color::transparent(),
            text_color: self.colors().text(),
        }
    }

    /// Held down, the button keeps the hover fill and gains a white border.
    open spec fn spec_pressed(&self) -> Style {
        Style {
            shadow_offset: Vector { x: 0, y: 0 },
            background: Some(Background::Color(self.colors().hovered())),
            border_radius: BORDER_RADIUS,
            border_width: PRESSED_BORDER_WIDTH,
            border_color: Color::white(),
            text_color: self.colors().text(),
        }
    }

    fn active(&self) -> (style: Style) {
        Style {
            background: Some(Background::Color(self.colors().active())),
            border_radius: BORDER_RADIUS,
            text_color: self.colors().text(),
            ..Style::default()
        }
    }

    fn hovered(&self) -> (style: Style) {
        Style {
            background: Some(Background::Color(self.colors().hovered())),
            text_color: self.colors().text(),
            ..self.active()
        }
    }

    fn pressed(&self) -> (style: Style) {
        Style {
            border_width: PRESSED_BORDER_WIDTH,
            border_color: Color::white(),
            ..self.hovered()
        }
    }
}

/// Hovering layers on the resting style: it replaces the fill by the
/// palette's hover color and sets the text color, and keeps every other
/// attribute of the resting style.
pub proof fn lemma_hovered_overrides_active(theme: Theme)
    ensures
        theme.spec_hovered() == (Style {
            background: Some(Background::Color(theme.colors().hovered())),
            text_color: theme.colors().text(),
            ..theme.spec_active()
        }),
        theme.spec_hovered().shadow_offset == theme.spec_active().shadow_offset,
        theme.spec_hovered().border_radius == theme.spec_active().border_radius,
        theme.spec_hovered().border_width == theme.spec_active().border_width,
        theme.spec_hovered().border_color == theme.spec_active().border_color,
{
}

/// Pressing layers on the hovered style, not on the resting one: the border
/// becomes one pixel of opaque white, and every other attribute is the
/// hovered one.
pub proof fn lemma_pressed_overrides_hovered(theme: Theme)
    ensures
        theme.spec_pressed() == (Style {
            border_width: 1,
            border_color: Color::white(),
            ..theme.spec_hovered()
        }),
        theme.spec_pressed().border_width == 1,
        theme.spec_pressed().border_color == (Color { r: 5100, g: 5100, b: 5100, a: 5100 }),
        theme.spec_pressed().shadow_offset == theme.spec_hovered().shadow_offset,
        theme.spec_pressed().background == theme.spec_hovered().background,
        theme.spec_pressed().border_radius == theme.spec_hovered().border_radius,
        theme.spec_pressed().text_color == theme.spec_hovered().text_color,
{
}

/// In every state a themed button has a fill, whatever the palette; and a
/// palette whose colors are in range gives only colors that are in range.
pub proof fn lemma_resolved_is_populated(theme: Theme, state: State)
    ensures
        resolved(&theme, state).background is Some,
        theme.colors().is_valid() ==> resolved(&theme, state).is_populated(),
{
}

/// The style of a themed button is decided by the palette and the state:
/// two themes with the same palette cannot be told apart by their buttons.
pub proof fn lemma_resolved_by_palette(a: Theme, b: Theme, state: State)
    requires
        a.colors() == b.colors(),
    ensures
        resolved(&a, state) == resolved(&b, state),
{
}

} // verus!
