//! The appearance of a slider.

use vstd::prelude::*;
use crate::color::{percent, Color};
use crate::theme::{dragging_color, Theme};

verus! {

/// The radius of the handle of a themed slider, in pixels.
pub const HANDLE_RADIUS: u16 = 9;

/// The opacity of the second rail of a themed slider, in percent.
pub const RAIL_OPACITY: u8 = 10;

/// What a slider is doing. A slider is in exactly one of these states.
#[derive(Clone, Copy, Debug, PartialEq, Eq, Structural)]
pub enum State {
    /// At rest.
    Active,
    /// Under the pointer.
    Hovered,
    /// Following the pointer with its handle held.
    Dragging,
}

impl Default for State {
    /// A slider starts at rest.
    fn default() -> (state: State)
        ensures
            state == State::Active,
    {
        State::Active
    }
}

/// The outline of the handle of a slider.
#[derive(Clone, Copy, Debug, PartialEq, Eq, Structural)]
pub enum HandleShape {
    /// A disc.
    Circle {
        /// The radius, in pixels.
        radius: u16,
    },
    /// An upright bar.
    Rectangle {
        /// The width, in pixels.
        width: u16,
        /// The corner radius, in pixels.
        border_radius: u16,
    },
}

/// The drawing attributes of the handle of a slider.
#[derive(Clone, Copy, Debug, PartialEq, Eq, Structural)]
pub struct Handle {
    /// The outline.
    pub shape: HandleShape,
    /// The fill.
    pub color: Color,
    /// The border width, in pixels.
    pub border_width: u16,
    /// The border color.
    pub border_color: Color,
}

/// The drawing attributes of a slider.
#[derive(Clone, Copy, Debug, PartialEq, Eq)]
pub struct Style {
    /// The colors of the two lines that make the rail.
    pub rail_colors: (Color, Color),
    /// The handle on the rail.
    pub handle: Handle,
}

impl Style {
    /// Every color in the style has its channels in range.
    pub open spec fn is_populated(&self) -> bool {
        &&& self.rail_colors.0.is_valid()
        &&& self.rail_colors.1.is_valid()
        &&& self.handle.color.is_valid()
        &&& self.handle.border_color.is_valid()
    }
}

/// The capability of styling sliders: one style for each state, each a
/// function of the sheet alone.
pub trait StyleSheet {
    /// The style of a slider at rest.
    spec fn spec_active(&self) -> Style;

    /// The style of a slider under the pointer.
    spec fn spec_hovered(&self) -> Style;

    /// The style of a slider whose handle is being dragged.
    spec fn spec_dragging(&self) -> Style;

    /// Produces the style of a slider at rest.
    fn active(&self) -> (style: Style)
        ensures
            style == self.spec_active(),
    ;

    /// Produces the style of a slider under the pointer.
    fn hovered(&self) -> (style: Style)
        ensures
            style == self.spec_hovered(),
    ;

    /// Produces the style of a slider whose handle is being dragged.
    fn dragging(&self) -> (style: Style)
        ensures
            style == self.spec_dragging(),
    ;
}

/// The style that a sheet gives a slider in the given state.
pub open spec fn resolved<S: StyleSheet + ?Sized>(sheet: &S, state: State) -> Style {
    match state {
        State::Active => sheet.spec_active(),
        State::Hovered => sheet.spec_hovered(),
        State::Dragging => sheet.spec_dragging(),
    }
}

/// Produces the style that a sheet gives a slider in the given state.
pub fn resolve<S: StyleSheet + ?Sized>(sheet: &S, state: State) -> (style: Style)
    ensures
        style == resolved(sheet, state),
{
    match state {
        State::Active => sheet.active(),
        State::Hovered => sheet.hovered(),
        State::Dragging => sheet.dragging(),
    }
}

impl StyleSheet for Theme {
    /// At rest the rail is the palette's active color over the same color at
    /// 10 percent opacity, and the handle is a disc of the active color
    /// without a border.
    open spec fn spec_active(&self) -> Style {
        Style {
            rail_colors: (self.colors().active(), self.colors().active().with_alpha(percent(10))),
            handle: Handle {
                shape: HandleShape::Circle { radius: HANDLE_RADIUS },
                color: self.colors().active(),
                border_width: 0,
                border_color: Color::transparent(),
            },
        }
    }

    /// Under the pointer the handle has the palette's hover color.
    open spec fn spec_hovered(&self) -> Style {
        Style {
            rail_colors: (self.colors().active(), self.colors().active().with_alpha(percent(10))),
            handle: Handle {
                shape: HandleShape::Circle { radius: HANDLE_RADIUS },
                color: self.colors().hovered(),
                border_width: 0,
                border_color: Color::transparent(),
            },
        }
    }

    /// While it is dragged the handle is light gray.
    open spec fn spec_dragging(&self) -> Style {
        Style {
            rail_colors: (self.colors().active(), self.colors().active().with_alpha(percent(10))),
            handle: Handle {
                shape: HandleShape::Circle { radius: HANDLE_RADIUS },
                color: dragging_color(),
                border_width: 0,
                border_color: Color::transparent(),
            },
        }
    }

    fn active(&self) -> (style: Style) {
        Style {
            rail_colors: (
                self.colors().active(),
                Color { a: percent(RAIL_OPACITY), ..self.colors().active() },
            ),
            handle: Handle {
                shape: HandleShape::Circle { radius: HANDLE_RADIUS },
                color: self.colors().active(),
                border_width: 0,
                border_color: Color::transparent(),
            },
        }
    }

    fn hovered(&self) -> (style: Style) {
        let active = self.active();
        Style { handle: Handle { color: self.colors().hovered(), ..active.handle }, ..active }
    }

    fn dragging(&self) -> (style: Style) {
        let hovered = self.hovered();
        Style { handle: Handle { color: dragging_color(), ..hovered.handle }, ..hovered }
    }
}

/// Hovering layers on the resting style: it replaces the fill of the handle
/// by the palette's hover color, and keeps every other attribute of the
/// resting style.
pub proof fn lemma_hovered_overrides_active(theme: Theme)
    ensures
        theme.spec_hovered() == (Style {
            handle: Handle { color: theme.colors().hovered(), ..theme.spec_active().handle },
            ..theme.spec_active()
        }),
        theme.spec_hovered().rail_colors == theme.spec_active().rail_colors,
        theme.spec_hovered().handle.shape == theme.spec_active().handle.shape,
        theme.spec_hovered().handle.border_width == theme.spec_active().handle.border_width,
        theme.spec_hovered().handle.border_color == theme.spec_active().handle.border_color,
{
}

/// Dragging layers on the hovered style: it replaces the fill of the
/// handle, and keeps every other attribute of the hovered style.
pub proof fn lemma_dragging_overrides_hovered(theme: Theme)
    ensures
        theme.spec_dragging() == (Style {
            handle: Handle { color: dragging_color(), ..theme.spec_hovered().handle },
            ..theme.spec_hovered()
        }),
        theme.spec_dragging().rail_colors == theme.spec_hovered().rail_colors,
        theme.spec_dragging().handle.shape == theme.spec_hovered().handle.shape,
        theme.spec_dragging().handle.border_width == theme.spec_hovered().handle.border_width,
        theme.spec_dragging().handle.border_color == theme.spec_hovered().handle.border_color,
{
}

/// Hovering and dragging touch the same one attribute, so the dragged style
/// is also the resting style with the fill of the handle replaced.
pub proof fn lemma_dragging_overrides_active(theme: Theme)
    ensures
        theme.spec_dragging() == (Style {
            handle: Handle { color: dragging_color(), ..theme.spec_active().handle },
            ..theme.spec_active()
        }),
{
}

/// Whatever the palette, a handle that is being dragged is the same opaque
/// light gray: 85 percent of full intensity in red, green and blue.
pub proof fn lemma_dragging_color_is_constant(theme: Theme)
    ensures
        theme.spec_dragging().handle.color == dragging_color(),
        dragging_color() == Color::from_rgb(percent(85), percent(85), percent(85)),
        dragging_color().r * 100 == 85 * 5100,
        dragging_color().g * 100 == 85 * 5100,
        dragging_color().b * 100 == 85 * 5100,
        dragging_color().a == 5100,
{
}

/// In every state the handle of a themed slider is a disc of nine pixels,
/// whatever the palette; and a palette whose colors are in range gives only
/// colors that are in range.
pub proof fn lemma_resolved_is_populated(theme: Theme, state: State)
    ensures
        resolved(&theme, state).handle.shape == (HandleShape::Circle { radius: 9 }),
        theme.colors().is_valid() ==> resolved(&theme, state).is_populated(),
{
}

/// The style of a themed slider is decided by the palette and the state:
/// two themes with the same palette cannot be told apart by their sliders.
pub proof fn lemma_resolved_by_palette(a: Theme, b: Theme, state: State)
    requires
        a.colors() == b.colors(),
    ensures
        resolved(&a, state) == resolved(&b, state),
{
}

} // verus!
