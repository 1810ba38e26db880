//! The appearance of the scrollbar of a scrollable.

use vstd::prelude::*;
use crate::color::{percent, Background, Color};
use crate::theme::{dragging_color, Theme};

verus! {

/// The corner radius of a themed scrollbar and of its scroller, in pixels.
pub const BORDER_RADIUS: u16 = 2;

/// The opacity of the track of a themed scrollbar under the pointer, in
/// percent.
pub const HOVERED_OPACITY: u8 = 50;

/// What a scrollbar is doing. A scrollbar is in exactly one of these states.
#[derive(Clone, Copy, Debug, PartialEq, Eq, Structural)]
pub enum State {
    /// At rest.
    Active,
    /// Under the pointer.
    Hovered,
    /// Following the pointer with its scroller held.
    Dragging,
}

impl Default for State {
    /// A scrollbar starts at rest.
    fn default() -> (state: State)
        ensures
            state == State::Active,
    {
        State::Active
    }
}

/// The drawing attributes of the scroller: the part of a scrollbar that
/// moves.
#[derive(Clone, Copy, Debug, PartialEq, Eq, Structural)]
pub struct Scroller {
    /// The fill.
    pub color: Color,
    /// The corner radius, in pixels.
    pub border_radius: u16,
    /// The border width, in pixels.
    pub border_width: u16,
    /// The border color.
    pub border_color: Color,
}

/// The drawing attributes of a scrollbar.
#[derive(Clone, Copy, Debug, PartialEq, Eq)]
pub struct Scrollbar {
    /// The fill of the track, if it has one.
    pub background: Option<Background>,
    /// The corner radius of the track, in pixels.
    pub border_radius: u16,
    /// The border width of the track, in pixels.
    pub border_width: u16,
    /// The border color of the track.
    pub border_color: Color,
    /// The scroller on the track.
    pub scroller: Scroller,
}

impl Scrollbar {
    /// The track has a fill, and every color in the style has its channels
    /// in range.
    pub open spec fn is_populated(&self) -> bool {
        &&& self.background matches Some(fill) && fill.color().is_valid()
        &&& self.border_color.is_valid()
        &&& self.scroller.color.is_valid()
        &&& self.scroller.border_color.is_valid()
    }
}

/// The capability of styling scrollbars: one style for each state, each a
/// function of the sheet alone.
pub trait StyleSheet {
    /// The style of a scrollbar at rest.
    spec fn spec_active(&self) -> Scrollbar;

    /// The style of a scrollbar under the pointer.
    spec fn spec_hovered(&self) -> Scrollbar;

    /// The style of a scrollbar whose scroller is being dragged.
    spec fn spec_dragging(&self) -> Scrollbar;

    /// Produces the style of a scrollbar at rest.
    fn active(&self) -> (style: Scrollbar)
        ensures
            style == self.spec_active(),
    ;

    /// Produces the style of a scrollbar under the pointer.
    fn hovered(&self) -> (style: Scrollbar)
        ensures
            style == self.spec_hovered(),
    ;

    /// Produces the style of a scrollbar whose scroller is being dragged.
    fn dragging(&self) -> (style: Scrollbar)
        ensures
            style == self.spec_dragging(),
    ;
}

/// The style that a sheet gives a scrollbar in the given state.
pub open spec fn resolved<S: StyleSheet + ?Sized>(sheet: &S, state: State) -> Scrollbar {
    match state {
        State::Active => sheet.spec_active(),
        State::Hovered => sheet.spec_hovered(),
        State::Dragging => sheet.spec_dragging(),
    }
}

/// Produces the style that a sheet gives a scrollbar in the given state.
pub fn resolve<S: StyleSheet + ?Sized>(sheet: &S, state: State) -> (style: Scrollbar)
    ensures
        style == resolved(sheet, state),
{
    match state {
        State::Active => sheet.active(),
        State::Hovered => sheet.hovered(),
        State::Dragging => sheet.dragging(),
    }
}

impl StyleSheet for Theme {
    /// At rest the track is filled with the palette's surface color and the
    /// scroller with its active color; both have rounded corners and no
    /// border.
    open spec fn spec_active(&self) -> Scrollbar {
        Scrollbar {
            background: Some(Background::Color(self.colors().surface())),
            border_radius: BORDER_RADIUS,
            border_width: 0,
            border_color: Color::transparent(),
            scroller: Scroller {
                color: self.colors().active(),
                border_radius: BORDER_RADIUS,
                border_width: 0,
                border_color: Color::transparent(),
            },
        }
    }

    /// Under the pointer the track is the surface color at half opacity and
    /// the scroller has the palette's hover color.
    open spec fn spec_hovered(&self) -> Scrollbar {
        Scrollbar {
            background: Some(Background::Color(self.colors().surface().with_alpha(percent(50)))),
            border_radius: BORDER_RADIUS,
            border_width: 0,
            border_color: Color::transparent(),
            scroller: Scroller {
                color: self.colors().hovered(),
                border_radius: BORDER_RADIUS,
                border_width: 0,
                border_color: Color::transparent(),
            },
        }
    }

    /// While it is dragged the scroller is light gray on the hovered track.
    open spec fn spec_dragging(&self) -> Scrollbar {
        Scrollbar {
            background: Some(Background::Color(self.colors().surface().with_alpha(percent(50)))),
            border_radius: BORDER_RADIUS,
            border_width: 0,
            border_color: Color::transparent(),
            scroller: Scroller {
                color: dragging_color(),
                border_radius: BORDER_RADIUS,
                border_width: 0,
                border_color: Color::transparent(),
            },
        }
    }

    fn active(&self) -> (style: Scrollbar) {
        Scrollbar {
            background: Some(Background::Color(self.colors().surface())),
            border_radius: BORDER_RADIUS,
            border_width: 0,
            border_color: Color::transparent(),
            scroller: Scroller {
                color: self.colors().active(),
                border_radius: BORDER_RADIUS,
                border_width: 0,
                border_color: Color::transparent(),
            },
        }
    }

    fn hovered(&self) -> (style: Scrollbar) {
        let active = self.active();
        Scrollbar {
            background: Some(
                Background::Color(
                    Color { a: percent(HOVERED_OPACITY), ..self.colors().surface() },
                ),
            ),
            scroller: Scroller { color: self.colors().hovered(), ..active.scroller },
            ..active
        }
    }

    fn dragging(&self) -> (style: Scrollbar) {
        let hovered = self.hovered();
        Scrollbar {
            scroller: Scroller { color: dragging_color(), ..hovered.scroller },
            ..hovered
        }
    }
}

/// Hovering layers on the resting style: it replaces the fill of the track
/// by the surface color at half opacity and the fill of the scroller by the
/// palette's hover color, and keeps every other attribute of the resting
/// style.
pub proof fn lemma_hovered_overrides_active(theme: Theme)
    ensures
        theme.spec_hovered() == (Scrollbar {
            background: Some(Background::Color(theme.colors().surface().with_alpha(percent(50)))),
            scroller: Scroller { color: theme.colors().hovered(), ..theme.spec_active().scroller },
            ..theme.spec_active()
        }),
        theme.spec_hovered().background matches Some(fill) && fill.color().a == 2550,
        theme.spec_hovered().border_radius == theme.spec_active().border_radius,
        theme.spec_hovered().border_width == theme.spec_active().border_width,
        theme.spec_hovered().border_color == theme.spec_active().border_color,
        theme.spec_hovered().scroller.border_radius == theme.spec_active().scroller.border_radius,
        theme.spec_hovered().scroller.border_width == theme.spec_active().scroller.border_width,
        theme.spec_hovered().scroller.border_color == theme.spec_active().scroller.border_color,
{
}

/// Dragging layers on the hovered style, not on the resting one: it
/// replaces the fill of the scroller, and keeps every other attribute of
/// the hovered style.
pub proof fn lemma_dragging_overrides_hovered(theme: Theme)
    ensures
        theme.spec_dragging() == (Scrollbar {
            scroller: Scroller { color: dragging_color(), ..theme.spec_hovered().scroller },
            ..theme.spec_hovered()
        }),
        theme.spec_dragging().background == theme.spec_hovered().background,
        theme.spec_dragging().border_radius == theme.spec_hovered().border_radius,
        theme.spec_dragging().border_width == theme.spec_hovered().border_width,
        theme.spec_dragging().border_color == theme.spec_hovered().border_color,
        theme.spec_dragging().scroller.border_radius == theme.spec_hovered().scroller.border_radius,
        theme.spec_dragging().scroller.border_width == theme.spec_hovered().scroller.border_width,
        theme.spec_dragging().scroller.border_color == theme.spec_hovered().scroller.border_color,
{
}

/// Whatever the palette, a scroller that is being dragged is the same
/// opaque light gray: 85 percent of full intensity in red, green and blue.
pub proof fn lemma_dragging_color_is_constant(theme: Theme)
    ensures
        theme.spec_dragging().scroller.color == dragging_color(),
        dragging_color() == Color::from_rgb(percent(85), percent(85), percent(85)),
        dragging_color().r * 100 == 85 * 5100,
        dragging_color().g * 100 == 85 * 5100,
        dragging_color().b * 100 == 85 * 5100,
        dragging_color().a == 5100,
{
}

/// In every state the track of a themed scrollbar has a fill, whatever the
/// palette; and a palette whose colors are in range gives only colors that
/// are in range.
pub proof fn lemma_resolved_is_populated(theme: Theme, state: State)
    ensures
        resolved(&theme, state).background is Some,
        theme.colors().is_valid() ==> resolved(&theme, state).is_populated(),
{
}

/// The style of a themed scrollbar is decided by the palette and the state:
/// two themes with the same palette cannot be told apart by their
/// scrollbars.
pub proof fn lemma_resolved_by_palette(a: Theme, b: Theme, state: State)
    requires
        a.colors() == b.colors(),
    ensures
        resolved(&a, state) == resolved(&b, state),
{
}

} // verus!
