//! The appearance of a progress bar.

use vstd::prelude::*;
use crate::color::Background;
use crate::theme::Theme;

verus! {

/// The corner radius of a themed progress bar, in pixels.
pub const BORDER_RADIUS: u16 = 10;

/// The drawing attributes of a progress bar.
#[derive(Clone, Copy, Debug, PartialEq, Eq, Structural)]
pub struct Style {
    /// The fill of the trough.
    pub background: Background,
    /// The fill of the part that shows the progress made.
    pub bar: Background,
    /// The corner radius, in pixels.
    pub border_radius: u16,
}

impl Style {
    /// Every color in the style has its channels in range.
    pub open spec fn is_populated(&self) -> bool {
        &&& self.background.color().is_valid()
        &&& self.bar.color().is_valid()
    }
}

/// The capability of styling progress bars. A progress bar has no states,
/// so a sheet gives it one style.
pub trait StyleSheet {
    /// The style of a progress bar.
    spec fn spec_style(&self) -> Style;

    /// Produces the style of a progress bar.
    fn style(&self) -> (style: Style)
        ensures
            style == self.spec_style(),
    ;
}

impl StyleSheet for Theme {
    /// The trough has the palette's surface color and the bar its active
    /// color; the corners are rounded.
    open spec fn spec_style(&self) -> Style {
        Style {
            background: Background::Color(self.colors().surface()),
            bar: Background::Color(self.colors().active()),
            border_radius: BORDER_RADIUS,
        }
    }

    fn style(&self) -> (style: Style) {
        Style {
            background: Background::Color(self.colors().surface()),
            bar: Background::Color(self.colors().active()),
            border_radius: BORDER_RADIUS,
        }
    }
}

/// A palette whose colors are in range gives a themed progress bar only
/// colors that are in range.
pub proof fn lemma_style_is_populated(theme: Theme)
    ensures
        theme.colors().is_valid() ==> theme.spec_style().is_populated(),
{
}

/// The style of a themed progress bar is decided by the palette: two themes
/// with the same palette cannot be told apart by their progress bars.
pub proof fn lemma_style_by_palette(a: Theme, b: Theme)
    requires
        a.colors() == b.colors(),
    ensures
        a.spec_style() == b.spec_style(),
{
}

} // verus!
