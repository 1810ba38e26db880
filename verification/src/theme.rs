//! The palette and the theme built on it.

use vstd::prelude::*;
use crate::color::{percent, Color};

verus! {

/// The six semantic colors that every attribute of every widget derives from.
///
/// A palette is complete by construction and is only read afterwards.
#[derive(Clone, Copy, Debug, PartialEq, Eq, Structural)]
pub struct ThemeColors {
    surface: Color,
    background: Color,
    accent: Color,
    active: Color,
    hovered: Color,
    text: Color,
}

impl ThemeColors {
    /// The palette made of the six given colors.
    pub fn new(
        surface: Color,
        background: Color,
        accent: Color,
        active: Color,
        hovered: Color,
        text: Color,
    ) -> (colors: ThemeColors)
        ensures
            colors.surface() == surface,
            colors.background() == background,
            colors.accent() == accent,
            colors.active() == active,
            colors.hovered() == hovered,
            colors.text() == text,
            colors.is_valid() <==> surface.is_valid() && background.is_valid() && accent.is_valid()
                && active.is_valid() && hovered.is_valid() && text.is_valid(),
    {
        ThemeColors { surface, background, accent, active, hovered, text }
    }

    /// The fill of input-like widgets.
    pub closed spec fn spec_surface(&self) -> Color {
        self.surface
    }

    /// The fill of input-like widgets.
    #[verifier::when_used_as_spec(spec_surface)]
    pub fn surface(&self) -> (color: Color)
        ensures
            color == self.spec_surface(),
    {
        self.surface
    }

    /// The fill of the root container.
    pub closed spec fn spec_background(&self) -> Color {
        self.background
    }

    /// The fill of the root container.
    #[verifier::when_used_as_spec(spec_background)]
    pub fn background(&self) -> (color: Color)
        ensures
            color == self.spec_background(),
    {
        self.background
    }

    /// The color of emphasis: focus rings and selections.
    pub closed spec fn spec_accent(&self) -> Color {
        self.accent
    }

    /// The color of emphasis: focus rings and selections.
    #[verifier::when_used_as_spec(spec_accent)]
    pub fn accent(&self) -> (color: Color)
        ensures
            color == self.spec_accent(),
    {
        self.accent
    }

    /// The color of an interactive element at rest.
    pub closed spec fn spec_active(&self) -> Color {
        self.active
    }

    /// The color of an interactive element at rest.
    #[verifier::when_used_as_spec(spec_active)]
    pub fn active(&self) -> (color: Color)
        ensures
            color == self.spec_active(),
    {
        self.active
    }

    /// The color of an interactive element under the pointer.
    pub closed spec fn spec_hovered(&self) -> Color {
        self.hovered
    }

    /// The color of an interactive element under the pointer.
    #[verifier::when_used_as_spec(spec_hovered)]
    pub fn hovered(&self) -> (color: Color)
        ensures
            color == self.spec_hovered(),
    {
        self.hovered
    }

    /// The color of text.
    pub closed spec fn spec_text(&self) -> Color {
        self.text
    }

    /// The color of text.
    #[verifier::when_used_as_spec(spec_text)]
    pub fn text(&self) -> (color: Color)
        ensures
            color == self.spec_text(),
    {
        self.text
    }

    /// Every color of the palette has its channels in range.
    pub open spec fn spec_is_valid(&self) -> bool {
        &&& self.surface().is_valid()
        &&& self.background().is_valid()
        &&& self.accent().is_valid()
        &&& self.active().is_valid()
        &&& self.hovered().is_valid()
        &&& self.text().is_valid()
    }

    /// Tells whether every color of the palette has its channels in range.
    #[verifier::when_used_as_spec(spec_is_valid)]
    pub fn is_valid(&self) -> (valid: bool)
        ensures
            valid == self.spec_is_valid(),
    {
        self.surface.is_valid() && self.background.is_valid() && self.accent.is_valid()
            && self.active.is_valid() && self.hovered.is_valid() && self.text.is_valid()
    }
}

/// A palette is nothing but its six colors: two palettes that agree on each
/// of them are the same palette.
pub proof fn lemma_palette_is_its_colors(a: ThemeColors, b: ThemeColors)
    requires
        a.surface() == b.surface(),
        a.background() == b.background(),
        a.accent() == b.accent(),
        a.active() == b.active(),
        a.hovered() == b.hovered(),
        a.text() == b.text(),
    ensures
        a == b,
{
}

/// A palette with a name: what a host selects and asks for styles.
#[derive(Debug)]
pub struct Theme {
    name: String,
    description: Option<String>,
    dark: bool,
    colors: ThemeColors,
}

impl Theme {
    /// The theme with the given name, description, darkness and palette.
    pub fn new(name: String, description: Option<String>, dark: bool, colors: ThemeColors) -> (theme:
        Theme)
        ensures
            theme.name() == name,
            theme.description() == description,
            theme.dark() == dark,
            theme.colors() == colors,
    {
        Theme { name, description, dark, colors }
    }

    /// The name under which the theme is offered.
    pub closed spec fn spec_name(&self) -> &String {
        &self.name
    }

    /// The name under which the theme is offered.
    #[verifier::when_used_as_spec(spec_name)]
    pub fn name(&self) -> (name: &String)
        ensures
            name == self.spec_name(),
    {
        &self.name
    }

    /// A sentence about the theme, if it has one.
    pub closed spec fn spec_description(&self) -> &Option<String> {
        &self.description
    }

    /// A sentence about the theme, if it has one.
    #[verifier::when_used_as_spec(spec_description)]
    pub fn description(&self) -> (description: &Option<String>)
        ensures
            description == self.spec_description(),
    {
        &self.description
    }

    /// Whether the theme is meant for dark surroundings. No style depends on it.
    pub closed spec fn spec_dark(&self) -> bool {
        self.dark
    }

    /// Whether the theme is meant for dark surroundings. No style depends on it.
    #[verifier::when_used_as_spec(spec_dark)]
    pub fn dark(&self) -> (dark: bool)
        ensures
            dark == self.spec_dark(),
    {
        self.dark
    }

    /// The palette of the theme.
    pub closed spec fn spec_colors(&self) -> ThemeColors {
        self.colors
    }

    /// The palette of the theme.
    #[verifier::when_used_as_spec(spec_colors)]
    pub fn colors(&self) -> (colors: ThemeColors)
        ensures
            colors == self.spec_colors(),
    {
        self.colors
    }
}

/// A theme is nothing but its name, its description, its darkness and its
/// palette: two themes that agree on each of them are the same theme.
pub proof fn lemma_theme_is_its_parts(a: Theme, b: Theme)
    requires
        a.name() == b.name(),
        a.description() == b.description(),
        a.dark() == b.dark(),
        a.colors() == b.colors(),
    ensures
        a == b,
{
}

impl Clone for Theme {
    /// A theme with the same name, description, darkness and palette.
    fn clone(&self) -> (theme: Theme)
        ensures
            theme == *self,
    {
        let description = match &self.description {
            Some(text) => Some(text.clone()),
            None => None,
        };
        Theme { name: self.name.clone(), description, dark: self.dark, colors: self.colors }
    }
}

impl PartialEq for Theme {
    /// Two themes are equal when they have the same name, the same
    /// description, the same darkness and the same palette.
    fn eq(&self, other: &Theme) -> (equal: bool) {
        let same_description = match (&self.description, &other.description) {
            (Some(mine), Some(theirs)) => *mine == *theirs,
            (None, None) => true,
            _ => false,
        };
        self.name == other.name && same_description && self.dark == other.dark && self.colors
            == other.colors
    }
}

impl vstd::std_specs::cmp::PartialEqSpecImpl for Theme {
    open spec fn obeys_eq_spec() -> bool {
        true
    }

    open spec fn eq_spec(&self, other: &Theme) -> bool {
        &&& self.name()@ == other.name()@
        &&& match (self.description(), other.description()) {
            (Some(mine), Some(theirs)) => mine@ == theirs@,
            (None, None) => true,
            _ => false,
        }
        &&& self.dark() == other.dark()
        &&& self.colors() == other.colors()
    }
}

impl Default for Theme {
    /// The dark theme that ships with the crate.
    fn default() -> (theme: Theme)
        ensures
            theme.name()@ == "Default Dark"@,
            theme.description() matches Some(text) && text@
                == "The default dark theme based on the iced styling example"@,
            theme.dark(),
            theme.colors().surface() == Color::from_rgb8(0x40, 0x44, 0x4B),
            theme.colors().accent() == Color::from_rgb8(0x6F, 0xFF, 0xE9),
            theme.colors().active() == Color::from_rgb8(0x72, 0x89, 0xDA),
            theme.colors().hovered() == Color::from_rgb8(0x67, 0x7B, 0xC4),
            theme.colors().background() == Color::from_rgb8(0x36, 0x39, 0x3F),
            theme.colors().text() == Color::white(),
            theme.colors().is_valid(),
    {
        let colors = ThemeColors {
            surface: Color::from_rgb8(0x40, 0x44, 0x4B),
            accent: Color::from_rgb8(0x6F, 0xFF, 0xE9),
            active: Color::from_rgb8(0x72, 0x89, 0xDA),
            hovered: Color::from_rgb8(0x67, 0x7B, 0xC4),
            background: Color::from_rgb8(0x36, 0x39, 0x3F),
            text: Color::white(),
        };
        Theme {
            name: "Default Dark".to_owned(),
            description: Some(
                "The default dark theme based on the iced styling example".to_owned(),
            ),
            dark: true,
            colors,
        }
    }
}

/// The intensity of the gray of a handle that is being dragged, in percent.
pub const DRAGGING_GRAY: u8 = 85;

/// The gray of a handle that is being dragged: opaque, 85 percent of full
/// intensity in each channel. No palette has a say in it.
pub open spec fn spec_dragging_color() -> Color {
    Color { r: 4335, g: 4335, b: 4335, a: 5100 }
}

/// The gray of a handle that is being dragged.
#[verifier::when_used_as_spec(spec_dragging_color)]
pub fn dragging_color() -> (color: Color)
    ensures
        color == spec_dragging_color(),
        color.is_valid(),
{
    let gray: u16 = percent(DRAGGING_GRAY);
    Color::from_rgb(gray, gray, gray)
}

} // verus!
