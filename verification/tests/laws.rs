use iced_theme::color::{percent, Background, Color};
use iced_theme::theme::{Theme, ThemeColors};
use iced_theme::{button, checkbox, container, progress_bar, radio, rule, scrollable, slider, text_input};

fn law_palettes() -> Vec<ThemeColors> {
    let gray = |steps: u16| Color { r: steps, g: steps, b: steps, a: 5100 };
    vec![
        Theme::default().colors(),
        ThemeColors::new(
            Color { r: 100, g: 200, b: 300, a: 5100 },
            Color { r: 400, g: 500, b: 600, a: 5100 },
            Color { r: 700, g: 800, b: 900, a: 4000 },
            Color { r: 1000, g: 1100, b: 1200, a: 5100 },
            Color { r: 1300, g: 1400, b: 1500, a: 5100 },
            Color { r: 1600, g: 1700, b: 1800, a: 5100 },
        ),
        ThemeColors::new(gray(0), gray(0), gray(0), gray(0), gray(0), gray(0)),
        ThemeColors::new(gray(5100), gray(5100), gray(5100), gray(5100), gray(5100), gray(5100)),
        ThemeColors::new(
            Color::transparent(),
            Color::black(),
            Color::white(),
            Color::from_rgb8(1, 2, 3),
            Color::from_rgb8(250, 251, 252),
            Color { r: 5, g: 4, b: 3, a: 2 },
        ),
    ]
}

fn law_themes() -> Vec<Theme> {
    law_palettes()
        .into_iter()
        .map(|colors| Theme::new(String::from("Law"), None, false, colors))
        .collect()
}

#[test]
fn every_state_of_every_widget_resolves() {
    for theme in law_themes() {
        assert!(theme.colors().is_valid());
        for state in [button::State::Active, button::State::Hovered, button::State::Pressed] {
            let style = button::resolve(&theme, state);
            assert!(style.background.is_some());
            assert!(style.background.unwrap().color().is_valid());
            assert!(style.border_color.is_valid());
            assert!(style.text_color.is_valid());
        }
        for state in [radio::State::Active, radio::State::Hovered] {
            let style = radio::resolve(&theme, state);
            assert!(style.text_color.is_some());
            assert!(style.text_color.unwrap().is_valid());
            assert!(style.background.color().is_valid());
            assert!(style.dot_color.is_valid());
            assert!(style.border_color.is_valid());
        }
        for state in
            [text_input::State::Active, text_input::State::Focused, text_input::State::Hovered]
        {
            let style = text_input::resolve(&theme, state);
            assert!(style.background.color().is_valid());
            assert!(style.border_color.is_valid());
        }
        for state in
            [scrollable::State::Active, scrollable::State::Hovered, scrollable::State::Dragging]
        {
            let style = scrollable::resolve(&theme, state);
            assert!(style.background.is_some());
            assert!(style.background.unwrap().color().is_valid());
            assert!(style.border_color.is_valid());
            assert!(style.scroller.color.is_valid());
            assert!(style.scroller.border_color.is_valid());
        }
        for state in [slider::State::Active, slider::State::Hovered, slider::State::Dragging] {
            let style = slider::resolve(&theme, state);
            assert!(style.rail_colors.0.is_valid());
            assert!(style.rail_colors.1.is_valid());
            assert!(style.handle.color.is_valid());
            assert!(style.handle.border_color.is_valid());
        }
        for state in [checkbox::State::Active, checkbox::State::Hovered] {
            for is_checked in [false, true] {
                let style = checkbox::resolve(&theme, state, is_checked);
                assert!(style.text_color.is_some());
                assert!(style.text_color.unwrap().is_valid());
                assert!(style.background.color().is_valid());
                assert!(style.checkmark_color.is_valid());
                assert!(style.border_color.is_valid());
            }
        }
    }
}

#[test]
fn stateless_widgets_resolve() {
    for theme in law_themes() {
        let boxed = container::StyleSheet::style(&theme.colors());
        assert!(boxed.background.is_some());
        assert!(boxed.text_color.is_some());
        assert!(boxed.background.unwrap().color().is_valid());
        assert!(boxed.text_color.unwrap().is_valid());
        let bar = progress_bar::StyleSheet::style(&theme);
        assert!(bar.background.color().is_valid());
        assert!(bar.bar.color().is_valid());
        assert!(rule::StyleSheet::style(&theme).color.is_valid());
        assert!(text_input::StyleSheet::placeholder_color(&theme).is_valid());
        assert!(text_input::StyleSheet::value_color(&theme).is_valid());
        assert!(text_input::StyleSheet::selection_color(&theme).is_valid());
    }
}

#[test]
fn hover_only_overrides_its_own_fields() {
    for theme in law_themes() {
        let colors = theme.colors();

        let rest = button::StyleSheet::active(&theme);
        assert_eq!(
            button::StyleSheet::hovered(&theme),
            button::Style {
                background: Some(Background::Color(colors.hovered())),
                text_color: colors.text(),
                ..rest
            }
        );

        let rest = radio::StyleSheet::active(&theme);
        assert_eq!(
            radio::StyleSheet::hovered(&theme),
            radio::Style {
                background: Background::Color(Color { a: 2550, ..colors.surface() }),
                ..rest
            }
        );

        let rest = text_input::StyleSheet::active(&theme);
        assert_eq!(
            text_input::StyleSheet::hovered(&theme),
            text_input::Style {
                border_width: 1,
                border_color: Color { a: 1530, ..colors.accent() },
                ..rest
            }
        );

        let rest = scrollable::StyleSheet::active(&theme);
        assert_eq!(
            scrollable::StyleSheet::hovered(&theme),
            scrollable::Scrollbar {
                background: Some(Background::Color(Color { a: 2550, ..colors.surface() })),
                scroller: scrollable::Scroller { color: colors.hovered(), ..rest.scroller },
                ..rest
            }
        );

        let rest = slider::StyleSheet::active(&theme);
        assert_eq!(
            slider::StyleSheet::hovered(&theme),
            slider::Style {
                handle: slider::Handle { color: colors.hovered(), ..rest.handle },
                ..rest
            }
        );

        for is_checked in [false, true] {
            let rest = checkbox::StyleSheet::active(&theme, is_checked);
            assert_eq!(
                checkbox::StyleSheet::hovered(&theme, is_checked),
                checkbox::Style {
                    background: Background::Color(Color { a: 4080, ..rest.background.color() }),
                    ..rest
                }
            );
        }
    }
}

#[test]
fn pressed_button_layers_on_hovered() {
    for theme in law_themes() {
        let hovered = button::StyleSheet::hovered(&theme);
        let pressed = button::StyleSheet::pressed(&theme);
        assert_eq!(pressed.border_width, 1);
        assert_eq!(pressed.border_color, Color { r: 5100, g: 5100, b: 5100, a: 5100 });
        assert_eq!(pressed.shadow_offset, hovered.shadow_offset);
        assert_eq!(pressed.background, hovered.background);
        assert_eq!(pressed.border_radius, hovered.border_radius);
        assert_eq!(pressed.text_color, hovered.text_color);
        assert_eq!(
            pressed,
            button::Style { border_width: 1, border_color: Color::white(), ..hovered }
        );
    }
}

#[test]
fn focused_text_input_layers_on_hovered() {
    for theme in law_themes() {
        let hovered = text_input::StyleSheet::hovered(&theme);
        let focused = text_input::StyleSheet::focused(&theme);
        assert_eq!(
            focused,
            text_input::Style { border_width: 1, border_color: theme.colors().accent(), ..hovered }
        );
        assert_eq!(
            hovered,
            text_input::Style {
                border_color: theme.colors().accent().with_alpha(percent(30)),
                ..focused
            }
        );
    }
}

#[test]
fn dragging_layers_on_hovered() {
    let gray = Color { r: 4335, g: 4335, b: 4335, a: 5100 };
    for theme in law_themes() {
        let hovered = scrollable::StyleSheet::hovered(&theme);
        assert_eq!(
            scrollable::StyleSheet::dragging(&theme),
            scrollable::Scrollbar {
                scroller: scrollable::Scroller { color: gray, ..hovered.scroller },
                ..hovered
            }
        );
        let hovered = slider::StyleSheet::hovered(&theme);
        let rest = slider::StyleSheet::active(&theme);
        let dragging = slider::StyleSheet::dragging(&theme);
        assert_eq!(
            dragging,
            slider::Style { handle: slider::Handle { color: gray, ..hovered.handle }, ..hovered }
        );
        assert_eq!(
            dragging,
            slider::Style { handle: slider::Handle { color: gray, ..rest.handle }, ..rest }
        );
    }
}

#[test]
fn dragging_color_ignores_the_palette() {
    for theme in law_themes() {
        let scroller = scrollable::resolve(&theme, scrollable::State::Dragging).scroller;
        let handle = slider::resolve(&theme, slider::State::Dragging).handle;
        for color in [scroller.color, handle.color] {
            assert_eq!(color.r, percent(85));
            assert_eq!(color.g, percent(85));
            assert_eq!(color.b, percent(85));
            assert_eq!(color.a, 5100);
        }
    }
}

#[test]
fn checkbox_fill_is_chosen_before_hover() {
    for theme in law_themes() {
        let colors = theme.colors();
        assert_eq!(
            checkbox::StyleSheet::active(&theme, true).background,
            Background::Color(colors.active())
        );
        assert_eq!(
            checkbox::StyleSheet::active(&theme, false).background,
            Background::Color(colors.surface())
        );
        assert_eq!(
            checkbox::StyleSheet::hovered(&theme, true).background,
            Background::Color(Color { a: 4080, ..colors.active() })
        );
        assert_eq!(
            checkbox::StyleSheet::hovered(&theme, false).background,
            Background::Color(Color { a: 4080, ..colors.surface() })
        );
    }
}

#[test]
fn resolution_is_repeatable() {
    for theme in law_themes() {
        for state in [button::State::Active, button::State::Hovered, button::State::Pressed] {
            assert_eq!(button::resolve(&theme, state), button::resolve(&theme, state));
        }
        for state in [radio::State::Active, radio::State::Hovered] {
            assert_eq!(radio::resolve(&theme, state), radio::resolve(&theme, state));
        }
        for state in
            [text_input::State::Active, text_input::State::Focused, text_input::State::Hovered]
        {
            assert_eq!(text_input::resolve(&theme, state), text_input::resolve(&theme, state));
        }
        for state in
            [scrollable::State::Active, scrollable::State::Hovered, scrollable::State::Dragging]
        {
            assert_eq!(scrollable::resolve(&theme, state), scrollable::resolve(&theme, state));
        }
        for state in [slider::State::Active, slider::State::Hovered, slider::State::Dragging] {
            assert_eq!(slider::resolve(&theme, state), slider::resolve(&theme, state));
        }
        for state in [checkbox::State::Active, checkbox::State::Hovered] {
            for is_checked in [false, true] {
                assert_eq!(
                    checkbox::resolve(&theme, state, is_checked),
                    checkbox::resolve(&theme, state, is_checked)
                );
            }
        }
    }
}

#[test]
fn only_the_palette_decides() {
    for colors in law_palettes() {
        let plain = Theme::new(String::from("Plain"), None, false, colors);
        let fancy = Theme::new(String::from("Fancy"), Some(String::from("Other")), true, colors);
        for state in [button::State::Active, button::State::Hovered, button::State::Pressed] {
            assert_eq!(button::resolve(&plain, state), button::resolve(&fancy, state));
        }
        for state in [radio::State::Active, radio::State::Hovered] {
            assert_eq!(radio::resolve(&plain, state), radio::resolve(&fancy, state));
        }
        for state in
            [text_input::State::Active, text_input::State::Focused, text_input::State::Hovered]
        {
            assert_eq!(text_input::resolve(&plain, state), text_input::resolve(&fancy, state));
        }
        for state in
            [scrollable::State::Active, scrollable::State::Hovered, scrollable::State::Dragging]
        {
            assert_eq!(scrollable::resolve(&plain, state), scrollable::resolve(&fancy, state));
        }
        for state in [slider::State::Active, slider::State::Hovered, slider::State::Dragging] {
            assert_eq!(slider::resolve(&plain, state), slider::resolve(&fancy, state));
        }
        for state in [checkbox::State::Active, checkbox::State::Hovered] {
            for is_checked in [false, true] {
                assert_eq!(
                    checkbox::resolve(&plain, state, is_checked),
                    checkbox::resolve(&fancy, state, is_checked)
                );
            }
        }
        assert_eq!(progress_bar::StyleSheet::style(&plain), progress_bar::StyleSheet::style(&fancy));
        assert_eq!(rule::StyleSheet::style(&plain), rule::StyleSheet::style(&fancy));
    }
}

#[test]
fn resolution_leaves_the_theme_alone() {
    let theme = Theme::default();
    let before = theme.clone();
    let _ = button::resolve(&theme, button::State::Pressed);
    let _ = scrollable::resolve(&theme, scrollable::State::Dragging);
    let _ = checkbox::resolve(&theme, checkbox::State::Hovered, true);
    assert!(theme == before);
}
