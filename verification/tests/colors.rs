use iced_theme::color::{level, percent, Background, Color, FULL, STEPS_PER_LEVEL, STEPS_PER_PERCENT};
use iced_theme::vector::Vector;

#[test]
fn grid_holds_levels_and_percentages() {
    assert_eq!(FULL, 5100);
    assert_eq!(STEPS_PER_LEVEL, 20);
    assert_eq!(STEPS_PER_PERCENT, 51);
    assert_eq!(255 * STEPS_PER_LEVEL, FULL);
    assert_eq!(100 * STEPS_PER_PERCENT, FULL);
}

#[test]
fn level_counts_twenty_steps_each() {
    assert_eq!(level(0), 0);
    assert_eq!(level(1), 20);
    assert_eq!(level(0x72), 2280);
    assert_eq!(level(254), 5080);
    assert_eq!(level(255), 5100);
}

#[test]
fn level_is_always_in_range() {
    for n in 0..=255u8 {
        assert!(level(n) <= FULL);
        assert_eq!(u32::from(level(n)), u32::from(n) * 20);
    }
}

#[test]
fn percent_counts_fifty_one_steps_each() {
    assert_eq!(percent(0), 0);
    assert_eq!(percent(1), 51);
    assert_eq!(percent(10), 510);
    assert_eq!(percent(30), 1530);
    assert_eq!(percent(40), 2040);
    assert_eq!(percent(50), 2550);
    assert_eq!(percent(80), 4080);
    assert_eq!(percent(85), 4335);
    assert_eq!(percent(100), 5100);
}

#[test]
fn percent_above_hundred_leaves_the_range() {
    assert_eq!(percent(101), 5151);
    assert_eq!(percent(255), 13005);
    for p in 0..=255u8 {
        assert_eq!(percent(p) <= FULL, p <= 100);
    }
}

#[test]
fn named_colors() {
    assert_eq!(Color::black(), Color { r: 0, g: 0, b: 0, a: 5100 });
    assert_eq!(Color::white(), Color { r: 5100, g: 5100, b: 5100, a: 5100 });
    assert_eq!(Color::transparent(), Color { r: 0, g: 0, b: 0, a: 0 });
    assert!(Color::black().is_valid());
    assert!(Color::white().is_valid());
    assert!(Color::transparent().is_valid());
}

#[test]
fn from_rgb_is_opaque() {
    assert_eq!(Color::from_rgb(1, 2, 3), Color { r: 1, g: 2, b: 3, a: 5100 });
    assert_eq!(Color::from_rgb(0, 0, 0), Color::black());
    assert_eq!(Color::from_rgb(5100, 5100, 5100), Color::white());
}

#[test]
fn from_rgb8_reads_hex_digits() {
    assert_eq!(Color::from_rgb8(0x72, 0x89, 0xDA), Color { r: 2280, g: 2740, b: 4360, a: 5100 });
    assert_eq!(Color::from_rgb8(0, 0, 0), Color::black());
    assert_eq!(Color::from_rgb8(255, 255, 255), Color::white());
    assert!(Color::from_rgb8(0x6F, 0xFF, 0xE9).is_valid());
}

#[test]
fn with_alpha_replaces_only_the_opacity() {
    let color = Color { r: 11, g: 22, b: 33, a: 44 };
    assert_eq!(color.with_alpha(2550), Color { r: 11, g: 22, b: 33, a: 2550 });
    assert_eq!(color.with_alpha(44), color);
    assert_eq!(color.with_alpha(1).with_alpha(2), color.with_alpha(2));
    assert_eq!(color, Color { r: 11, g: 22, b: 33, a: 44 });
}

#[test]
fn validity_ends_at_full_intensity() {
    assert!(Color { r: 5100, g: 5100, b: 5100, a: 5100 }.is_valid());
    assert!(Color { r: 0, g: 0, b: 0, a: 0 }.is_valid());
    assert!(!Color { r: 5101, g: 0, b: 0, a: 0 }.is_valid());
    assert!(!Color { r: 0, g: 5101, b: 0, a: 0 }.is_valid());
    assert!(!Color { r: 0, g: 0, b: 5101, a: 0 }.is_valid());
    assert!(!Color { r: 0, g: 0, b: 0, a: 5101 }.is_valid());
    assert!(!Color { r: 0, g: 0, b: 0, a: u16::MAX }.is_valid());
}

#[test]
fn background_hands_its_color_back() {
    let color = Color { r: 1, g: 2, b: 3, a: 4 };
    assert_eq!(Background::Color(color).color(), color);
    assert_ne!(Background::Color(color), Background::Color(Color::black()));
}

#[test]
fn vectors_compare_by_parts() {
    assert_eq!(Vector::zero(), Vector { x: 0, y: 0 });
    assert_ne!(Vector { x: 0, y: 1 }, Vector { x: 1, y: 0 });
}
