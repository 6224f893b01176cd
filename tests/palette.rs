use digital_rain::color::Color;
use digital_rain::palette::{hand_tuned_names, hand_tuned_palette, palette_names, Palette};

#[test]
fn palette_names_not_empty() {
    assert!(!palette_names().is_empty());
}

#[test]
fn hand_tuned_palettes_listed_first() {
    let names = palette_names();
    for (i, ht) in hand_tuned_names().iter().enumerate() {
        assert_eq!(names[i], *ht);
    }
}

#[test]
fn no_duplicate_names() {
    let names = palette_names();
    let mut seen = std::collections::HashSet::new();
    for name in &names {
        assert!(seen.insert(name), "Duplicate palette name: {}", name);
    }
}

#[test]
fn total_palette_count_is_reasonable() {
    let names = palette_names();
    assert!(names.len() > 140, "Expected 140+ palettes, got {}", names.len());
}

#[test]
fn palette_names_skip_css_names_that_are_hand_tuned() {
    let names = palette_names();
    // 9 hand-tuned; of the 148 CSS names, red, cyan, gold, silver and purple are hand-tuned
    assert_eq!(names.len(), 9 + 148 - 5);
    assert_eq!(names[9], "aliceblue");
}

#[test]
fn hand_tuned_lookup_ignores_case_and_knows_the_alias() {
    assert_eq!(hand_tuned_palette("GOLD"), Some(Palette::gold()));
    assert_eq!(hand_tuned_palette("monochrome"), Some(Palette::silver()));
    assert_eq!(hand_tuned_palette("coral"), None);
    assert_eq!(hand_tuned_palette("nonexistent"), None);
}

#[test]
fn classic_palette_values() {
    let p = Palette::classic();
    assert_eq!(p.head, Color::Rgb { r: 220, g: 255, b: 220 });
    assert_eq!(p.highlight, Color::Rgb { r: 255, g: 215, b: 0 });
    assert_eq!(p.background, Color::Reset);
}
