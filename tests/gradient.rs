use digital_rain::color::{brightness, color_to_rgb, lerp_color, scale_color, trail_color, Color};

fn rgb(r: u8, g: u8, b: u8) -> Color {
    Color::Rgb { r, g, b }
}

fn unwrap_rgb(c: Color) -> (u8, u8, u8) {
    match c {
        Color::Rgb { r, g, b } => (r, g, b),
        _ => panic!("expected Rgb color"),
    }
}

// Fractions are thousandths: 0 is 0.0, 500 is 0.5, 1000 is 1.0.

#[test]
fn lerp_color_at_zero_returns_from() {
    let result = lerp_color(rgb(255, 0, 0), rgb(0, 255, 0), 0);
    assert_eq!(unwrap_rgb(result), (255, 0, 0));
}

#[test]
fn lerp_color_at_one_returns_to() {
    let result = lerp_color(rgb(255, 0, 0), rgb(0, 255, 0), 1000);
    assert_eq!(unwrap_rgb(result), (0, 255, 0));
}

#[test]
fn lerp_color_at_half_returns_midpoint() {
    let result = lerp_color(rgb(0, 0, 0), rgb(200, 100, 50), 500);
    assert_eq!(unwrap_rgb(result), (100, 50, 25));
}

#[test]
fn lerp_color_clamps_below_zero() {
    let result = lerp_color(rgb(100, 100, 100), rgb(200, 200, 200), -5000);
    assert_eq!(unwrap_rgb(result), (100, 100, 100));
}

#[test]
fn lerp_color_clamps_above_one() {
    let result = lerp_color(rgb(100, 100, 100), rgb(200, 200, 200), 10000);
    assert_eq!(unwrap_rgb(result), (200, 200, 200));
}

#[test]
fn lerp_color_non_rgb_defaults_to_black() {
    let result = lerp_color(Color::Reset, rgb(100, 100, 100), 500);
    assert_eq!(unwrap_rgb(result), (50, 50, 50));
}

#[test]
fn lerp_color_rounds_half_up() {
    // 0.3 of the way from 0 to 5 is 1.5, which rounds to 2
    assert_eq!(unwrap_rgb(lerp_color(rgb(0, 0, 0), rgb(5, 5, 5), 300)), (2, 2, 2));
}

#[test]
fn trail_color_at_head_is_close_to_head_color() {
    let head = rgb(220, 255, 220);
    let bright = rgb(0, 230, 50);
    let mid = rgb(0, 150, 30);
    let tail = rgb(0, 60, 15);
    let result = trail_color(head, bright, mid, tail, 0);
    assert_eq!(unwrap_rgb(result), (220, 255, 220));
}

#[test]
fn trail_color_at_tail_is_close_to_tail_color() {
    let head = rgb(220, 255, 220);
    let bright = rgb(0, 230, 50);
    let mid = rgb(0, 150, 30);
    let tail = rgb(0, 60, 15);
    let result = trail_color(head, bright, mid, tail, 1000);
    assert_eq!(unwrap_rgb(result), (0, 60, 15));
}

#[test]
fn trail_color_monotonically_decreases_green() {
    let head = rgb(220, 255, 220);
    let bright = rgb(0, 230, 50);
    let mid = rgb(0, 150, 30);
    let tail = rgb(0, 60, 15);

    let mut prev_g = 255u8;
    for i in 0..=10 {
        let pos = i * 100;
        let (_, g, _) = unwrap_rgb(trail_color(head, bright, mid, tail, pos));
        assert!(g <= prev_g, "green should decrease along trail: {} > {} at pos {}", g, prev_g, pos);
        prev_g = g;
    }
}

#[test]
fn trail_color_stops_are_exact() {
    let head = rgb(220, 255, 220);
    let bright = rgb(0, 230, 50);
    let mid = rgb(0, 150, 30);
    let tail = rgb(0, 60, 15);
    assert_eq!(unwrap_rgb(trail_color(head, bright, mid, tail, 150)), (0, 230, 50));
    assert_eq!(unwrap_rgb(trail_color(head, bright, mid, tail, 500)), (0, 150, 30));
    assert_eq!(unwrap_rgb(trail_color(head, bright, mid, tail, 750)), (0, 105, 23));
    assert_eq!(unwrap_rgb(trail_color(head, bright, mid, tail, -3)), (220, 255, 220));
}

#[test]
fn scale_color_dims_correctly() {
    let result = scale_color(rgb(200, 100, 50), 500);
    assert_eq!(unwrap_rgb(result), (100, 50, 25));
}

#[test]
fn scale_color_clamps_to_255() {
    let result = scale_color(rgb(200, 200, 200), 2000);
    assert_eq!(unwrap_rgb(result), (255, 255, 255));
}

#[test]
fn scale_color_passes_through_non_rgb() {
    let result = scale_color(Color::Reset, 500);
    assert!(matches!(result, Color::Reset));

    let result2 = scale_color(Color::Green, 500);
    assert!(matches!(result2, Color::Green));
}

#[test]
fn brightness_is_largest_channel() {
    assert_eq!(brightness(rgb(10, 200, 30)), 200);
    assert_eq!(brightness(Color::Reset), 0);
    assert_eq!(color_to_rgb(Color::Blue), (0, 0, 0));
}
