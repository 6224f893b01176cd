use digital_rain::buffer::{Cell, ScreenBuffer};
use digital_rain::color::{color_to_rgb, Color};
use digital_rain::crt::{noise_cell, CrtFilter};
use rand::rngs::StdRng;
use rand::SeedableRng;

fn rgb(r: u8, g: u8, b: u8) -> Color {
    Color::Rgb { r, g, b }
}

fn unwrap_rgb(c: Color) -> (u8, u8, u8) {
    match c {
        Color::Rgb { r, g, b } => (r, g, b),
        _ => panic!("expected Rgb color, got {:?}", c),
    }
}

/// The dual-sine flicker oscillator at `phase` seconds, in thousandths.
fn wave_at(phase: f64) -> i32 {
    let tau = std::f64::consts::TAU;
    let combined = (phase * 0.3 * tau).sin() * 0.6 + (phase * 1.7 * tau).sin() * 0.4;
    (combined * 1000.0).round() as i32
}

#[test]
fn toggle_flips_enabled_state() {
    let mut filter = CrtFilter::new(80, 24, false, 700);
    assert!(!filter.is_enabled());
    assert!(filter.toggle());
    assert!(filter.is_enabled());
    assert!(!filter.toggle());
    assert!(!filter.is_enabled());
}

#[test]
fn disabled_filter_does_not_modify_buffer() {
    let mut buffer = ScreenBuffer::new(10, 5);
    buffer.set_cell(5, 2, 'A', rgb(0, 255, 0), Color::Reset);

    let mut filter = CrtFilter::new(10, 5, false, 1000);
    let mut rng = StdRng::seed_from_u64(1);
    filter.apply(&mut buffer, 33_000, 0, &mut rng);

    let cell = buffer.get_cell(5, 2).unwrap();
    assert_eq!(cell.ch, 'A');
    assert_eq!(unwrap_rgb(cell.fg), (0, 255, 0));
}

#[test]
fn disabled_filter_leaves_every_cell_and_clock_alone() {
    let mut buffer = ScreenBuffer::new(6, 4);
    buffer.set_cell(1, 1, 'Z', rgb(250, 250, 250), rgb(3, 4, 5));
    buffer.set_cell(2, 2, 'Y', rgb(0, 180, 0), Color::Reset);
    let before = buffer.cells().to_vec();
    let mut filter = CrtFilter::new(6, 4, false, 1000);
    let mut rng = StdRng::seed_from_u64(2);
    filter.apply(&mut buffer, 1_000_000, 1000, &mut rng);
    assert_eq!(buffer.cells().to_vec(), before);
    assert_eq!(filter.flicker_phase(), 0);
}

#[test]
fn resize_updates_dimensions() {
    let mut filter = CrtFilter::new(80, 24, true, 700);
    filter.resize(120, 40);

    let mut buffer = ScreenBuffer::new(120, 40);
    buffer.set_cell(60, 20, 'X', rgb(0, 200, 0), Color::Reset);
    let mut rng = StdRng::seed_from_u64(3);
    filter.apply(&mut buffer, 33_000, 0, &mut rng);
}

#[test]
fn enabled_filter_advances_phase() {
    let mut filter = CrtFilter::new(4, 4, true, 500);
    let mut buffer = ScreenBuffer::new(4, 4);
    let mut rng = StdRng::seed_from_u64(4);
    filter.apply(&mut buffer, 33_000, 0, &mut rng);
    filter.apply(&mut buffer, 17_000, 0, &mut rng);
    assert_eq!(filter.flicker_phase(), 50_000);
    filter.set_enabled(false);
    filter.apply(&mut buffer, 17_000, 0, &mut rng);
    assert_eq!(filter.flicker_phase(), 50_000);
}

#[test]
fn intensity_is_clamped() {
    let mut buffer = ScreenBuffer::new(5, 4);
    buffer.set_cell(2, 0, 'A', rgb(0, 200, 0), Color::Reset);
    // intensity above one acts as one: even rows keep 45%
    let filter = CrtFilter::new(5, 4, true, 5000);
    filter.apply_scanlines(&mut buffer);
    assert_eq!(unwrap_rgb(buffer.get_cell(2, 0).unwrap().fg), (0, 90, 0));
    // negative intensity acts as zero: nothing changes
    let mut other = ScreenBuffer::new(5, 4);
    other.set_cell(2, 0, 'A', rgb(0, 200, 0), Color::Reset);
    CrtFilter::new(5, 4, true, -300).apply_scanlines(&mut other);
    assert_eq!(unwrap_rgb(other.get_cell(2, 0).unwrap().fg), (0, 200, 0));
}

#[test]
fn scanlines_dim_even_rows() {
    let mut buffer = ScreenBuffer::new(5, 4);
    let bright = rgb(0, 200, 0);
    buffer.set_cell(2, 0, 'A', bright, Color::Reset);
    buffer.set_cell(2, 1, 'B', bright, Color::Reset);

    let filter = CrtFilter::new(5, 4, true, 1000);
    filter.apply_scanlines(&mut buffer);

    let even_cell = buffer.get_cell(2, 0).unwrap();
    let odd_cell = buffer.get_cell(2, 1).unwrap();
    let (_, even_g, _) = unwrap_rgb(even_cell.fg);
    let (_, odd_g, _) = unwrap_rgb(odd_cell.fg);

    assert!(even_g < odd_g, "even row green {} should be less than odd row green {}", even_g, odd_g);
}

#[test]
fn scanlines_skip_empty_cells() {
    let mut buffer = ScreenBuffer::new(5, 2);
    buffer.set_cell(2, 0, ' ', Color::Reset, Color::Reset);

    let filter = CrtFilter::new(5, 2, true, 1000);
    filter.apply_scanlines(&mut buffer);

    let cell = buffer.get_cell(2, 0).unwrap();
    assert_eq!(cell.ch, ' ');
    assert!(matches!(cell.fg, Color::Reset));
}

#[test]
fn glow_brightens_neighbors_of_bright_cells() {
    let mut buffer = ScreenBuffer::new(5, 5);
    buffer.set_cell(2, 2, 'X', rgb(0, 255, 0), Color::Reset);

    let filter = CrtFilter::new(5, 5, true, 1000);
    filter.apply_glow(&mut buffer);

    let right = buffer.get_cell(3, 2).unwrap();
    let (r, g, _b) = color_to_rgb(right.bg);
    assert!(g > 0, "neighbor bg green should be > 0 from glow, got {}", g);
    assert_eq!(r, 0);
}

#[test]
fn glow_does_not_affect_dim_cells() {
    let mut buffer = ScreenBuffer::new(5, 5);
    buffer.set_cell(2, 2, 'X', rgb(0, 50, 0), Color::Reset);

    let filter = CrtFilter::new(5, 5, true, 1000);
    filter.apply_glow(&mut buffer);

    let right = buffer.get_cell(3, 2).unwrap();
    assert!(matches!(right.bg, Color::Reset), "dim cell should not cause glow");
}

#[test]
fn glow_reaches_exactly_the_four_cardinal_neighbors() {
    let mut buffer = ScreenBuffer::new(5, 5);
    buffer.set_cell(2, 2, 'X', rgb(0, 255, 0), Color::Reset);
    let filter = CrtFilter::new(5, 5, true, 1000);
    filter.apply_glow(&mut buffer);
    // 0.07 * 255 = 17.85, rounded down
    for (x, y) in [(2, 1), (2, 3), (1, 2), (3, 2)] {
        assert_eq!(buffer.get_cell(x, y).unwrap().bg, rgb(0, 17, 0));
    }
    for (x, y) in [(1, 1), (3, 3), (2, 2), (0, 2), (2, 0)] {
        assert_eq!(buffer.get_cell(x, y).unwrap().bg, Color::Reset);
    }
}

#[test]
fn glow_adds_up_and_saturates() {
    let mut buffer = ScreenBuffer::new(3, 1);
    buffer.set_cell(0, 0, 'A', rgb(255, 0, 0), Color::Reset);
    buffer.set_cell(2, 0, 'B', rgb(255, 0, 0), Color::Reset);
    buffer.set_cell(1, 0, 'C', rgb(0, 0, 0), rgb(250, 1, 2));
    let filter = CrtFilter::new(3, 1, true, 1000);
    filter.apply_glow(&mut buffer);
    assert_eq!(buffer.get_cell(1, 0).unwrap().bg, rgb(255, 1, 2));
}

#[test]
fn glow_ignores_blank_bright_cells() {
    let mut buffer = ScreenBuffer::new(3, 3);
    buffer.set_cell(1, 1, ' ', rgb(255, 255, 255), Color::Reset);
    let filter = CrtFilter::new(3, 3, true, 1000);
    filter.apply_glow(&mut buffer);
    assert_eq!(buffer.get_cell(1, 0).unwrap().bg, Color::Reset);
}

#[test]
fn flicker_modulates_brightness() {
    let mut buffer = ScreenBuffer::new(5, 3);
    buffer.set_cell(2, 1, 'A', rgb(0, 200, 0), Color::Reset);

    let filter = CrtFilter::new(5, 3, true, 1000);
    filter.apply_flicker(&mut buffer, wave_at(0.833));

    let cell = buffer.get_cell(2, 1).unwrap();
    let (_, g, _) = unwrap_rgb(cell.fg);
    assert!(g <= 200, "flicker should not brighten the cell, got {}", g);
}

#[test]
fn flicker_factor_spans_its_range() {
    let filter = CrtFilter::new(1, 1, true, 1000);
    let mut low = ScreenBuffer::new(1, 1);
    low.set_cell(0, 0, 'A', rgb(0, 200, 0), Color::Reset);
    filter.apply_flicker(&mut low, 1000);
    // the deepest dip is 8%
    assert_eq!(unwrap_rgb(low.get_cell(0, 0).unwrap().fg), (0, 184, 0));
    let mut high = ScreenBuffer::new(1, 1);
    high.set_cell(0, 0, 'A', rgb(0, 200, 0), Color::Reset);
    filter.apply_flicker(&mut high, -1000);
    assert_eq!(unwrap_rgb(high.get_cell(0, 0).unwrap().fg), (0, 200, 0));
}

#[test]
fn noise_leaves_blank_cells_alone() {
    let mut buffer = ScreenBuffer::new(40, 40);
    let filter = CrtFilter::new(40, 40, true, 1000);
    let mut rng = StdRng::seed_from_u64(5);
    for _ in 0..10 {
        filter.apply_noise(&mut buffer, &mut rng);
    }
    assert!(buffer.cells().iter().all(|c| c.ch == ' ' && c.fg == Color::Reset));
}

#[test]
fn noise_only_writes_noise_glyphs() {
    let mut buffer = ScreenBuffer::new(50, 50);
    for y in 0..50 {
        for x in 0..50 {
            buffer.set_cell(x, y, 'k', rgb(100, 100, 100), rgb(1, 1, 1));
        }
    }
    let filter = CrtFilter::new(50, 50, true, 1000);
    let mut rng = StdRng::seed_from_u64(6);
    for _ in 0..20 {
        filter.apply_noise(&mut buffer, &mut rng);
    }
    let noise = ['#', '%', '&', '@', '!', '/', '\\', '|', '.', ':'];
    for c in buffer.cells() {
        assert!(c.ch == 'k' || noise.contains(&c.ch));
        assert_eq!(c.bg, rgb(1, 1, 1));
    }
}

#[test]
fn glow_scenario_full_intensity_chain() {
    let mut buffer = ScreenBuffer::new(5, 5);
    buffer.set_cell(2, 2, '@', rgb(0, 255, 0), Color::Reset);
    let mut filter = CrtFilter::new(5, 5, true, 1000);
    let mut rng = StdRng::seed_from_u64(8);
    filter.apply(&mut buffer, 33_000, wave_at(0.033), &mut rng);
    for (x, y) in [(2, 1), (2, 3), (1, 2), (3, 2)] {
        let (r, g, b) = color_to_rgb(buffer.get_cell(x, y).unwrap().bg);
        assert!(g > 0);
        assert!(g > r && g > b);
    }
}

#[test]
fn noise_cell_applies_the_drawn_values() {
    let c = Cell { ch: 'k', fg: rgb(100, 200, 40), bg: rgb(1, 2, 3) };
    let hit = noise_cell(c, true, 3, 1200);
    assert_eq!(hit, Cell { ch: '@', fg: rgb(120, 240, 48), bg: rgb(1, 2, 3) });
    assert_eq!(noise_cell(c, false, 3, 1200), c);
    let blank = Cell { ch: ' ', fg: Color::Reset, bg: Color::Reset };
    assert_eq!(noise_cell(blank, true, 0, 700), blank);
    assert_eq!(noise_cell(c, true, 9, 700).ch, ':');
}
