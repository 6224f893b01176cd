use digital_rain::buffer::ScreenBuffer;
use digital_rain::color::{color_to_rgb, Color};
use digital_rain::effects::Effect;
use digital_rain::transition::Transition;
use rand::rngs::StdRng;
use rand::SeedableRng;

/// Fills the buffer with a single character and color.
struct TestEffect {
    ch: char,
    color: Color,
}

impl Effect for TestEffect {
    fn name(&self) -> &'static str {
        "test"
    }
    fn update(&mut self, _dt: u64, _rng: &mut StdRng) {}
    fn render(&self, buffer: &mut ScreenBuffer) {
        for y in 0..buffer.height() {
            for x in 0..buffer.width() {
                buffer.set_cell(x, y, self.ch, self.color, Color::Reset);
            }
        }
    }
    fn resize(&mut self, _w: u16, _h: u16) {}
}

fn rgb(r: u8, g: u8, b: u8) -> Color {
    Color::Rgb { r, g, b }
}

fn green_frame() -> ScreenBuffer {
    let mut buffer = ScreenBuffer::new(5, 3);
    for y in 0..3 {
        for x in 0..5 {
            buffer.set_cell(x, y, 'B', rgb(0, 200, 0), Color::Reset);
        }
    }
    buffer
}

// Times are microseconds: 1_000_000 is one second.

#[test]
fn transition_starts_incomplete() {
    let effect = TestEffect { ch: 'A', color: rgb(255, 0, 0) };
    let t = Transition::new(effect, 10, 5, 1_000_000);
    assert!(!t.is_complete());
}

#[test]
fn transition_completes_after_duration() {
    let effect = TestEffect { ch: 'A', color: rgb(255, 0, 0) };
    let mut t = Transition::new(effect, 10, 5, 500_000);
    let mut rng = StdRng::seed_from_u64(1);
    t.update(600_000, &mut rng);
    assert!(t.is_complete());
}

#[test]
fn short_duration_is_raised_to_the_minimum() {
    let effect = TestEffect { ch: 'A', color: rgb(255, 0, 0) };
    let mut t = Transition::new(effect, 1, 1, 0);
    assert!(!t.is_complete());
    let mut rng = StdRng::seed_from_u64(1);
    t.update(49_999, &mut rng);
    assert!(!t.is_complete());
    t.update(1, &mut rng);
    assert!(t.is_complete());
}

#[test]
fn blend_at_start_favors_outgoing() {
    let outgoing = TestEffect { ch: 'A', color: rgb(200, 0, 0) };
    let mut t = Transition::new(outgoing, 5, 3, 1_000_000);
    let mut buffer = green_frame();

    t.render(&mut buffer);

    let cell = buffer.get_cell(2, 1).unwrap();
    assert_eq!(cell.ch, 'A');
    let (r, g, _) = color_to_rgb(cell.fg);
    assert!(r > g, "at t=0, red (outgoing) should dominate: r={} g={}", r, g);
}

#[test]
fn blend_at_end_favors_incoming() {
    let outgoing = TestEffect { ch: 'A', color: rgb(200, 0, 0) };
    let mut t = Transition::new(outgoing, 5, 3, 1_000_000);
    let mut rng = StdRng::seed_from_u64(2);
    t.update(950_000, &mut rng);
    let mut buffer = green_frame();

    t.render(&mut buffer);

    let cell = buffer.get_cell(2, 1).unwrap();
    assert_eq!(cell.ch, 'B');
    let (r, g, _) = color_to_rgb(cell.fg);
    assert!(g > r, "at t≈1, green (incoming) should dominate: r={} g={}", r, g);
}

#[test]
fn start_shows_outgoing_glyph_and_color_exactly() {
    let outgoing = TestEffect { ch: 'A', color: rgb(200, 0, 0) };
    let mut t = Transition::new(outgoing, 5, 3, 1_000_000);
    let mut buffer = green_frame();
    t.render(&mut buffer);
    for c in buffer.cells() {
        assert_eq!(c.ch, 'A');
        assert_eq!(c.fg, rgb(200, 0, 0));
    }
}

#[test]
fn midpoint_switches_to_incoming_glyph() {
    let outgoing = TestEffect { ch: 'A', color: rgb(200, 0, 0) };
    let mut t = Transition::new(outgoing, 5, 3, 1_000_000);
    let mut rng = StdRng::seed_from_u64(3);
    t.update(499_999, &mut rng);
    let mut before = green_frame();
    t.render(&mut before);
    assert_eq!(before.get_cell(0, 0).unwrap().ch, 'A');
    t.update(1, &mut rng);
    let mut after = green_frame();
    t.render(&mut after);
    assert_eq!(after.get_cell(0, 0).unwrap().ch, 'B');
    // half way: (200 + 0) / 2 red, (0 + 200) / 2 green
    assert_eq!(after.get_cell(0, 0).unwrap().fg, rgb(100, 100, 0));
}

#[test]
fn blank_cells_on_both_sides_are_left_alone() {
    let outgoing = TestEffect { ch: ' ', color: rgb(200, 0, 0) };
    let mut t = Transition::new(outgoing, 2, 2, 1_000_000);
    let mut buffer = ScreenBuffer::new(2, 2);
    t.render(&mut buffer);
    for c in buffer.cells() {
        assert_eq!(c.fg, Color::Reset);
    }
}

#[test]
fn effects_without_multipliers_report_one() {
    let mut effect = TestEffect { ch: 'A', color: rgb(1, 1, 1) };
    effect.set_speed(3000);
    effect.set_density(3000);
    assert_eq!(effect.speed(), 1000);
    assert_eq!(effect.density(), 1000);
    assert_eq!(effect.name(), "test");
}

#[test]
fn start_keeps_a_reset_outgoing_color() {
    // the outgoing effect draws blanks; the incoming frame has a glyph
    let outgoing = TestEffect { ch: ' ', color: Color::Reset };
    let mut t = Transition::new(outgoing, 5, 3, 1_000_000);
    let mut buffer = green_frame();
    t.render(&mut buffer);
    let cell = buffer.get_cell(1, 1).unwrap();
    assert_eq!(cell.ch, ' ');
    assert_eq!(cell.fg, Color::Reset);
}
