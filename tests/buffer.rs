use digital_rain::buffer::ScreenBuffer;
use digital_rain::color::{color_eq, Color};

fn rgb(r: u8, g: u8, b: u8) -> Color {
    Color::Rgb { r, g, b }
}

#[test]
fn new_buffer_has_correct_dimensions() {
    let buf = ScreenBuffer::new(80, 24);
    assert_eq!(buf.width(), 80);
    assert_eq!(buf.height(), 24);
}

#[test]
fn set_and_get_cell() {
    let mut buf = ScreenBuffer::new(10, 10);
    let fg = rgb(0, 255, 0);
    buf.set_cell(5, 3, 'A', fg, Color::Reset);
    let cell = buf.get_cell(5, 3).unwrap();
    assert_eq!(cell.ch, 'A');
    assert!(matches!(cell.fg, Color::Rgb { r: 0, g: 255, b: 0 }));
}

#[test]
fn set_cell_out_of_bounds_is_ignored() {
    let mut buf = ScreenBuffer::new(10, 10);
    buf.set_cell(100, 100, 'X', Color::Reset, Color::Reset);
    assert!(buf.get_cell(100, 100).is_none());
}

#[test]
fn clear_resets_all_cells() {
    let mut buf = ScreenBuffer::new(5, 5);
    buf.set_cell(2, 2, 'Z', rgb(255, 0, 0), Color::Reset);
    buf.clear();
    let cell = buf.get_cell(2, 2).unwrap();
    assert_eq!(cell.ch, ' ');
    assert!(matches!(cell.fg, Color::Reset));
}

#[test]
fn resize_clears_and_updates_dimensions() {
    let mut buf = ScreenBuffer::new(10, 10);
    buf.set_cell(5, 5, 'A', Color::Reset, Color::Reset);
    buf.resize(20, 15);
    assert_eq!(buf.width(), 20);
    assert_eq!(buf.height(), 15);
    let cell = buf.get_cell(5, 5).unwrap();
    assert_eq!(cell.ch, ' ');
}

#[test]
fn color_eq_works_for_rgb() {
    assert!(color_eq(rgb(10, 20, 30), rgb(10, 20, 30)));
    assert!(!color_eq(rgb(10, 20, 30), rgb(10, 20, 31)));
}

#[test]
fn color_eq_reset_matches_reset() {
    assert!(color_eq(Color::Reset, Color::Reset));
}

#[test]
fn color_eq_different_variants_are_not_equal() {
    assert!(!color_eq(Color::Reset, rgb(0, 0, 0)));
}

#[test]
fn color_eq_compares_named_and_indexed_colors() {
    assert!(color_eq(Color::DarkCyan, Color::DarkCyan));
    assert!(!color_eq(Color::Red, Color::DarkRed));
    assert!(color_eq(Color::AnsiValue(9), Color::AnsiValue(9)));
    assert!(!color_eq(Color::AnsiValue(9), Color::Red));
}

#[test]
fn first_flush_draws_every_cell() {
    let mut buf = ScreenBuffer::new(7, 3);
    let draws = buf.flush();
    assert_eq!(draws.len(), 21);
    assert_eq!((draws[0].x, draws[0].y), (0, 0));
    assert_eq!((draws[8].x, draws[8].y), (1, 1));
}

#[test]
fn first_flush_after_resize_draws_every_cell() {
    let mut buf = ScreenBuffer::new(4, 4);
    buf.flush();
    buf.resize(6, 2);
    assert_eq!(buf.flush().len(), 12);
}

#[test]
fn idle_flush_draws_nothing() {
    let mut buf = ScreenBuffer::new(8, 8);
    assert_eq!(buf.flush().len(), 64);
    assert_eq!(buf.flush().len(), 0);
    assert_eq!(buf.flush().len(), 0);
}

#[test]
fn cleared_cell_is_drawn_once_then_idle() {
    let mut buf = ScreenBuffer::new(8, 8);
    buf.flush();
    buf.set_cell(1, 1, 'Q', rgb(1, 2, 3), Color::Reset);
    assert_eq!(buf.flush().len(), 1);
    // the frame after is blank again: the glyph is erased
    let draws = buf.flush();
    assert_eq!(draws.len(), 1);
    assert_eq!(draws[0].cell.ch, ' ');
    assert_eq!(buf.flush().len(), 0);
}

#[test]
fn out_of_range_write_leaves_grid_untouched() {
    let mut buf = ScreenBuffer::new(4, 3);
    buf.set_cell(1, 1, 'K', rgb(9, 9, 9), Color::Reset);
    let before: Vec<_> = buf.cells().to_vec();
    buf.set_cell(4, 0, 'X', Color::Reset, Color::Reset);
    buf.set_cell(0, 3, 'X', Color::Reset, Color::Reset);
    buf.set_cell(u16::MAX, u16::MAX, 'X', Color::Reset, Color::Reset);
    assert_eq!(buf.cells().to_vec(), before);
}

#[test]
fn zero_sized_buffer_flushes_nothing() {
    let mut buf = ScreenBuffer::new(0, 5);
    buf.set_cell(0, 0, 'X', Color::Reset, Color::Reset);
    assert_eq!(buf.flush().len(), 0);
}

#[test]
fn red_cell_scenario_redraws_only_on_change() {
    let mut buf = ScreenBuffer::new(10, 10);
    let red = rgb(255, 0, 0);
    buf.set_cell(5, 5, '#', red, Color::Reset);
    assert_eq!(buf.flush().len(), 100);
    buf.set_cell(5, 5, '#', red, Color::Reset);
    assert_eq!(buf.flush().len(), 0);
}

#[test]
fn buffer_cells_accessor_returns_correct_slice() {
    let mut buffer = ScreenBuffer::new(3, 2);
    buffer.set_cell(1, 0, 'A', rgb(255, 0, 0), Color::Reset);
    let cells = buffer.cells();
    assert_eq!(cells.len(), 6);
    assert_eq!(cells[1].ch, 'A');
}

#[test]
fn get_cell_mut_writes_in_place() {
    let mut buf = ScreenBuffer::new(4, 4);
    if let Some(cell) = buf.get_cell_mut(2, 3) {
        cell.ch = 'M';
        cell.bg = rgb(1, 2, 3);
    }
    assert_eq!(buf.get_cell(2, 3).unwrap().ch, 'M');
    assert_eq!(buf.get_cell(2, 3).unwrap().bg, rgb(1, 2, 3));
    assert!(buf.get_cell_mut(4, 0).is_none());
    assert_eq!(buf.cells().iter().filter(|c| c.ch != ' ').count(), 1);
}
