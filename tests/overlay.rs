use digital_rain::buffer::ScreenBuffer;
use digital_rain::color::Color;
use digital_rain::overlay::{render_help, render_status, set_status, STATUS_DISPLAY_FRAMES};

fn row_text(buffer: &ScreenBuffer, y: u16) -> String {
    (0..buffer.width()).map(|x| buffer.get_cell(x, y).unwrap().ch).collect()
}

#[test]
fn help_box_is_centered() {
    let mut buffer = ScreenBuffer::new(50, 20);
    render_help(&mut buffer);
    // the box is 38 wide and 12 tall: it starts at column 6, row 4
    let title = buffer.get_cell(8, 5).unwrap();
    assert_eq!(title.ch, 'K');
    assert_eq!(title.fg, Color::Rgb { r: 0, g: 200, b: 80 });
    assert_eq!(buffer.get_cell(6, 4).unwrap().bg, Color::Rgb { r: 10, g: 10, b: 10 });
    assert_eq!(buffer.get_cell(43, 15).unwrap().bg, Color::Rgb { r: 10, g: 10, b: 10 });
    assert_eq!(buffer.get_cell(5, 4).unwrap().bg, Color::Reset);
    assert_eq!(buffer.get_cell(44, 4).unwrap().bg, Color::Reset);
    assert_eq!(buffer.get_cell(6, 16).unwrap().bg, Color::Reset);
    assert!(row_text(&buffer, 14).contains("q / Esc   Quit"));
}

#[test]
fn help_box_needs_room() {
    let mut buffer = ScreenBuffer::new(41, 30);
    render_help(&mut buffer);
    assert!(buffer.cells().iter().all(|c| c.bg == Color::Reset));
    let mut short = ScreenBuffer::new(80, 13);
    render_help(&mut short);
    assert!(short.cells().iter().all(|c| c.bg == Color::Reset));
}

#[test]
fn status_is_centered_on_the_bottom_row() {
    let mut buffer = ScreenBuffer::new(20, 3);
    render_status(&mut buffer, "Speed: 1.5x");
    // 11 characters in 20 columns start at column 4, with one space either side
    assert_eq!(row_text(&buffer, 2), "    Speed: 1.5x     ");
    assert_eq!(buffer.get_cell(3, 2).unwrap().bg, Color::Rgb { r: 10, g: 10, b: 10 });
    assert_eq!(buffer.get_cell(15, 2).unwrap().bg, Color::Rgb { r: 10, g: 10, b: 10 });
    assert_eq!(buffer.get_cell(2, 2).unwrap().bg, Color::Reset);
    assert_eq!(buffer.get_cell(16, 2).unwrap().bg, Color::Reset);
    assert_eq!(buffer.get_cell(4, 1).unwrap().bg, Color::Reset);
}

#[test]
fn status_is_cut_to_the_width() {
    let mut buffer = ScreenBuffer::new(10, 1);
    render_status(&mut buffer, "Random: classic / gold / 1.0x");
    assert_eq!(row_text(&buffer, 0), "Random: cl");
}

#[test]
fn status_needs_ten_columns() {
    let mut buffer = ScreenBuffer::new(9, 2);
    render_status(&mut buffer, "PAUSED");
    assert!(buffer.cells().iter().all(|c| c.ch == ' ' && c.bg == Color::Reset));
}

#[test]
fn set_status_keeps_the_message_for_a_while() {
    let mut message: Option<String> = None;
    let mut frames: u32 = 0;
    set_status(&mut message, &mut frames, "PAUSED");
    assert_eq!(message.as_deref(), Some("PAUSED"));
    assert_eq!(frames, STATUS_DISPLAY_FRAMES);
    assert_eq!(frames, 60);
}
