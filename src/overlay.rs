//! Text drawn over the effect: the key bindings box and a one-line status
//! message, both on a dark background.

use vstd::prelude::*;

use crate::buffer::{index_of, lemma_index_coords, lemma_index_in_grid, Cell, GridView, ScreenBuffer};
use crate::color::Color;

verus! {

/// The background of overlay text.
pub open spec fn overlay_bg() -> Color {
    Color::Rgb { r: 10, g: 10, b: 10 }
}

/// The color of overlay text.
pub open spec fn overlay_fg() -> Color {
    Color::Rgb { r: 180, g: 180, b: 180 }
}

/// The color of overlay titles and status messages.
pub open spec fn overlay_title() -> Color {
    Color::Rgb { r: 0, g: 200, b: 80 }
}

/// Width of the help box.
pub const HELP_WIDTH: u16 = 38;

/// Lines of the help box.
pub const HELP_HEIGHT: u16 = 12;

/// The help box's text, one entry per line.
pub open spec fn help_lines() -> Seq<Seq<char>> {
    seq![
        ""@,
        "  KEYBINDINGS"@,
        ""@,
        "  Space     Pause / Resume"@,
        "  +  -      Speed up / down"@,
        "  [  ]      Density down / up"@,
        "  n         Next effect"@,
        "  r         Randomize"@,
        "  t         Toggle auto-cycle timer"@,
        "  ?         Toggle this help"@,
        "  q / Esc   Quit"@,
        ""@,
    ]
}

/// Character `c` of `line`, or a space past its end.
pub open spec fn char_or_space(line: Seq<char>, c: int) -> char {
    if 0 <= c < line.len() {
        line[c]
    } else {
        ' '
    }
}

/// The cell of the help box at row `r`, column `c` of the box.
pub open spec fn help_cell(r: int, c: int) -> Cell {
    Cell {
        ch: char_or_space(help_lines()[r], c),
        fg: if r == 1 { overlay_title() } else { overlay_fg() },
        bg: overlay_bg(),
    }
}

/// Left column of the help box on a surface `w` wide.
pub open spec fn help_left(w: int) -> int {
    (w - HELP_WIDTH) / 2
}

/// Top row of the help box on a surface `h` tall.
pub open spec fn help_top(h: int) -> int {
    (h - HELP_HEIGHT) / 2
}

/// Cell `i` of `v` with the help box drawn over it.
pub open spec fn help_at(v: GridView, i: int) -> Cell {
    let w = v.width as int;
    let x = i % w;
    let y = i / w;
    let sx = help_left(w);
    let sy = help_top(v.height as int);
    if sx <= x < sx + HELP_WIDTH && sy <= y < sy + HELP_HEIGHT {
        help_cell(y - sy, x - sx)
    } else {
        v.cells[i]
    }
}

/// The help box over the composed frame of `v`, centered; nothing when the
/// surface is smaller than the box plus a margin of two columns a side and
/// one row.
pub open spec fn help_spec(v: GridView) -> Seq<Cell> {
    if v.width < HELP_WIDTH + 4 || v.height < HELP_HEIGHT + 2 {
        v.cells
    } else {
        Seq::new(v.cells.len(), |i: int| help_at(v, i))
    }
}

/// How many characters of `msg` the status line shows on a surface `w` wide.
pub open spec fn status_len(msg: Seq<char>, w: int) -> int {
    if msg.len() < w {
        msg.len() as int
    } else {
        w
    }
}

/// First column of the status message.
pub open spec fn status_start(msg: Seq<char>, w: int) -> int {
    (w - status_len(msg, w)) / 2
}

/// First column of the status line, padding included.
pub open spec fn status_pad_start(msg: Seq<char>, w: int) -> int {
    if status_start(msg, w) > 0 {
        status_start(msg, w) - 1
    } else {
        0
    }
}

/// Column after the status line, padding included.
pub open spec fn status_pad_end(msg: Seq<char>, w: int) -> int {
    let e = status_start(msg, w) + status_len(msg, w) + 1;
    if e < w {
        e
    } else {
        w
    }
}

/// Cell `i` of `v` with the status line drawn over it.
pub open spec fn status_at(v: GridView, msg: Seq<char>, i: int) -> Cell {
    let w = v.width as int;
    let x = i % w;
    let y = i / w;
    let sx = status_start(msg, w);
    if y == v.height - 1 && status_pad_start(msg, w) <= x < status_pad_end(msg, w) {
        Cell {
            ch: if sx <= x < sx + status_len(msg, w) { msg[x - sx] } else { ' ' },
            fg: overlay_title(),
            bg: overlay_bg(),
        }
    } else {
        v.cells[i]
    }
}

/// The status line over the composed frame of `v`: on the bottom row, the
/// first `min(len, width)` characters of `msg` centered, with one space of
/// padding on each side where it fits; nothing on a surface less than ten
/// columns wide or with no rows.
pub open spec fn status_spec(v: GridView, msg: Seq<char>) -> Seq<Cell> {
    if v.height < 1 || v.width < 10 {
        v.cells
    } else {
        Seq::new(v.cells.len(), |i: int| status_at(v, msg, i))
    }
}

/// Writing the cells of a rectangle's row one by one: the state after
/// column `x` of row `y` is the target on the cells before it.
proof fn lemma_write_step(
    v: GridView,
    before: Seq<Cell>,
    target: Seq<Cell>,
    x: int,
    y: int,
    c: Cell,
    done: spec_fn(int, int) -> bool,
    done_next: spec_fn(int, int) -> bool,
)
    requires
        0 <= x < v.width,
        0 <= y < v.height,
        before.len() == v.width * v.height,
        target.len() == before.len(),
        target[index_of(v.width, x, y)] == c,
        forall|i: int| 0 <= i < before.len() ==> #[trigger] before[i] == if done(i % (v.width as int), i / (v.width as int)) {
            target[i]
        } else {
            v.cells[i]
        },
        forall|a: int, b: int| #[trigger] done_next(a, b) == (done(a, b) || (a == x && b == y)),
        v.cells.len() == before.len(),
    ensures
        forall|i: int| 0 <= i < before.len() ==> #[trigger] before.update(index_of(v.width, x, y), c)[i] == if done_next(
            i % (v.width as int),
            i / (v.width as int),
        ) {
            target[i]
        } else {
            v.cells[i]
        },
{
    lemma_index_in_grid(v.width, v.height, x, y);
    let k = index_of(v.width, x, y);
    assert forall|i: int| 0 <= i < before.len() implies #[trigger] before.update(k, c)[i] == if done_next(
        i % (v.width as int),
        i / (v.width as int),
    ) {
        target[i]
    } else {
        v.cells[i]
    } by {
        lemma_index_coords(v.width, v.height, i);
        if i == k {
            vstd::arithmetic::div_mod::lemma_fundamental_div_mod_converse(i, v.width as int, y, x);
        } else {
            if i % (v.width as int) == x && i / (v.width as int) == y {
                assert(i == k);
            }
        }
    }
}

/// How many frames a status message stays on screen.
pub const STATUS_DISPLAY_FRAMES: u32 = 60;

/// Shows `text` as the status message for the next `STATUS_DISPLAY_FRAMES`
/// frames.
pub fn set_status(message: &mut Option<String>, frames: &mut u32, text: &str)
    ensures
        *final(message) matches Some(m) && m@ == text@,
        *final(frames) == STATUS_DISPLAY_FRAMES,
{
    *message = Some(text.to_owned());
    *frames = STATUS_DISPLAY_FRAMES;
}

/// Draws the key bindings box in the middle of the buffer, when it fits.
pub fn render_help(buffer: &mut ScreenBuffer)
    requires
        old(buffer).wf(),
    ensures
        final(buffer).wf(),
        final(buffer)@ == (GridView { cells: help_spec(old(buffer)@), ..old(buffer)@ }),
{
    let lines = [
        "",
        "  KEYBINDINGS",
        "",
        "  Space     Pause / Resume",
        "  +  -      Speed up / down",
        "  [  ]      Density down / up",
        "  n         Next effect",
        "  r         Randomize",
        "  t         Toggle auto-cycle timer",
        "  ?         Toggle this help",
        "  q / Esc   Quit",
        "",
    ];
    assert(lines@.map_values(|s: &str| s@) =~= help_lines());
    let w = buffer.width();
    let h = buffer.height();
    if w < HELP_WIDTH + 4 || h < HELP_HEIGHT + 2 {
        return;
    }
    let sx = (w - HELP_WIDTH) / 2;
    let sy = (h - HELP_HEIGHT) / 2;
    let ghost v = old(buffer)@;
    let ghost target = help_spec(v);
    assert(target.len() == v.cells.len());
    let mut row: u16 = 0;
    while row < HELP_HEIGHT
        invariant
            row <= HELP_HEIGHT,
            w == v.width,
            h == v.height,
            w >= HELP_WIDTH + 4,
            h >= HELP_HEIGHT + 2,
            sx == help_left(w as int),
            sy == help_top(h as int),
            lines@.map_values(|s: &str| s@) == help_lines(),
            target == help_spec(v),
            target.len() == v.cells.len(),
            buffer@.cells.len() == v.cells.len(),
            v == old(buffer)@,
            buffer.wf(),
            buffer@ == (GridView { cells: buffer@.cells, ..v }),
            forall|i: int| 0 <= i < v.cells.len() ==> #[trigger] buffer@.cells[i] == if sx <= i % (w as int) < sx
                + HELP_WIDTH && sy <= i / (w as int) < sy + row {
                target[i]
            } else {
                v.cells[i]
            },
        decreases HELP_HEIGHT - row,
    {
        let line = lines[row as usize];
        assert(line@ == help_lines()[row as int]);
        let len = line.unicode_len();
        let mut col: u16 = 0;
        while col < HELP_WIDTH
            invariant
                row < HELP_HEIGHT,
                col <= HELP_WIDTH,
                w == v.width,
                h == v.height,
                w >= HELP_WIDTH + 4,
                h >= HELP_HEIGHT + 2,
                sx == help_left(w as int),
                sy == help_top(h as int),
                line@ == help_lines()[row as int],
                len == line@.len(),
                target == help_spec(v),
                target.len() == v.cells.len(),
                buffer@.cells.len() == v.cells.len(),
                v == old(buffer)@,
                buffer.wf(),
                buffer@ == (GridView { cells: buffer@.cells, ..v }),
                forall|i: int| 0 <= i < v.cells.len() ==> #[trigger] buffer@.cells[i] == if (sx <= i % (w as int) < sx
                    + HELP_WIDTH && sy <= i / (w as int) < sy + row) || (i / (w as int) == sy + row && sx <= i % (
                w as int) < sx + col) {
                    target[i]
                } else {
                    v.cells[i]
                },
            decreases HELP_WIDTH - col,
        {
            let ch = if (col as usize) < len {
                line.get_char(col as usize)
            } else {
                ' '
            };
            let fg = if row == 1 {
                Color::Rgb { r: 0, g: 200, b: 80 }
            } else {
                Color::Rgb { r: 180, g: 180, b: 180 }
            };
            let c = Cell { ch, fg, bg: Color::Rgb { r: 10, g: 10, b: 10 } };
            let ghost before = buffer@.cells;
            let ghost (x, y) = ((sx + col) as int, (sy + row) as int);
            proof {
                lemma_index_in_grid(w, h, x, y);
                lemma_index_coords(w, h, index_of(w, x, y));
                vstd::arithmetic::div_mod::lemma_fundamental_div_mod_converse(index_of(w, x, y), w as int, y, x);
                assert(index_of(w, x, y) % (w as int) == x && index_of(w, x, y) / (w as int) == y);
                assert(target[index_of(w, x, y)] == help_at(v, index_of(w, x, y)));
                assert(help_cell(row as int, col as int) == c);
                assert(target[index_of(w, x, y)] == c);
                let done = |a: int, b: int| (sx <= a < sx + HELP_WIDTH && sy <= b < sy + row) || (b == sy + row && sx
                    <= a < sx + col);
                let done_next = |a: int, b: int| (sx <= a < sx + HELP_WIDTH && sy <= b < sy + row) || (b == sy + row
                    && sx <= a < sx + col + 1);
                lemma_write_step(v, before, target, x, y, c, done, done_next);
            }
            buffer.set_cell(sx + col, sy + row, ch, fg, Color::Rgb { r: 10, g: 10, b: 10 });
            col += 1;
        }
        row += 1;
    }
    proof {
        assert forall|i: int| 0 <= i < v.cells.len() implies #[trigger] buffer@.cells[i] == target[i] by {
            lemma_index_coords(w, h, i);
        }
    }
    assert(buffer@.cells =~= target);
}

/// Draws a status message centered on the bottom row.
pub fn render_status(buffer: &mut ScreenBuffer, message: &str)
    requires
        old(buffer).wf(),
    ensures
        final(buffer).wf(),
        final(buffer)@ == (GridView { cells: status_spec(old(buffer)@, message@), ..old(buffer)@ }),
{
    let w = buffer.width();
    let h = buffer.height();
    if h < 1 || w < 10 {
        return;
    }
    let len = message.unicode_len();
    let n: u16 = if len < w as usize {
        len as u16
    } else {
        w
    };
    let sx = (w - n) / 2;
    let ps = if sx > 0 {
        sx - 1
    } else {
        0
    };
    let pe = if (sx as u32) + (n as u32) + 1 < w as u32 {
        sx + n + 1
    } else {
        w
    };
    let y = h - 1;
    let ghost v = old(buffer)@;
    let ghost target = status_spec(v, message@);
    assert(target.len() == v.cells.len());
    let mut x = ps;
    while x < pe
        invariant
            ps <= x <= pe,
            pe <= w,
            w == v.width,
            h == v.height,
            h >= 1,
            w >= 10,
            y == h - 1,
            n == status_len(message@, w as int),
            sx == status_start(message@, w as int),
            ps == status_pad_start(message@, w as int),
            pe == status_pad_end(message@, w as int),
            len == message@.len(),
            target == status_spec(v, message@),
            target.len() == v.cells.len(),
            buffer@.cells.len() == v.cells.len(),
            v == old(buffer)@,
            buffer.wf(),
            buffer@ == (GridView { cells: buffer@.cells, ..v }),
            forall|i: int| 0 <= i < v.cells.len() ==> #[trigger] buffer@.cells[i] == if i / (w as int) == y && ps
                <= i % (w as int) < x {
                target[i]
            } else {
                v.cells[i]
            },
        decreases pe - x,
    {
        let ch = if x >= sx && x < sx + n {
            message.get_char((x - sx) as usize)
        } else {
            ' '
        };
        let c = Cell { ch, fg: Color::Rgb { r: 0, g: 200, b: 80 }, bg: Color::Rgb { r: 10, g: 10, b: 10 } };
        let ghost before = buffer@.cells;
        proof {
            lemma_index_in_grid(w, h, x as int, y as int);
            lemma_index_coords(w, h, index_of(w, x as int, y as int));
            vstd::arithmetic::div_mod::lemma_fundamental_div_mod_converse(
                index_of(w, x as int, y as int),
                w as int,
                y as int,
                x as int,
            );
            assert(target[index_of(w, x as int, y as int)] == status_at(v, message@, index_of(w, x as int, y as int)));
            assert(target[index_of(w, x as int, y as int)] == c);
            let done = |a: int, b: int| b == y && ps <= a < x;
            let done_next = |a: int, b: int| b == y && ps <= a < x + 1;
            lemma_write_step(v, before, target, x as int, y as int, c, done, done_next);
        }
        buffer.set_cell(x, y, ch, c.fg, c.bg);
        x += 1;
    }
    proof {
        assert forall|i: int| 0 <= i < v.cells.len() implies #[trigger] buffer@.cells[i] == target[i] by {
            lemma_index_coords(w, h, i);
        }
    }
    assert(buffer@.cells =~= target);
}

} // verus!
