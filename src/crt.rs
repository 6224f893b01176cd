//! The post-processing filter chain that imitates a CRT monitor: phosphor
//! glow, scanlines, flicker and noise, applied in that order.

use vstd::prelude::*;

use crate::buffer::{grid_index, index_of, lemma_index_coords, lemma_index_in_grid, Cell, GridView, ScreenBuffer};
use crate::color::{brightness, brightness_of, color_to_rgb, rgb_of, scale_color, scale_spec, Color};
use crate::random::{random_below, random_ratio};

verus! {

/// A cell glows when its foreground is at least this bright.
pub const GLOW_THRESHOLD: u8 = 170;

/// The glyphs that noise writes over a cell.
pub open spec fn noise_chars() -> Seq<char> {
    seq!['#', '%', '&', '@', '!', '/', '\\', '|', '.', ':']
}

/// What a filter holds.
pub struct CrtView {
    pub enabled: bool,
    /// Thousandths, within `[0, 1000]`.
    pub intensity: u32,
    pub width: u16,
    pub height: u16,
    /// Microseconds of enabled time so far.
    pub flicker_phase: u64,
    pub frame_count: u64,
}

/// `v` clamped to `[lo, hi]`.
pub open spec fn clamp(v: int, lo: int, hi: int) -> int {
    if v < lo {
        lo
    } else if v > hi {
        hi
    } else {
        v
    }
}

/// Glow strength, in millionths: 0.07 times the intensity.
pub open spec fn glow_strength(intensity: u32) -> int {
    70 * intensity
}

/// A cell that lights up its neighbors: bright enough and not blank.
pub open spec fn glows(c: Cell) -> bool {
    brightness_of(c.fg) >= GLOW_THRESHOLD && c.ch != ' '
}

/// The neighbor of `(x, y)` at offset `(dx, dy)`, if inside the grid.
pub open spec fn neighbor(cells: Seq<Cell>, w: u16, h: u16, x: int, y: int, dx: int, dy: int) -> Option<Cell> {
    let (nx, ny) = (x + dx, y + dy);
    if 0 <= nx < w && 0 <= ny < h {
        Some(cells[index_of(w, nx, ny)])
    } else {
        None
    }
}

/// What a neighbor adds to the channels of a background: its foreground
/// channels times the strength (rounded down) if it glows, nothing else.
pub open spec fn glow_from(n: Option<Cell>, strength: int) -> (int, int, int) {
    match n {
        Some(c) => if glows(c) {
            let (r, g, b) = rgb_of(c.fg);
            (r * strength / 1_000_000, g * strength / 1_000_000, b * strength / 1_000_000)
        } else {
            (0, 0, 0)
        },
        None => (0, 0, 0),
    }
}

/// A neighbor that is there and glows.
pub open spec fn is_glowing(n: Option<Cell>) -> bool {
    match n {
        Some(c) => glows(c),
        None => false,
    }
}

/// Some cardinal neighbor of `(x, y)` glows.
pub open spec fn lit(cells: Seq<Cell>, w: u16, h: u16, x: int, y: int) -> bool {
    is_glowing(neighbor(cells, w, h, x, y, 0, -1)) || is_glowing(neighbor(cells, w, h, x, y, 0, 1))
        || is_glowing(neighbor(cells, w, h, x, y, -1, 0)) || is_glowing(neighbor(cells, w, h, x, y, 1, 0))
}

/// The sum of what the four cardinal neighbors of `(x, y)` add.
pub open spec fn glow_sum(cells: Seq<Cell>, w: u16, h: u16, x: int, y: int, strength: int) -> (int, int, int) {
    let a = glow_from(neighbor(cells, w, h, x, y, 0, -1), strength);
    let b = glow_from(neighbor(cells, w, h, x, y, 0, 1), strength);
    let c = glow_from(neighbor(cells, w, h, x, y, -1, 0), strength);
    let d = glow_from(neighbor(cells, w, h, x, y, 1, 0), strength);
    (a.0 + b.0 + c.0 + d.0, a.1 + b.1 + c.1 + d.1, a.2 + b.2 + c.2 + d.2)
}

/// `a + b`, at most 255.
pub open spec fn sat(a: int, b: int) -> u8 {
    if a + b > 255 {
        255
    } else {
        (a + b) as u8
    }
}

/// The cell at `(x, y)` after glow: when a neighbor glows, its background
/// becomes a true color with the neighbors' glow added, saturating at 255.
pub open spec fn glow_cell(cells: Seq<Cell>, w: u16, h: u16, x: int, y: int, strength: int) -> Cell {
    let c = cells[index_of(w, x, y)];
    if lit(cells, w, h, x, y) {
        let (r, g, b) = rgb_of(c.bg);
        let s = glow_sum(cells, w, h, x, y, strength);
        Cell { bg: Color::Rgb { r: sat(r as int, s.0), g: sat(g as int, s.1), b: sat(b as int, s.2) }, ..c }
    } else {
        c
    }
}

/// The glow pass over a grid `w` wide and `h` tall.
pub open spec fn glow_spec(cells: Seq<Cell>, w: u16, h: u16, intensity: u32) -> Seq<Cell> {
    let s = glow_strength(intensity);
    if s < 1000 || w == 0 || h == 0 {
        cells
    } else {
        Seq::new(cells.len(), |i: int| glow_cell(cells, w, h, i % (w as int), i / (w as int), s))
    }
}

/// Scanline dimming factor, in thousandths: one minus 0.55 times the intensity.
pub open spec fn scan_factor(intensity: u32) -> int {
    1000 - 550 * intensity / 1000
}

/// A non-blank cell with both colors scaled by `factor` thousandths.
pub open spec fn dim_cell(c: Cell, factor: int) -> Cell {
    if c.ch == ' ' {
        c
    } else {
        Cell { fg: scale_spec(c.fg, factor), bg: scale_spec(c.bg, factor), ..c }
    }
}

/// The scanline pass: every even row is dimmed.
pub open spec fn scan_spec(cells: Seq<Cell>, w: u16, intensity: u32) -> Seq<Cell> {
    Seq::new(
        cells.len(),
        |i: int| if (i / (w as int)) % 2 == 0 { dim_cell(cells[i], scan_factor(intensity)) } else { cells[i] },
    )
}

/// Flicker brightness factor, in thousandths, for an oscillator value
/// `wave` in thousandths (clamped to `[-1000, 1000]`): one minus 0.08 times
/// the intensity times `(wave + 1) / 2`.
pub open spec fn flicker_factor(intensity: u32, wave: i32) -> int {
    1000 - 80 * intensity * (clamp(wave as int, -1000, 1000) + 1000) / 2_000_000
}

/// The flicker pass: every non-blank cell is scaled by the flicker factor;
/// nothing changes when the greatest dip is below a thousandth.
pub open spec fn flicker_spec(cells: Seq<Cell>, intensity: u32, wave: i32) -> Seq<Cell> {
    if 80 * intensity < 1000 {
        cells
    } else {
        Seq::new(cells.len(), |i: int| dim_cell(cells[i], flicker_factor(intensity, wave)))
    }
}

/// The noise pass may turn `a` into `b`: `b` is `a`, or (at an intensity
/// where noise runs) `a` after a noise hit with some glyph and some factor in
/// `[700, 1300)` thousandths.
pub open spec fn noise_step(a: Cell, b: Cell, intensity: u32) -> bool {
    b == a || (2 * intensity >= 100 && exists|k: int, f: int|
        0 <= k < 10 && 700 <= f < 1300 && b == #[trigger] noise_cell_spec(a, true, k, f))
}

/// The cell `c` after noise, given whether the draw hit it, the index `k` of
/// the noise glyph and the foreground `factor` in thousandths: a hit on a
/// non-blank cell takes that glyph and the scaled foreground; any other cell
/// is kept.
pub open spec fn noise_cell_spec(c: Cell, hit: bool, k: int, factor: int) -> Cell {
    if hit && c.ch != ' ' {
        Cell { ch: noise_chars()[k], fg: scale_spec(c.fg, factor), bg: c.bg }
    } else {
        c
    }
}

/// Applies the noise drawn for one cell (see `noise_cell_spec`).
pub fn noise_cell(c: Cell, hit: bool, k: usize, factor: u32) -> (r: Cell)
    requires
        k < 10,
        700 <= factor < 1300,
    ensures
        r == noise_cell_spec(c, hit, k as int, factor as int),
{
    if hit && c.ch != ' ' {
        let noise = ['#', '%', '&', '@', '!', '/', '\\', '|', '.', ':'];
        assert(noise@ =~= noise_chars());
        Cell { ch: noise[k], fg: scale_color(c.fg, factor), bg: c.bg }
    } else {
        c
    }
}

/// The noise pass over a whole grid.
pub open spec fn noise_spec(a: Seq<Cell>, b: Seq<Cell>, intensity: u32) -> bool {
    &&& a.len() == b.len()
    &&& forall|i: int| 0 <= i < a.len() ==> noise_step(#[trigger] a[i], b[i], intensity)
}

/// Glow touches a cell only through its neighbors: a cell none of whose
/// cardinal neighbors glows (each is dimmer than the threshold, blank or
/// outside the grid) comes out of the glow pass unchanged.
pub proof fn lemma_glow_needs_glowing_neighbor(cells: Seq<Cell>, w: u16, h: u16, intensity: u32, x: int, y: int)
    requires
        cells.len() == w * h,
        0 <= x < w,
        0 <= y < h,
        !lit(cells, w, h, x, y),
    ensures
        glow_spec(cells, w, h, intensity)[index_of(w, x, y)] == cells[index_of(w, x, y)],
{
    lemma_index_in_grid(w, h, x, y);
    let i = index_of(w, x, y);
    if !(glow_strength(intensity) < 1000 || w == 0 || h == 0) {
        lemma_index_coords(w, h, i);
        vstd::arithmetic::div_mod::lemma_fundamental_div_mod_converse(i, w as int, y, x);
    }
}

/// The CRT filter: its switch, its intensity and its clocks.
pub struct CrtFilter {
    enabled: bool,
    intensity: u32,
    width: u16,
    height: u16,
    flicker_phase: u64,
    frame_count: u64,
}

impl View for CrtFilter {
    type V = CrtView;

    closed spec fn view(&self) -> CrtView {
        CrtView {
            enabled: self.enabled,
            intensity: self.intensity,
            width: self.width,
            height: self.height,
            flicker_phase: self.flicker_phase,
            frame_count: self.frame_count,
        }
    }
}

fn copy_cells(cells: &[Cell]) -> (r: Vec<Cell>)
    ensures
        r@ == cells@,
{
    let mut r: Vec<Cell> = Vec::new();
    let mut i: usize = 0;
    while i < cells.len()
        invariant
            i <= cells@.len(),
            r@ == cells@.take(i as int),
        decreases cells@.len() - i,
    {
        r.push(cells[i]);
        i += 1;
        assert(r@ =~= cells@.take(i as int));
    }
    assert(r@ =~= cells@);
    r
}

/// The neighbor at offset `(dx, dy)` of the cell at `(x, y)`, if inside.
fn neighbor_at(cells: &Vec<Cell>, w: u16, h: u16, x: u16, y: u16, dx: i32, dy: i32) -> (r: Option<Cell>)
    requires
        cells@.len() == w * h,
        -1 <= dx <= 1,
        -1 <= dy <= 1,
    ensures
        r == neighbor(cells@, w, h, x as int, y as int, dx as int, dy as int),
{
    let nx = x as i32 + dx;
    let ny = y as i32 + dy;
    if 0 <= nx && nx < w as i32 && 0 <= ny && ny < h as i32 {
        Some(cells[grid_index(w, h, nx as u16, ny as u16)])
    } else {
        None
    }
}

fn glow_of(n: Option<Cell>, strength: u32) -> (r: (u32, u32, u32, bool))
    requires
        strength <= 70_000,
    ensures
        (r.0 as int, r.1 as int, r.2 as int) == glow_from(n, strength as int),
        r.3 == is_glowing(n),
        r.0 <= 17 && r.1 <= 17 && r.2 <= 17,
{
    match n {
        Some(c) => {
            if brightness(c.fg) >= GLOW_THRESHOLD && c.ch != ' ' {
                let (r, g, b) = color_to_rgb(c.fg);
                assert((r as u32) * strength <= 255 * 70_000 && (g as u32) * strength <= 255 * 70_000 && (b as u32)
                    * strength <= 255 * 70_000) by (nonlinear_arith)
                    requires
                        strength <= 70_000,
                        r <= 255,
                        g <= 255,
                        b <= 255,
                ;
                (
                    (r as u32) * strength / 1_000_000,
                    (g as u32) * strength / 1_000_000,
                    (b as u32) * strength / 1_000_000,
                    true,
                )
            } else {
                (0, 0, 0, false)
            }
        },
        None => (0, 0, 0, false),
    }
}

fn sat_add(a: u8, b: u32) -> (r: u8)
    requires
        b <= 255,
    ensures
        r == sat(a as int, b as int),
{
    let s = a as u32 + b;
    if s > 255 {
        255
    } else {
        s as u8
    }
}

/// The phase after `dt` more microseconds, saturating at `u64::MAX`.
pub open spec fn advance_phase(phase: u64, dt: u64) -> u64 {
    if phase + dt > u64::MAX {
        u64::MAX
    } else {
        (phase + dt) as u64
    }
}

/// The frame counter after one more frame, wrapping to zero.
pub open spec fn next_frame(n: u64) -> u64 {
    if n == u64::MAX {
        0
    } else {
        (n + 1) as u64
    }
}

/// What one enabled application of the chain does to the cells of a grid
/// `w` wide and `h` tall, before noise: glow, then scanlines, then flicker.
pub open spec fn chain_before_noise(cells: Seq<Cell>, w: u16, h: u16, intensity: u32, wave: i32) -> Seq<Cell> {
    flicker_spec(scan_spec(glow_spec(cells, w, h, intensity), w, intensity), intensity, wave)
}

impl CrtFilter {
    /// The intensity is within `[0, 1000]` thousandths.
    pub open spec fn wf(&self) -> bool {
        self@.intensity <= 1000
    }

    /// A filter for a surface of the given size, with `intensity` in
    /// thousandths clamped to `[0, 1000]`.
    pub fn new(width: u16, height: u16, enabled: bool, intensity: i32) -> (r: CrtFilter)
        ensures
            r.wf(),
            r@ == (CrtView {
                enabled,
                intensity: clamp(intensity as int, 0, 1000) as u32,
                width,
                height,
                flicker_phase: 0,
                frame_count: 0,
            }),
    {
        let i: u32 = if intensity < 0 {
            0
        } else if intensity > 1000 {
            1000
        } else {
            intensity as u32
        };
        CrtFilter { enabled, intensity: i, width, height, flicker_phase: 0, frame_count: 0 }
    }

    /// Switches the filter on or off; returns the new state.
    pub fn toggle(&mut self) -> (r: bool)
        ensures
            r == !old(self)@.enabled,
            final(self)@ == (CrtView { enabled: r, ..old(self)@ }),
    {
        self.enabled = !self.enabled;
        self.enabled
    }

    /// Whether the filter is on.
    pub fn is_enabled(&self) -> (r: bool)
        ensures
            r == self@.enabled,
    {
        self.enabled
    }

    /// Switches the filter on or off.
    pub fn set_enabled(&mut self, enabled: bool)
        ensures
            final(self)@ == (CrtView { enabled, ..old(self)@ }),
    {
        self.enabled = enabled;
    }

    /// Takes the new surface size; the clocks are kept.
    pub fn resize(&mut self, width: u16, height: u16)
        ensures
            final(self)@ == (CrtView { width, height, ..old(self)@ }),
    {
        self.width = width;
        self.height = height;
    }

    /// Microseconds of enabled time so far; the flicker oscillator runs on it.
    pub fn flicker_phase(&self) -> (r: u64)
        ensures
            r == self@.flicker_phase,
    {
        self.flicker_phase
    }

    /// Applies the chain to the buffer when the filter is on: the clocks
    /// advance by `delta_time` microseconds, then glow, scanlines, flicker and
    /// noise run in that order. `wave` is the flicker oscillator's value, in
    /// thousandths within `[-1000, 1000]` (clamped), at the advanced phase.
    /// When the filter is off nothing changes.
    pub fn apply(&mut self, buffer: &mut ScreenBuffer, delta_time: u64, wave: i32, rng: &mut rand::rngs::StdRng)
        requires
            old(self).wf(),
            old(buffer).wf(),
        ensures
            final(self).wf(),
            final(buffer).wf(),
            !old(self)@.enabled ==> final(self)@ == old(self)@ && final(buffer)@ == old(buffer)@,
            old(self)@.enabled ==> final(self)@ == (CrtView {
                width: old(buffer)@.width,
                height: old(buffer)@.height,
                flicker_phase: advance_phase(old(self)@.flicker_phase, delta_time),
                frame_count: next_frame(old(self)@.frame_count),
                ..old(self)@
            }),
            old(self)@.enabled ==> final(buffer)@ == (GridView { cells: final(buffer)@.cells, ..old(buffer)@ }),
            old(self)@.enabled ==> noise_spec(
                chain_before_noise(old(buffer)@.cells, old(buffer)@.width, old(buffer)@.height, old(self)@.intensity, wave),
                final(buffer)@.cells,
                old(self)@.intensity,
            ),
    {
        if !self.enabled {
            return;
        }
        self.width = buffer.width();
        self.height = buffer.height();
        self.flicker_phase = if self.flicker_phase <= u64::MAX - delta_time {
            self.flicker_phase + delta_time
        } else {
            u64::MAX
        };
        self.frame_count = if self.frame_count == u64::MAX {
            0
        } else {
            self.frame_count + 1
        };
        self.apply_glow(buffer);
        self.apply_scanlines(buffer);
        self.apply_flicker(buffer, wave);
        self.apply_noise(buffer, rng);
    }

    /// Phosphor glow: every cell with a glowing cardinal neighbor gets that
    /// neighbor's foreground, times the glow strength, added to its
    /// background. Brightness is read from a snapshot taken first.
    pub fn apply_glow(&self, buffer: &mut ScreenBuffer)
        requires
            self.wf(),
            old(buffer).wf(),
        ensures
            final(buffer).wf(),
            final(buffer)@ == (GridView {
                cells: glow_spec(old(buffer)@.cells, old(buffer)@.width, old(buffer)@.height, self@.intensity),
                ..old(buffer)@
            }),
    {
        let w = buffer.width();
        let h = buffer.height();
        if w == 0 || h == 0 {
            return;
        }
        let strength: u32 = 70 * self.intensity;
        if strength < 1000 {
            return;
        }
        let snap = copy_cells(buffer.cells());
        let ghost target = glow_spec(snap@, w, h, self@.intensity);
        let n = snap.len();
        let mut i: usize = 0;
        while i < n
            invariant
                i <= n,
                n == snap@.len(),
                n == w * h,
                w > 0,
                w == old(buffer)@.width,
                h == old(buffer)@.height,
                strength == glow_strength(self@.intensity),
                strength >= 1000,
                self.wf(),
                buffer.wf(),
                target == glow_spec(snap@, w, h, self@.intensity),
                buffer@ == (GridView { cells: buffer@.cells, ..old(buffer)@ }),
                snap@ == old(buffer)@.cells,
                forall|k: int| 0 <= k < i ==> buffer@.cells[k] == #[trigger] target[k],
                forall|k: int| i <= k < n ==> buffer@.cells[k] == #[trigger] snap@[k],
            decreases n - i,
        {
            proof {
                lemma_index_coords(w, h, i as int);
            }
            let x = (i % (w as usize)) as u16;
            let y = (i / (w as usize)) as u16;
            let (r1, g1, b1, l1) = glow_of(neighbor_at(&snap, w, h, x, y, 0, -1), strength);
            let (r2, g2, b2, l2) = glow_of(neighbor_at(&snap, w, h, x, y, 0, 1), strength);
            let (r3, g3, b3, l3) = glow_of(neighbor_at(&snap, w, h, x, y, -1, 0), strength);
            let (r4, g4, b4, l4) = glow_of(neighbor_at(&snap, w, h, x, y, 1, 0), strength);
            let c = snap[i];
            if l1 || l2 || l3 || l4 {
                let (br, bgc, bb) = color_to_rgb(c.bg);
                let bg = Color::Rgb {
                    r: sat_add(br, r1 + r2 + r3 + r4),
                    g: sat_add(bgc, g1 + g2 + g3 + g4),
                    b: sat_add(bb, b1 + b2 + b3 + b4),
                };
                buffer.set_cell(x, y, c.ch, c.fg, bg);
            }
            assert(target[i as int] == glow_cell(snap@, w, h, x as int, y as int, strength as int));
            i += 1;
        }
        assert(buffer@.cells =~= target);
    }

    /// Scanlines: every non-blank cell of an even row is dimmed.
    pub fn apply_scanlines(&self, buffer: &mut ScreenBuffer)
        requires
            self.wf(),
            old(buffer).wf(),
        ensures
            final(buffer).wf(),
            final(buffer)@ == (GridView {
                cells: scan_spec(old(buffer)@.cells, old(buffer)@.width, self@.intensity),
                ..old(buffer)@
            }),
    {
        let w = buffer.width();
        let h = buffer.height();
        let ghost target = scan_spec(old(buffer)@.cells, w, self@.intensity);
        if w == 0 {
            assert(buffer@.cells =~= target);
            return;
        }
        let dim: u32 = 1000 - 550 * self.intensity / 1000;
        let n = buffer.cells().len();
        let mut i: usize = 0;
        while i < n
            invariant
                i <= n,
                n == w * h,
                w > 0,
                w == old(buffer)@.width,
                h == old(buffer)@.height,
                dim == scan_factor(self@.intensity),
                self.wf(),
                buffer.wf(),
                buffer@ == (GridView { cells: buffer@.cells, ..old(buffer)@ }),
                target == scan_spec(old(buffer)@.cells, w, self@.intensity),
                old(buffer)@.cells.len() == n,
                target.len() == n,
                forall|k: int| 0 <= k < i ==> buffer@.cells[k] == #[trigger] target[k],
                forall|k: int| i <= k < n ==> buffer@.cells[k] == #[trigger] old(buffer)@.cells[k],
            decreases n - i,
        {
            proof {
                lemma_index_coords(w, h, i as int);
            }
            let x = (i % (w as usize)) as u16;
            let y = (i / (w as usize)) as u16;
            let c = buffer.cells()[i];
            assert(c == old(buffer)@.cells[i as int]);
            assert(target[i as int] == if y % 2 == 0 { dim_cell(c, dim as int) } else { c });
            if y % 2 == 0 && c.ch != ' ' {
                buffer.set_cell(x, y, c.ch, scale_color(c.fg, dim), scale_color(c.bg, dim));
            }
            assert(buffer@.cells[i as int] == target[i as int]);
            i += 1;
        }
        assert(buffer@.cells =~= target);
    }

    /// Flicker: every non-blank cell is scaled by the flicker factor.
    pub fn apply_flicker(&self, buffer: &mut ScreenBuffer, wave: i32)
        requires
            self.wf(),
            old(buffer).wf(),
        ensures
            final(buffer).wf(),
            final(buffer)@ == (GridView { cells: flicker_spec(old(buffer)@.cells, self@.intensity, wave), ..old(buffer)@ }),
    {
        let ghost target = flicker_spec(old(buffer)@.cells, self@.intensity, wave);
        if 80 * self.intensity < 1000 {
            return;
        }
        let wc: u32 = if wave < -1000 {
            0
        } else if wave > 1000 {
            2000
        } else {
            (wave + 1000) as u32
        };
        assert(80 * self.intensity * wc <= 80 * 1000 * 2000) by (nonlinear_arith)
            requires
                self.intensity <= 1000,
                wc <= 2000,
        ;
        assert(80 * self.intensity * wc / 2_000_000 <= 80) by (nonlinear_arith)
            requires
                80 * self.intensity * wc <= 80 * 1000 * 2000,
        ;
        let factor: u32 = 1000 - 80 * self.intensity * wc / 2_000_000;
        let w = buffer.width();
        let h = buffer.height();
        let n = buffer.cells().len();
        let mut i: usize = 0;
        while i < n
            invariant
                i <= n,
                n == w * h,
                factor == flicker_factor(self@.intensity, wave),
                80 * self@.intensity >= 1000,
                self.wf(),
                buffer.wf(),
                w == buffer@.width,
                h == buffer@.height,
                buffer@ == (GridView { cells: buffer@.cells, ..old(buffer)@ }),
                target == flicker_spec(old(buffer)@.cells, self@.intensity, wave),
                old(buffer)@.cells.len() == n,
                target.len() == n,
                forall|k: int| 0 <= k < i ==> buffer@.cells[k] == #[trigger] target[k],
                forall|k: int| i <= k < n ==> buffer@.cells[k] == #[trigger] old(buffer)@.cells[k],
            decreases n - i,
        {
            proof {
                lemma_index_coords(w, h, i as int);
            }
            let x = (i % (w as usize)) as u16;
            let y = (i / (w as usize)) as u16;
            let c = buffer.cells()[i];
            assert(c == old(buffer)@.cells[i as int]);
            assert(target[i as int] == dim_cell(c, factor as int));
            if c.ch != ' ' {
                buffer.set_cell(x, y, c.ch, scale_color(c.fg, factor), scale_color(c.bg, factor));
            }
            assert(buffer@.cells[i as int] == target[i as int]);
            i += 1;
        }
        assert(buffer@.cells =~= target);
    }

    /// Noise: each non-blank cell, with chance 0.002 times the intensity,
    /// takes a noise glyph and a foreground scaled by a random factor in
    /// `[0.7, 1.3)`.
    pub fn apply_noise(&self, buffer: &mut ScreenBuffer, rng: &mut rand::rngs::StdRng)
        requires
            self.wf(),
            old(buffer).wf(),
        ensures
            final(buffer).wf(),
            final(buffer)@ == (GridView { cells: final(buffer)@.cells, ..old(buffer)@ }),
            noise_spec(old(buffer)@.cells, final(buffer)@.cells, self@.intensity),
    {
        let probability: u32 = 2 * self.intensity;
        if probability < 100 {
            return;
        }
        let w = buffer.width();
        let h = buffer.height();
        let n = buffer.cells().len();
        let mut i: usize = 0;
        while i < n
            invariant
                i <= n,
                n == w * h,
                probability == 2 * self@.intensity,
                probability >= 100,
                self.wf(),
                buffer.wf(),
                w == buffer@.width,
                h == buffer@.height,
                buffer@ == (GridView { cells: buffer@.cells, ..old(buffer)@ }),
                forall|k: int| 0 <= k < i ==> noise_step(#[trigger] old(buffer)@.cells[k], buffer@.cells[k], self@.intensity),
                forall|k: int| i <= k < n ==> buffer@.cells[k] == #[trigger] old(buffer)@.cells[k],
            decreases n - i,
        {
            proof {
                lemma_index_coords(w, h, i as int);
            }
            let x = (i % (w as usize)) as u16;
            let y = (i / (w as usize)) as u16;
            let c = buffer.cells()[i];
            let hit = c.ch != ' ' && random_ratio(rng, probability, 1_000_000);
            if hit {
                let k = random_below(rng, 10) as usize;
                let shift = 700 + random_below(rng, 600) as u32;
                let r = noise_cell(c, hit, k, shift);
                buffer.set_cell(x, y, r.ch, r.fg, r.bg);
                assert(buffer@.cells[i as int] == r);
                assert(noise_step(c, r, self@.intensity)) by {
                    assert(r == noise_cell_spec(c, true, k as int, shift as int));
                }
            }
            i += 1;
        }
    }
}

} // verus!
