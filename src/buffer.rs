//! The frame compositor: two equally sized cell grids (the frame being
//! composed and the frame last shown) and a flush that emits draw commands
//! only for the cells that changed.

use vstd::prelude::*;

use crate::color::Color;

verus! {

/// One character cell: a glyph with a foreground and a background color.
#[derive(Clone, Copy, Debug, PartialEq, Eq, Structural)]
pub struct Cell {
    pub ch: char,
    pub fg: Color,
    pub bg: Color,
}

/// The default cell: a blank glyph with no color override.
pub open spec fn blank() -> Cell {
    Cell { ch: ' ', fg: Color::Reset, bg: Color::Reset }
}

impl Cell {
    /// A blank cell with no color override.
    pub fn blank() -> (r: Cell)
        ensures
            r == blank(),
    {
        Cell { ch: ' ', fg: Color::Reset, bg: Color::Reset }
    }
}

impl Default for Cell {
    fn default() -> (r: Cell)
        ensures
            r == blank(),
    {
        Cell::blank()
    }
}

/// A positioned draw instruction for the display: put `cell` at column `x`,
/// row `y`.
#[derive(Clone, Copy, Debug, PartialEq, Eq, Structural)]
pub struct DrawCommand {
    pub x: u16,
    pub y: u16,
    pub cell: Cell,
}

/// What a screen buffer holds: its size, the frame being composed
/// (`cells`), the frame last flushed (`prev`), both row-major, and whether
/// the next flush must redraw everything.
pub struct GridView {
    pub width: u16,
    pub height: u16,
    pub cells: Seq<Cell>,
    pub prev: Seq<Cell>,
    pub first_frame: bool,
}

/// `v` with the cell at column `x`, row `y` of the composed frame set to
/// `c`; unchanged when the position is outside the grid.
pub open spec fn write_spec(v: GridView, x: int, y: int, c: Cell) -> GridView {
    if 0 <= x < v.width && 0 <= y < v.height {
        GridView { cells: v.cells.update(index_of(v.width, x, y), c), ..v }
    } else {
        v
    }
}

/// `n` blank cells.
pub open spec fn blank_seq(n: nat) -> Seq<Cell> {
    Seq::new(n, |i: int| blank())
}

/// The row-major index of column `x`, row `y` in a grid `width` wide.
pub open spec fn index_of(width: u16, x: int, y: int) -> int {
    y * width + x
}

/// Whether a flush must emit the cell at index `i`.
pub open spec fn is_dirty(v: GridView, i: int) -> bool {
    v.first_frame || v.cells[i] != v.prev[i]
}

/// The draw command for the cell at index `i`.
pub open spec fn command_at(v: GridView, i: int) -> DrawCommand {
    DrawCommand { x: (i % (v.width as int)) as u16, y: (i / (v.width as int)) as u16, cell: v.cells[i] }
}

/// The draw commands that a flush emits for the first `n` cells, in
/// row-major order.
pub open spec fn draws_upto(v: GridView, n: nat) -> Seq<DrawCommand>
    decreases n,
{
    if n == 0 {
        Seq::empty()
    } else {
        let before = draws_upto(v, (n - 1) as nat);
        if is_dirty(v, n - 1) {
            before.push(command_at(v, n - 1))
        } else {
            before
        }
    }
}

/// Every draw command that a flush of `v` emits.
pub open spec fn frame_draws(v: GridView) -> Seq<DrawCommand> {
    draws_upto(v, v.cells.len())
}

/// A double-buffered grid of cells.
pub struct ScreenBuffer {
    width: u16,
    height: u16,
    /// The frame being composed, row-major: index = y * width + x.
    cells: Vec<Cell>,
    /// The frame last flushed, compared against to find changed cells.
    prev_cells: Vec<Cell>,
    /// Forces the next flush to redraw every cell.
    first_frame: bool,
}

impl View for ScreenBuffer {
    type V = GridView;

    closed spec fn view(&self) -> GridView {
        GridView {
            width: self.width,
            height: self.height,
            cells: self.cells@,
            prev: self.prev_cells@,
            first_frame: self.first_frame,
        }
    }
}

fn grid_size(width: u16, height: u16) -> (r: usize)
    ensures
        r == width * height,
{
    assert(width * height <= 0xffff_ffff) by (nonlinear_arith)
        requires
            width <= 0xffff,
            height <= 0xffff,
    ;
    (width as usize) * (height as usize)
}

pub(crate) fn grid_index(width: u16, height: u16, x: u16, y: u16) -> (r: usize)
    requires
        x < width,
        y < height,
    ensures
        r == index_of(width, x as int, y as int),
        r < width * height,
{
    proof {
        lemma_index_in_grid(width, height, x as int, y as int);
    }
    assert(y * width <= y * width + x);
    assert(width * height <= 0xffff_ffff) by (nonlinear_arith)
        requires
            width <= 0xffff,
            height <= 0xffff,
    ;
    (y as usize) * (width as usize) + (x as usize)
}

fn blank_cells(n: usize) -> (r: Vec<Cell>)
    ensures
        r@ == blank_seq(n as nat),
{
    let mut v: Vec<Cell> = Vec::with_capacity(n);
    let mut i: usize = 0;
    while i < n
        invariant
            i <= n,
            v@ == blank_seq(i as nat),
        decreases n - i,
    {
        v.push(Cell::blank());
        i += 1;
    }
    v
}

impl ScreenBuffer {
    /// Both grids have `width * height` cells.
    pub open spec fn wf(&self) -> bool {
        &&& self@.cells.len() == self@.width * self@.height
        &&& self@.prev.len() == self@.width * self@.height
    }

    /// The cell at column `x`, row `y` of the frame being composed.
    pub open spec fn cell_at(&self, x: int, y: int) -> Cell {
        self@.cells[index_of(self@.width, x, y)]
    }

    /// A buffer of blank cells that will be drawn in full by its first flush.
    pub fn new(width: u16, height: u16) -> (r: ScreenBuffer)
        ensures
            r.wf(),
            r@.width == width,
            r@.height == height,
            r@.cells == blank_seq((width * height) as nat),
            r@.prev == blank_seq((width * height) as nat),
            r@.first_frame,
    {
        let size = grid_size(width, height);
        ScreenBuffer {
            width,
            height,
            cells: blank_cells(size),
            prev_cells: blank_cells(size),
            first_frame: true,
        }
    }

    /// Replaces both grids with blank ones of the new size; the next flush
    /// redraws every cell.
    pub fn resize(&mut self, width: u16, height: u16)
        ensures
            final(self).wf(),
            final(self)@.width == width,
            final(self)@.height == height,
            final(self)@.cells == blank_seq((width * height) as nat),
            final(self)@.prev == blank_seq((width * height) as nat),
            final(self)@.first_frame,
    {
        let size = grid_size(width, height);
        self.width = width;
        self.height = height;
        self.cells = blank_cells(size);
        self.prev_cells = blank_cells(size);
        self.first_frame = true;
    }

    /// Resets every cell of the frame being composed; the last flushed frame
    /// is kept.
    pub fn clear(&mut self)
        requires
            old(self).wf(),
        ensures
            final(self).wf(),
            final(self)@ == (GridView { cells: blank_seq(old(self)@.cells.len()), ..old(self)@ }),
    {
        let n = self.cells.len();
        let mut i: usize = 0;
        while i < n
            invariant
                i <= n,
                n == self.cells@.len(),
                self.width == old(self).width,
                self.height == old(self).height,
                self.prev_cells == old(self).prev_cells,
                self.first_frame == old(self).first_frame,
                forall|k: int| 0 <= k < i ==> self.cells@[k] == blank(),
            decreases n - i,
        {
            self.cells.set(i, Cell::blank());
            i += 1;
        }
        assert(self.cells@ == blank_seq(n as nat));
    }

    /// Writes one cell of the frame being composed. A position outside the
    /// grid is ignored.
    pub fn set_cell(&mut self, x: u16, y: u16, ch: char, fg: Color, bg: Color)
        requires
            old(self).wf(),
        ensures
            final(self).wf(),
            final(self)@ == write_spec(old(self)@, x as int, y as int, (Cell { ch, fg, bg })),
    {
        if x < self.width && y < self.height {
            let idx = grid_index(self.width, self.height, x, y);
            self.cells.set(idx, Cell { ch, fg, bg });
        }
    }

    /// The frame being composed, row-major.
    pub fn cells(&self) -> (r: &[Cell])
        ensures
            r@ == self@.cells,
    {
        self.cells.as_slice()
    }

    /// The cell at column `x`, row `y`, or `None` outside the grid.
    pub fn get_cell(&self, x: u16, y: u16) -> (r: Option<&Cell>)
        requires
            self.wf(),
        ensures
            x < self@.width && y < self@.height ==> r == Some(&self.cell_at(x as int, y as int)),
            !(x < self@.width && y < self@.height) ==> r.is_none(),
    {
        if x < self.width && y < self.height {
            let idx = grid_index(self.width, self.height, x, y);
            Some(&self.cells[idx])
        } else {
            None
        }
    }

    /// The cell at column `x`, row `y` for writing in place, or `None`
    /// outside the grid.
    pub fn get_cell_mut(&mut self, x: u16, y: u16) -> (r: Option<&mut Cell>)
        requires
            old(self).wf(),
        ensures
            x < old(self)@.width && y < old(self)@.height ==> (r matches Some(c) && *c == old(self).cell_at(
                x as int,
                y as int,
            ) && final(self)@ == (GridView {
                cells: old(self)@.cells.update(index_of(old(self)@.width, x as int, y as int), *final(c)),
                ..old(self)@
            })),
            !(x < old(self)@.width && y < old(self)@.height) ==> r is None && final(self)@ == old(self)@,
    {
        if x < self.width && y < self.height {
            let idx = grid_index(self.width, self.height, x, y);
            Some(&mut self.cells[idx])
        } else {
            None
        }
    }

    pub fn width(&self) -> (r: u16)
        ensures
            r == self@.width,
    {
        self.width
    }

    pub fn height(&self) -> (r: u16)
        ensures
            r == self@.height,
    {
        self.height
    }

    /// Ends a frame. Returns, in row-major order, a draw command for every
    /// cell that differs from the last flushed frame (for every cell on the
    /// first flush after creation or a resize); then the composed frame
    /// becomes the last flushed one and a blank frame is started.
    pub fn flush(&mut self) -> (r: Vec<DrawCommand>)
        requires
            old(self).wf(),
        ensures
            r@ == frame_draws(old(self)@),
            final(self).wf(),
            final(self)@ == (GridView {
                width: old(self)@.width,
                height: old(self)@.height,
                cells: blank_seq(old(self)@.cells.len()),
                prev: old(self)@.cells,
                first_frame: false,
            }),
    {
        let n = self.cells.len();
        let w = self.width as usize;
        let ghost v = self@;
        let mut out: Vec<DrawCommand> = Vec::new();
        let mut i: usize = 0;
        while i < n
            invariant
                i <= n,
                n == v.cells.len(),
                v == self@,
                self.wf(),
                w == v.width,
                out@ == draws_upto(v, i as nat),
            decreases n - i,
        {
            let cell = self.cells[i];
            let prev = self.prev_cells[i];
            if self.first_frame || cell != prev {
                proof {
                    lemma_index_coords(v.width, v.height, i as int);
                }
                out.push(DrawCommand { x: (i % w) as u16, y: (i / w) as u16, cell });
            }
            i += 1;
        }
        core::mem::swap(&mut self.cells, &mut self.prev_cells);
        self.clear();
        self.first_frame = false;
        out
    }
}

proof fn lemma_draws_upto_all(v: GridView, n: nat)
    requires
        v.first_frame,
    ensures
        draws_upto(v, n).len() == n,
    decreases n,
{
    if n > 0 {
        lemma_draws_upto_all(v, (n - 1) as nat);
    }
}

proof fn lemma_draws_upto_none(v: GridView, n: nat)
    requires
        !v.first_frame,
        v.cells.len() == v.prev.len(),
        n <= v.cells.len(),
        forall|i: int| 0 <= i < n ==> v.cells[i] == v.prev[i],
    ensures
        draws_upto(v, n).len() == 0,
    decreases n,
{
    if n > 0 {
        lemma_draws_upto_none(v, (n - 1) as nat);
    }
}

/// The first flush after creation or a resize emits one draw command per
/// cell, whatever the cells hold.
pub proof fn lemma_first_flush_draws_every_cell(b: ScreenBuffer)
    requires
        b.wf(),
        b@.first_frame,
    ensures
        frame_draws(b@).len() == b@.width * b@.height,
{
    lemma_draws_upto_all(b@, b@.cells.len());
}

/// A flush emits nothing when the composed frame equals the last flushed one
/// and no full redraw is pending.
pub proof fn lemma_unchanged_frame_draws_nothing(b: ScreenBuffer)
    requires
        b.wf(),
        !b@.first_frame,
        b@.cells == b@.prev,
    ensures
        frame_draws(b@).len() == 0,
{
    lemma_draws_upto_none(b@, b@.cells.len());
}

/// Two flushes with no writes between them: when the frame that the first
/// flush showed was blank, the second flush emits nothing.
pub proof fn lemma_idle_flush_draws_nothing(before: ScreenBuffer, after: ScreenBuffer)
    requires
        before.wf(),
        before@.cells == blank_seq(before@.cells.len()),
        after@ == (GridView {
            width: before@.width,
            height: before@.height,
            cells: blank_seq(before@.cells.len()),
            prev: before@.cells,
            first_frame: false,
        }),
    ensures
        frame_draws(after@).len() == 0,
{
    lemma_draws_upto_none(after@, after@.cells.len());
}

/// A position inside the grid has an index inside it.
pub proof fn lemma_index_in_grid(width: u16, height: u16, x: int, y: int)
    requires
        0 <= x < width,
        0 <= y < height,
    ensures
        0 <= index_of(width, x, y) < width * height,
{
    assert(0 <= y * width + x < width * height) by (nonlinear_arith)
        requires
            0 <= x < width,
            0 <= y < height,
    ;
}

/// An index inside the grid has its column below the width and its row
/// below the height.
pub proof fn lemma_index_coords(width: u16, height: u16, i: int)
    requires
        0 <= i < width * height,
    ensures
        0 <= i % (width as int) < width,
        0 <= i / (width as int) < height,
        index_of(width, i % (width as int), i / (width as int)) == i,
{
    let w = width as int;
    assert(w > 0) by (nonlinear_arith)
        requires
            0 <= i < w * height,
            w >= 0,
    ;
    vstd::arithmetic::div_mod::lemma_fundamental_div_mod(i, w);
    vstd::arithmetic::div_mod::lemma_mod_bound(i, w);
    vstd::arithmetic::div_mod::lemma_div_pos_is_pos(i, w);
    let q = i / w;
    assert(q * w == w * q) by (nonlinear_arith);
    assert(q < height) by (nonlinear_arith)
        requires
            i == w * q + i % w,
            0 <= i % w,
            i < w * height,
            w > 0,
    ;
}

} // verus!
