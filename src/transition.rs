//! The crossfade from an outgoing effect to the frame that the incoming one
//! has already drawn: colors are blended cell by cell, glyphs switch at the
//! midpoint.

use vstd::prelude::*;

use crate::buffer::{blank_seq, index_of, lemma_index_coords, Cell, GridView, ScreenBuffer};
use crate::color::{lerp_color, lerp_spec};
use crate::effects::Effect;

verus! {

/// The shortest crossfade, in microseconds.
pub const MIN_DURATION: u64 = 50_000;

/// How far the crossfade has gone, in thousandths: `elapsed / duration`,
/// at most one.
pub open spec fn blend_factor(elapsed: u64, duration: u64) -> int {
    let t = elapsed * 1000 / (duration as int);
    if t > 1000 {
        1000
    } else {
        t
    }
}

/// The blended cell for an outgoing cell (absent outside the scratch grid)
/// and an incoming one at factor `t`: absent or both blank leaves the
/// incoming cell; at the very start the outgoing cell shows as it is;
/// otherwise colors are interpolated and the glyph is the outgoing one below
/// the midpoint, the incoming one from it on.
pub open spec fn blend_cell(out: Option<Cell>, inc: Cell, t: int) -> Cell {
    match out {
        None => inc,
        Some(o) => if o.ch == ' ' && inc.ch == ' ' {
            inc
        } else if t == 0 {
            o
        } else {
            Cell {
                ch: if t < 500 { o.ch } else { inc.ch },
                fg: lerp_spec(o.fg, inc.fg, t),
                bg: lerp_spec(o.bg, inc.bg, t),
            }
        },
    }
}

/// The cell of `v` at `(x, y)`, if inside it.
pub open spec fn cell_of(v: GridView, x: int, y: int) -> Option<Cell> {
    if 0 <= x < v.width && 0 <= y < v.height {
        Some(v.cells[index_of(v.width, x, y)])
    } else {
        None
    }
}

/// The crossfade over a grid: each cell of `inc` blended with the cell at
/// the same position of `out`.
pub open spec fn blend_spec(out: GridView, inc: GridView, t: int) -> Seq<Cell> {
    Seq::new(
        inc.cells.len(),
        |i: int|
            blend_cell(cell_of(out, i % (inc.width as int), i / (inc.width as int)), inc.cells[i], t),
    )
}

/// A crossfade in progress from an outgoing effect.
pub struct Transition<E: Effect> {
    outgoing: E,
    scratch: ScreenBuffer,
    duration: u64,
    elapsed: u64,
}

impl<E: Effect> Transition<E> {
    /// The scratch grid is well formed and the duration is at least the
    /// minimum.
    pub closed spec fn wf(&self) -> bool {
        &&& self.scratch.wf()
        &&& self.duration >= MIN_DURATION
    }

    /// The outgoing effect.
    pub closed spec fn outgoing_spec(&self) -> E {
        self.outgoing
    }

    /// The grid the outgoing effect was last drawn into.
    pub closed spec fn scratch_view(&self) -> GridView {
        self.scratch@
    }

    /// Total length of the crossfade, in microseconds.
    pub closed spec fn duration_spec(&self) -> u64 {
        self.duration
    }

    /// Time since the crossfade started, in microseconds.
    pub closed spec fn elapsed_spec(&self) -> u64 {
        self.elapsed
    }

    /// A crossfade from `outgoing` over a surface of the given size, lasting
    /// `duration` microseconds (at least `MIN_DURATION`).
    pub fn new(outgoing: E, width: u16, height: u16, duration: u64) -> (r: Transition<E>)
        ensures
            r.wf(),
            r.duration_spec() == if duration < MIN_DURATION { MIN_DURATION } else { duration },
            r.elapsed_spec() == 0,
            r.scratch_view().width == width,
            r.scratch_view().height == height,
    {
        Transition {
            outgoing,
            scratch: ScreenBuffer::new(width, height),
            duration: if duration < MIN_DURATION {
                MIN_DURATION
            } else {
                duration
            },
            elapsed: 0,
        }
    }

    /// Whether the whole duration has gone by.
    pub fn is_complete(&self) -> (r: bool)
        ensures
            r == (self.elapsed_spec() >= self.duration_spec()),
    {
        self.elapsed >= self.duration
    }

    /// Advances the outgoing effect and the clock by `delta_time` microseconds.
    pub fn update(&mut self, delta_time: u64, rng: &mut rand::rngs::StdRng)
        requires
            old(self).wf(),
        ensures
            final(self).wf(),
            final(self).duration_spec() == old(self).duration_spec(),
            final(self).elapsed_spec() == if old(self).elapsed_spec() + delta_time > u64::MAX {
                u64::MAX as int
            } else {
                old(self).elapsed_spec() + delta_time
            },
            final(self).scratch_view() == old(self).scratch_view(),
    {
        self.outgoing.update(delta_time, rng);
        self.elapsed = if self.elapsed <= u64::MAX - delta_time {
            self.elapsed + delta_time
        } else {
            u64::MAX
        };
    }

    /// The blend factor now, in thousandths.
    fn factor(&self) -> (r: u32)
        requires
            self.wf(),
        ensures
            r == blend_factor(self.elapsed_spec(), self.duration_spec()),
    {
        let t: u128 = (self.elapsed as u128) * 1000 / (self.duration as u128);
        if t > 1000 {
            1000
        } else {
            t as u32
        }
    }

    /// Draws the outgoing effect into the scratch grid and blends it into
    /// `buffer`, which holds the incoming frame.
    pub fn render(&mut self, buffer: &mut ScreenBuffer)
        requires
            old(self).wf(),
            old(buffer).wf(),
        ensures
            final(self).wf(),
            final(self).duration_spec() == old(self).duration_spec(),
            final(self).elapsed_spec() == old(self).elapsed_spec(),
            final(self).outgoing_spec() == old(self).outgoing_spec(),
            final(self).scratch_view() == old(self).outgoing_spec().drawn(
                GridView { cells: blank_seq(old(self).scratch_view().cells.len()), ..old(self).scratch_view() },
            ),
            final(buffer).wf(),
            final(buffer)@ == (GridView {
                cells: blend_spec(
                    final(self).scratch_view(),
                    old(buffer)@,
                    blend_factor(old(self).elapsed_spec(), old(self).duration_spec()),
                ),
                ..old(buffer)@
            }),
    {
        self.scratch.clear();
        self.outgoing.render(&mut self.scratch);
        let t = self.factor();
        let w = buffer.width();
        let h = buffer.height();
        let ghost target = blend_spec(self.scratch@, old(buffer)@, t as int);
        let n = buffer.cells().len();
        if w == 0 {
            let ghost (bw, bh) = (old(buffer)@.width as int, old(buffer)@.height as int);
            assert(bw * bh == 0) by (nonlinear_arith)
                requires
                    bw == 0,
            ;
            assert(buffer@ == old(buffer)@);
            assert(buffer@.cells =~= target);
            return;
        }
        let mut i: usize = 0;
        while i < n
            invariant
                i <= n,
                n == w * h,
                w > 0,
                w == old(buffer)@.width,
                h == old(buffer)@.height,
                t <= 1000,
                self.wf(),
                buffer.wf(),
                buffer@ == (GridView { cells: buffer@.cells, ..old(buffer)@ }),
                target == blend_spec(self.scratch@, old(buffer)@, t as int),
                target.len() == n,
                old(buffer)@.cells.len() == n,
                forall|k: int| 0 <= k < i ==> buffer@.cells[k] == #[trigger] target[k],
                forall|k: int| i <= k < n ==> buffer@.cells[k] == #[trigger] old(buffer)@.cells[k],
            decreases n - i,
        {
            proof {
                lemma_index_coords(w, h, i as int);
            }
            let x = (i % (w as usize)) as u16;
            let y = (i / (w as usize)) as u16;
            let inc = buffer.cells()[i];
            assert(inc == old(buffer)@.cells[i as int]);
            match self.scratch.get_cell(x, y) {
                Some(out) => {
                    let o = *out;
                    if !(o.ch == ' ' && inc.ch == ' ') {
                        if t == 0 {
                            buffer.set_cell(x, y, o.ch, o.fg, o.bg);
                        } else {
                            let fg = lerp_color(o.fg, inc.fg, t as i32);
                            let bg = lerp_color(o.bg, inc.bg, t as i32);
                            let ch = if t < 500 {
                                o.ch
                            } else {
                                inc.ch
                            };
                            buffer.set_cell(x, y, ch, fg, bg);
                        }
                    }
                },
                None => {},
            }
            assert(buffer@.cells[i as int] == target[i as int]);
            i += 1;
        }
        assert(buffer@.cells =~= target);
    }

    /// Takes a new surface size for the outgoing effect and the scratch grid.
    pub fn resize(&mut self, width: u16, height: u16)
        requires
            old(self).wf(),
        ensures
            final(self).wf(),
            final(self).duration_spec() == old(self).duration_spec(),
            final(self).elapsed_spec() == old(self).elapsed_spec(),
            final(self).scratch_view().width == width,
            final(self).scratch_view().height == height,
    {
        self.outgoing.resize(width, height);
        self.scratch.resize(width, height);
    }
}

/// At the start of a crossfade the outgoing glyph shows everywhere, and
/// wherever either cell is non-blank the outgoing cell shows with its own
/// colors.
pub proof fn lemma_blend_at_start(o: Cell, inc: Cell, duration: u64)
    requires
        duration > 0,
    ensures
        blend_cell(Some(o), inc, blend_factor(0, duration)).ch == o.ch,
        !(o.ch == ' ' && inc.ch == ' ') ==> blend_cell(Some(o), inc, blend_factor(0, duration)) == o,
{
    assert(blend_factor(0, duration) == 0);
}

/// From the midpoint of a crossfade on, the incoming glyph shows.
pub proof fn lemma_blend_after_midpoint(out: Option<Cell>, inc: Cell, elapsed: u64, duration: u64)
    requires
        duration > 0,
        2 * elapsed >= duration,
    ensures
        blend_cell(out, inc, blend_factor(elapsed, duration)).ch == inc.ch,
{
    assert(elapsed * 1000 >= 500 * duration) by (nonlinear_arith)
        requires
            2 * elapsed >= duration,
    ;
    assert(elapsed * 1000 / (duration as int) >= 500) by (nonlinear_arith)
        requires
            elapsed * 1000 >= 500 * duration,
            duration > 0,
    ;
}

} // verus!
