//! The rain field: every falling column of the surface, advanced, pruned and
//! spawned each tick, and drawn with the palette's trail gradient.

use vstd::prelude::*;

use crate::buffer::{write_spec, Cell, GridView, ScreenBuffer};
use crate::chars::CharacterPool;
use crate::color::{trail_color, trail_spec, Color};
use crate::column::{column_wf, dies_on_step, is_dead_spec, lemma_step_dead_iff, update_step, ColumnView, RainColumn};
use crate::palette::Palette;
use crate::random::random_ratio;

verus! {

/// Spawn rate at density one, in thousandths of a column per second.
pub const BASE_SPAWN_RATE: u32 = 150;

/// Bounds of the speed and density multipliers, in thousandths.
pub const MIN_MULTIPLIER: u32 = 100;
pub const MAX_MULTIPLIER: u32 = 10_000;

/// The denominator of a spawn chance: a chance is in millionths.
pub const CHANCE_SCALE: u32 = 1_000_000;

/// What a rain field holds.
pub struct FieldView {
    pub columns: Seq<ColumnView>,
    pub pool: Seq<char>,
    pub palette: Palette,
    pub width: u16,
    pub height: u16,
    /// Thousandths.
    pub speed: u32,
    /// Thousandths.
    pub density: u32,
}

/// A multiplier clamped to `[MIN_MULTIPLIER, MAX_MULTIPLIER]`.
pub open spec fn clamp_multiplier(m: int) -> int {
    if m < MIN_MULTIPLIER {
        MIN_MULTIPLIER as int
    } else if m > MAX_MULTIPLIER {
        MAX_MULTIPLIER as int
    } else {
        m
    }
}

/// The time that columns advance by on a tick of `dt` microseconds: `dt`
/// scaled by the speed multiplier, saturating at `u64::MAX`.
pub open spec fn scaled_dt(dt: u64, speed: u32) -> u64 {
    let s = dt * speed / 1000;
    if s > u64::MAX {
        u64::MAX
    } else {
        s as u64
    }
}

/// The chance, in millionths, that an idle screen column spawns on a tick of
/// `dt` microseconds: `BASE_SPAWN_RATE * density * dt`, at most certainty.
pub open spec fn spawn_chance(dt: u64, density: u32) -> u32 {
    let c = BASE_SPAWN_RATE * density * dt / 1_000_000;
    if c > CHANCE_SCALE {
        CHANCE_SCALE
    } else {
        c as u32
    }
}

/// A column as `spawn` makes it.
pub open spec fn is_fresh(c: ColumnView) -> bool {
    &&& c.trail.len() == 0
    &&& c.highlights.len() == 0
    &&& !c.draining
}

/// Some column at screen column `x` is still growing.
pub open spec fn has_active(cols: Seq<ColumnView>, x: u16) -> bool {
    exists|j: int| 0 <= j < cols.len() && #[trigger] cols[j].x == x && !cols[j].draining
}

/// At most one growing column per screen column.
pub open spec fn one_active_per_x(cols: Seq<ColumnView>) -> bool {
    forall|i: int, j: int|
        0 <= i < cols.len() && 0 <= j < cols.len() && i != j && #[trigger] cols[i].x == #[trigger] cols[j].x
            ==> cols[i].draining || cols[j].draining
}

/// The color of trail entry `i` of `col`: the highlight color if it is
/// highlighted, else the gradient at `i / len`.
pub open spec fn entry_color(col: ColumnView, palette: Palette, i: int) -> Color {
    if col.highlights.contains(i as usize) {
        palette.highlight
    } else {
        trail_spec(palette.head, palette.body_bright, palette.body_mid, palette.tail, i * 1000 / (col.trail.len() as int))
    }
}

/// `v` with the first `n` trail entries of `col` drawn, each at its row (if
/// above `height`) in its color over the palette's background.
pub open spec fn paint_entries(v: GridView, col: ColumnView, palette: Palette, height: u16, n: nat) -> GridView
    decreases n,
{
    if n == 0 {
        v
    } else {
        let before = paint_entries(v, col, palette, height, (n - 1) as nat);
        let e = col.trail[n - 1];
        if e.0 >= height {
            before
        } else {
            write_spec(
                before,
                col.x as int,
                e.0 as int,
                Cell { ch: e.1, fg: entry_color(col, palette, n - 1), bg: palette.background },
            )
        }
    }
}

/// `v` with the first `n` columns drawn, in order.
pub open spec fn paint_columns(v: GridView, cols: Seq<ColumnView>, palette: Palette, height: u16, n: nat) -> GridView
    decreases n,
{
    if n == 0 {
        v
    } else {
        let c = cols[n - 1];
        paint_entries(paint_columns(v, cols, palette, height, (n - 1) as nat), c, palette, height, c.trail.len())
    }
}

/// Painting columns changes only the composed frame.
pub proof fn lemma_paint_columns_keeps_frame(v: GridView, cols: Seq<ColumnView>, palette: Palette, height: u16, n: nat)
    requires
        n <= cols.len(),
    ensures
        paint_columns(v, cols, palette, height, n).width == v.width,
        paint_columns(v, cols, palette, height, n).height == v.height,
        paint_columns(v, cols, palette, height, n).prev == v.prev,
        paint_columns(v, cols, palette, height, n).first_frame == v.first_frame,
    decreases n,
{
    if n > 0 {
        lemma_paint_columns_keeps_frame(v, cols, palette, height, (n - 1) as nat);
        let c = cols[n - 1];
        lemma_paint_entries_keeps_frame(paint_columns(v, cols, palette, height, (n - 1) as nat), c, palette, height, c.trail.len());
    }
}

proof fn lemma_paint_entries_keeps_frame(v: GridView, col: ColumnView, palette: Palette, height: u16, n: nat)
    requires
        n <= col.trail.len(),
    ensures
        paint_entries(v, col, palette, height, n).width == v.width,
        paint_entries(v, col, palette, height, n).height == v.height,
        paint_entries(v, col, palette, height, n).prev == v.prev,
        paint_entries(v, col, palette, height, n).first_frame == v.first_frame,
    decreases n,
{
    if n > 0 {
        lemma_paint_entries_keeps_frame(v, col, palette, height, (n - 1) as nat);
    }
}

/// All the falling columns of a surface.
pub struct RainField {
    columns: Vec<RainColumn>,
    char_pool: CharacterPool,
    palette: Palette,
    width: u16,
    height: u16,
    speed_multiplier: u32,
    density: u32,
}

/// How the columns after a tick come from the old ones: the first
/// `origin.len()` are old columns stepped (see `update_step`), one to one
/// and in their old order, and every old column that does not die is among
/// them; the rest are fresh columns in ascending screen column order within
/// the width, there only when the spawn chance is not zero.
pub open spec fn tick_outcome(old: FieldView, new_cols: Seq<ColumnView>, origin: Seq<int>, eff: u64, chance: u32) -> bool {
    &&& origin.len() <= new_cols.len()
    &&& forall|j: int|
        0 <= j < origin.len() ==> 0 <= #[trigger] origin[j] < old.columns.len() && update_step(
            old.columns[origin[j]],
            new_cols[j],
            eff,
            old.height,
            old.pool,
        )
    &&& forall|j1: int, j2: int| 0 <= j1 < j2 < origin.len() ==> #[trigger] origin[j1] < #[trigger] origin[j2]
    &&& forall|i: int|
        0 <= i < old.columns.len() ==> dies_on_step(#[trigger] old.columns[i], eff, old.height) || exists|j: int|
            0 <= j < origin.len() && origin[j] == i
    &&& forall|j: int| origin.len() <= j < new_cols.len() ==> is_fresh(#[trigger] new_cols[j]) && chance > 0
    &&& forall|j: int| origin.len() <= j < new_cols.len() ==> #[trigger] new_cols[j].x < old.width
    &&& forall|j1: int, j2: int|
        origin.len() <= j1 < j2 < new_cols.len() ==> #[trigger] new_cols[j1].x < #[trigger] new_cols[j2].x
}

/// A strictly increasing sequence of values in `[0, bound)` has at most
/// `bound` entries.
proof fn lemma_increasing_len(s: Seq<int>, bound: int)
    requires
        0 <= bound,
        forall|j: int| 0 <= j < s.len() ==> 0 <= #[trigger] s[j] < bound,
        forall|j1: int, j2: int| 0 <= j1 < j2 < s.len() ==> #[trigger] s[j1] < #[trigger] s[j2],
    ensures
        s.len() <= bound,
    decreases s.len(),
{
    if s.len() > 0 {
        let t = s.drop_last();
        assert forall|j: int| 0 <= j < t.len() implies 0 <= #[trigger] t[j] < s[s.len() - 1] by {
            assert(t[j] == s[j]);
        }
        assert forall|j1: int, j2: int| 0 <= j1 < j2 < t.len() implies #[trigger] t[j1] < #[trigger] t[j2] by {
            assert(t[j1] == s[j1] && t[j2] == s[j2]);
        }
        lemma_increasing_len(t, s[s.len() - 1]);
        assert(0 <= s[s.len() - 1] < bound);
    }
}

/// After a tick there are at most as many columns as before plus one per
/// screen column.
pub proof fn lemma_tick_count(old: FieldView, new_cols: Seq<ColumnView>, origin: Seq<int>, eff: u64, chance: u32)
    requires
        tick_outcome(old, new_cols, origin, eff, chance),
    ensures
        new_cols.len() <= old.columns.len() + old.width,
{
    lemma_increasing_len(origin, old.columns.len() as int);
    let k = origin.len() as int;
    let xs = Seq::new((new_cols.len() - k) as nat, |j: int| new_cols[j + k].x as int);
    assert forall|j: int| 0 <= j < xs.len() implies 0 <= #[trigger] xs[j] < old.width by {
        assert(new_cols[j + k].x < old.width);
    }
    assert forall|j1: int, j2: int| 0 <= j1 < j2 < xs.len() implies #[trigger] xs[j1] < #[trigger] xs[j2] by {
        assert(new_cols[j1 + k].x < new_cols[j2 + k].x);
    }
    lemma_increasing_len(xs, old.width as int);
}

/// The views of a sequence of columns.
pub open spec fn views_of(cols: Seq<RainColumn>) -> Seq<ColumnView> {
    cols.map_values(|c: RainColumn| c@)
}

impl View for RainField {
    type V = FieldView;

    closed spec fn view(&self) -> FieldView {
        FieldView {
            columns: views_of(self.columns@),
            pool: self.char_pool@,
            palette: self.palette,
            width: self.width,
            height: self.height,
            speed: self.speed_multiplier,
            density: self.density,
        }
    }
}

/// The field's state is consistent: a non-empty pool, consistent columns
/// inside the surface's width, at most one growing column per screen
/// column, and multipliers within bounds.
pub open spec fn field_wf(v: FieldView) -> bool {
    &&& v.pool.len() > 0
    &&& forall|i: int| 0 <= i < v.columns.len() ==> column_wf(#[trigger] v.columns[i]) && v.columns[i].x < v.width
    &&& one_active_per_x(v.columns)
    &&& MIN_MULTIPLIER <= v.speed <= MAX_MULTIPLIER
    &&& MIN_MULTIPLIER <= v.density <= MAX_MULTIPLIER
}

fn clamp_mult(m: u32) -> (r: u32)
    ensures
        r == clamp_multiplier(m as int),
{
    if m < MIN_MULTIPLIER {
        MIN_MULTIPLIER
    } else if m > MAX_MULTIPLIER {
        MAX_MULTIPLIER
    } else {
        m
    }
}

fn scale_dt(dt: u64, speed: u32) -> (r: u64)
    ensures
        r == scaled_dt(dt, speed),
{
    let (a, b) = (dt as u128, speed as u128);
    assert(a * b <= 0xffff_ffff_ffff_ffff * 0xffff_ffff) by (nonlinear_arith)
        requires
            a <= 0xffff_ffff_ffff_ffff,
            b <= 0xffff_ffff,
    ;
    let s: u128 = a * b / 1000;
    if s > u64::MAX as u128 {
        u64::MAX
    } else {
        s as u64
    }
}

fn chance_of(dt: u64, density: u32) -> (r: u32)
    ensures
        r == spawn_chance(dt, density),
{
    let (a, b) = (density as u128, dt as u128);
    assert(150 * a * b <= 150 * 0xffff_ffff * 0xffff_ffff_ffff_ffff) by (nonlinear_arith)
        requires
            a <= 0xffff_ffff,
            b <= 0xffff_ffff_ffff_ffff,
    ;
    let c: u128 = (BASE_SPAWN_RATE as u128) * a * b / 1_000_000;
    if c > CHANCE_SCALE as u128 {
        CHANCE_SCALE
    } else {
        c as u32
    }
}

fn contains_position(v: &Vec<usize>, p: usize) -> (r: bool)
    ensures
        r == v@.contains(p),
{
    let mut i: usize = 0;
    while i < v.len()
        invariant
            i <= v@.len(),
            forall|j: int| 0 <= j < i ==> v@[j] != p,
        decreases v@.len() - i,
    {
        if v[i] == p {
            return true;
        }
        i += 1;
    }
    false
}

impl RainField {
    pub open spec fn wf(&self) -> bool {
        field_wf(self@)
    }

    /// An empty field with the matrix glyphs, the classic palette and both
    /// multipliers at one.
    pub fn new(width: u16, height: u16) -> (r: RainField)
        ensures
            r.wf(),
            r@.columns.len() == 0,
            crate::chars::is_matrix(r@.pool),
            r@.palette == crate::palette::classic_palette(),
            r@.width == width,
            r@.height == height,
            r@.speed == 1000,
            r@.density == 1000,
    {
        let r = RainField {
            columns: Vec::new(),
            char_pool: CharacterPool::matrix(),
            palette: Palette::classic(),
            width,
            height,
            speed_multiplier: 1000,
            density: 1000,
        };
        assert(views_of(r.columns@) =~= Seq::empty());
        r
    }

    /// An empty field with the given glyphs, palette and multipliers (in
    /// thousandths, clamped to `[MIN_MULTIPLIER, MAX_MULTIPLIER]`).
    pub fn with_config(
        width: u16,
        height: u16,
        char_pool: CharacterPool,
        palette: Palette,
        speed: u32,
        density: u32,
    ) -> (r: RainField)
        requires
            char_pool.wf(),
        ensures
            r.wf(),
            r@.columns.len() == 0,
            r@.pool == char_pool@,
            r@.palette == palette,
            r@.width == width,
            r@.height == height,
            r@.speed == clamp_multiplier(speed as int),
            r@.density == clamp_multiplier(density as int),
    {
        let r = RainField {
            columns: Vec::new(),
            char_pool,
            palette,
            width,
            height,
            speed_multiplier: clamp_mult(speed),
            density: clamp_mult(density),
        };
        assert(views_of(r.columns@) =~= Seq::empty());
        r
    }

    /// Sets the speed multiplier, in thousandths, clamped to
    /// `[MIN_MULTIPLIER, MAX_MULTIPLIER]`.
    pub fn set_speed(&mut self, multiplier: u32)
        requires
            old(self).wf(),
        ensures
            final(self).wf(),
            final(self)@ == (FieldView { speed: clamp_multiplier(multiplier as int) as u32, ..old(self)@ }),
    {
        self.speed_multiplier = clamp_mult(multiplier);
    }

    /// The speed multiplier, in thousandths.
    pub fn speed(&self) -> (r: u32)
        ensures
            r == self@.speed,
    {
        self.speed_multiplier
    }

    /// Sets the density multiplier, in thousandths, clamped to
    /// `[MIN_MULTIPLIER, MAX_MULTIPLIER]`.
    pub fn set_density(&mut self, multiplier: u32)
        requires
            old(self).wf(),
        ensures
            final(self).wf(),
            final(self)@ == (FieldView { density: clamp_multiplier(multiplier as int) as u32, ..old(self)@ }),
    {
        self.density = clamp_mult(multiplier);
    }

    /// The density multiplier, in thousandths.
    pub fn density(&self) -> (r: u32)
        ensures
            r == self@.density,
    {
        self.density
    }

    /// Takes the new surface size and drops the columns outside its width.
    pub fn resize(&mut self, width: u16, height: u16)
        requires
            old(self).wf(),
        ensures
            final(self).wf(),
            final(self)@.width == width,
            final(self)@.height == height,
            final(self)@.pool == old(self)@.pool,
            final(self)@.palette == old(self)@.palette,
            final(self)@.speed == old(self)@.speed,
            final(self)@.density == old(self)@.density,
            final(self)@.columns == old(self)@.columns.filter(|c: ColumnView| c.x < width),
    {
        let ghost olds = self@.columns;
        let mut old_cols: Vec<RainColumn> = Vec::new();
        core::mem::swap(&mut old_cols, &mut self.columns);
        let mut kept: Vec<RainColumn> = Vec::new();
        let ghost mut src: Seq<int> = Seq::empty();
        let ghost mut n: int = 0;
        proof {
            reveal(Seq::filter);
            assert(olds.take(0).filter(|c: ColumnView| c.x < width) =~= Seq::empty());
            assert(views_of(old_cols@) =~= olds.skip(0));
        }
        while old_cols.len() > 0
            invariant
                0 <= n <= olds.len(),
                views_of(old_cols@) == olds.skip(n),
                views_of(kept@) == olds.take(n).filter(|c: ColumnView| c.x < width),
                src.len() == kept@.len(),
                forall|j: int| 0 <= j < src.len() ==> 0 <= #[trigger] src[j] < n && olds[src[j]] == kept@[j]@,
                forall|j1: int, j2: int| 0 <= j1 < j2 < src.len() ==> #[trigger] src[j1] < #[trigger] src[j2],
                field_wf(FieldView { columns: olds, ..old(self)@ }),
                self.width == old(self).width,
            decreases old_cols@.len(),
        {
            let ghost rest = old_cols@;
            assert(views_of(rest).len() == rest.len());
            assert(n < olds.len());
            assert(views_of(rest)[0] == rest[0]@);
            let col = old_cols.remove(0);
            proof {
                reveal(Seq::filter);
                assert(olds.skip(n)[0] == col@);
                assert(olds.take(n + 1).drop_last() =~= olds.take(n));
                assert(olds.take(n + 1).last() == col@);
            }
            if col.x < width {
                let ghost kb = kept@;
                kept.push(col);
                proof {
                    assert(views_of(kept@) =~= views_of(kb).push(col@));
                    src = src.push(n);
                }
            }
            proof {
                n = n + 1;
                assert(old_cols@ == rest.remove(0));
                assert forall|k: int| 0 <= k < old_cols@.len() implies #[trigger] views_of(old_cols@)[k] == olds.skip(n)[k] by {
                    assert(views_of(rest)[k + 1] == rest[k + 1]@);
                    assert(olds.skip(n - 1)[k + 1] == olds[n + k]);
                }
                assert(views_of(old_cols@) =~= olds.skip(n));
            }
        }
        proof {
            assert(olds.take(n) =~= olds);
            assert forall|i: int, j: int|
                0 <= i < kept@.len() && 0 <= j < kept@.len() && i != j && #[trigger] views_of(kept@)[i].x
                    == #[trigger] views_of(kept@)[j].x implies views_of(kept@)[i].draining || views_of(kept@)[j].draining by {
                assert(olds[src[i]] == kept@[i]@);
                assert(olds[src[j]] == kept@[j]@);
                if i < j {
                    assert(src[i] < src[j]);
                } else {
                    assert(src[j] < src[i]);
                }
                assert(olds[src[i]].x == olds[src[j]].x);
            }
            assert forall|i: int| 0 <= i < kept@.len() implies column_wf(#[trigger] views_of(kept@)[i]) && views_of(kept@)[i].x < width by {
                assert(olds[src[i]] == kept@[i]@);
                assert(views_of(kept@)[i] == kept@[i]@);
            }
        }
        self.columns = kept;
        self.width = width;
        self.height = height;
    }

    /// Draws every column into the buffer, in order.
    pub fn render(&self, buffer: &mut ScreenBuffer)
        requires
            self.wf(),
            old(buffer).wf(),
        ensures
            final(buffer).wf(),
            final(buffer)@ == paint_columns(old(buffer)@, self@.columns, self@.palette, self@.height, self@.columns.len()),
    {
        let mut i: usize = 0;
        while i < self.columns.len()
            invariant
                i <= self@.columns.len(),
                self.wf(),
                buffer.wf(),
                buffer@ == paint_columns(old(buffer)@, self@.columns, self@.palette, self@.height, i as nat),
            decreases self@.columns.len() - i,
        {
            assert(self@.columns[i as int] == self.columns@[i as int]@);
            self.render_column(&self.columns[i], buffer);
            i += 1;
        }
    }

    /// Draws one column: entry `i` of `n` at its row, in the highlight color
    /// if it is highlighted, else in the gradient at `i / n`.
    fn render_column(&self, col: &RainColumn, buffer: &mut ScreenBuffer)
        requires
            column_wf(col@),
            old(buffer).wf(),
        ensures
            final(buffer).wf(),
            final(buffer)@ == paint_entries(old(buffer)@, col@, self@.palette, self@.height, col@.trail.len()),
    {
        let n = col.trail.len();
        let mut i: usize = 0;
        while i < n
            invariant
                i <= n,
                n == col@.trail.len(),
                column_wf(col@),
                buffer.wf(),
                buffer@ == paint_entries(old(buffer)@, col@, self@.palette, self@.height, i as nat),
            decreases n - i,
        {
            let (y, ch) = col.trail[i];
            if y < self.height {
                let fg = if contains_position(&col.highlight_positions, i) {
                    self.palette.highlight
                } else {
                    assert(i * 1000 <= 65535 * 1000) by (nonlinear_arith)
                        requires
                            i < n,
                            n <= 65535,
                    ;
                    let position = ((i * 1000) / n) as i32;
                    trail_color(
                        self.palette.head,
                        self.palette.body_bright,
                        self.palette.body_mid,
                        self.palette.tail,
                        position,
                    )
                };
                buffer.set_cell(col.x, y, ch, fg, self.palette.background);
            }
            i += 1;
        }
    }

    /// Whether some column at screen column `x` is still growing.
    fn has_active_column(&self, x: u16) -> (r: bool)
        ensures
            r == has_active(self@.columns, x),
    {
        let mut i: usize = 0;
        while i < self.columns.len()
            invariant
                i <= self@.columns.len(),
                forall|j: int| 0 <= j < i ==> !(#[trigger] self@.columns[j].x == x && !self@.columns[j].draining),
            decreases self@.columns.len() - i,
        {
            assert(self@.columns[i as int] == self.columns@[i as int]@);
            if self.columns[i].x == x && !self.columns[i].draining {
                assert(self@.columns[i as int].x == x && !self@.columns[i as int].draining);
                return true;
            }
            i += 1;
        }
        false
    }

    /// One tick of `delta_time` microseconds. Every column advances by the
    /// tick scaled by the speed multiplier, and the dead ones are dropped;
    /// then each screen column without a growing column spawns one with
    /// chance `spawn_chance(delta_time, density)`.
    pub fn update(&mut self, delta_time: u64, rng: &mut rand::rngs::StdRng)
        requires
            old(self).wf(),
        ensures
            final(self).wf(),
            final(self)@.width == old(self)@.width,
            final(self)@.height == old(self)@.height,
            final(self)@.pool == old(self)@.pool,
            final(self)@.palette == old(self)@.palette,
            final(self)@.speed == old(self)@.speed,
            final(self)@.density == old(self)@.density,
            forall|j: int| 0 <= j < final(self)@.columns.len() ==> !is_dead_spec(#[trigger] final(self)@.columns[j]),
            forall|j: int|
                0 <= j < final(self)@.columns.len() ==> (is_fresh(#[trigger] final(self)@.columns[j]) && spawn_chance(
                    delta_time,
                    old(self)@.density,
                ) > 0) || exists|i: int|
                    0 <= i < old(self)@.columns.len() && update_step(
                        #[trigger] old(self)@.columns[i],
                        final(self)@.columns[j],
                        scaled_dt(delta_time, old(self)@.speed),
                        old(self)@.height,
                        old(self)@.pool,
                    ),
            forall|i: int|
                0 <= i < old(self)@.columns.len() ==> dies_on_step(
                    #[trigger] old(self)@.columns[i],
                    scaled_dt(delta_time, old(self)@.speed),
                    old(self)@.height,
                ) || exists|j: int|
                    0 <= j < final(self)@.columns.len() && update_step(
                        old(self)@.columns[i],
                        #[trigger] final(self)@.columns[j],
                        scaled_dt(delta_time, old(self)@.speed),
                        old(self)@.height,
                        old(self)@.pool,
                    ),
            exists|origin: Seq<int>|
                #[trigger] tick_outcome(
                    old(self)@,
                    final(self)@.columns,
                    origin,
                    scaled_dt(delta_time, old(self)@.speed),
                    spawn_chance(delta_time, old(self)@.density),
                ),
            final(self)@.columns.len() <= old(self)@.columns.len() + old(self)@.width,
            spawn_chance(delta_time, old(self)@.density) == CHANCE_SCALE ==> forall|x: u16|
                x < old(self)@.width ==> #[trigger] has_active(final(self)@.columns, x),
    {
        let eff = scale_dt(delta_time, self.speed_multiplier);
        let chance = chance_of(delta_time, self.density);
        let ghost v0 = self@;
        let origin = self.step_columns(eff, rng);
        let ghost mid = self@;
        self.spawn_columns(chance, rng);
        proof {
            let cols = self@.columns;
            let k = mid.columns.len() as int;
            assert forall|j: int| 0 <= j < k implies #[trigger] cols[j] == mid.columns[j] by {
                assert(cols[j] == cols.take(k)[j]);
            }
            assert forall|j: int|
                0 <= j < origin@.len() implies 0 <= #[trigger] origin@[j] < old(self)@.columns.len() && update_step(
                    old(self)@.columns[origin@[j]],
                    cols[j],
                    eff,
                    old(self)@.height,
                    old(self)@.pool,
                ) by {
                assert(cols[j] == mid.columns[j]);
            }
            assert(tick_outcome(old(self)@, cols, origin@, eff, chance));
            lemma_tick_count(old(self)@, cols, origin@, eff, chance);
            assert forall|i: int|
                0 <= i < old(self)@.columns.len() implies dies_on_step(
                    #[trigger] old(self)@.columns[i],
                    scaled_dt(delta_time, old(self)@.speed),
                    old(self)@.height,
                ) || exists|j: int|
                    0 <= j < self@.columns.len() && update_step(
                        old(self)@.columns[i],
                        #[trigger] self@.columns[j],
                        scaled_dt(delta_time, old(self)@.speed),
                        old(self)@.height,
                        old(self)@.pool,
                    ) by {
                if !dies_on_step(old(self)@.columns[i], eff, old(self)@.height) {
                    let j = choose|j: int| 0 <= j < origin@.len() && origin@[j] == i;
                    assert(self@.columns[j] == self@.columns.take(mid.columns.len() as int)[j]);
                    assert(self@.columns[j] == mid.columns[j]);
                    assert(0 <= origin@[j] < old(self)@.columns.len());
                }
            }
            assert forall|j: int| 0 <= j < self@.columns.len() implies (is_fresh(#[trigger] self@.columns[j])
                && spawn_chance(delta_time, old(self)@.density) > 0) || exists|i: int|
                0 <= i < old(self)@.columns.len() && update_step(
                    #[trigger] old(self)@.columns[i],
                    self@.columns[j],
                    scaled_dt(delta_time, old(self)@.speed),
                    old(self)@.height,
                    old(self)@.pool,
                ) by {
                if j < mid.columns.len() {
                    assert(self@.columns[j] == self@.columns.take(mid.columns.len() as int)[j]);
                    assert(self@.columns[j] == mid.columns[j]);
                    assert(0 <= origin@[j] < old(self)@.columns.len());
                    assert(update_step(old(self)@.columns[origin@[j]], mid.columns[j], eff, old(self)@.height, old(self)@.pool));
                }
            }
        }
    }

    /// Advances every column by `eff` microseconds and drops the dead ones;
    /// the result maps each remaining column to the one it was.
    fn step_columns(&mut self, eff: u64, rng: &mut rand::rngs::StdRng) -> (origin: Ghost<Seq<int>>)
        requires
            old(self).wf(),
        ensures
            final(self).wf(),
            final(self)@ == (FieldView { columns: final(self)@.columns, ..old(self)@ }),
            origin@.len() == final(self)@.columns.len(),
            forall|j: int| 0 <= j < final(self)@.columns.len() ==> 0 <= #[trigger] origin@[j] < old(self)@.columns.len()
                && update_step(
                old(self)@.columns[origin@[j]],
                final(self)@.columns[j],
                eff,
                old(self)@.height,
                old(self)@.pool,
            ) && !is_dead_spec(final(self)@.columns[j]),
            forall|j: int| 0 <= j < final(self)@.columns.len() ==> !is_dead_spec(#[trigger] final(self)@.columns[j]),
            forall|i: int|
                0 <= i < old(self)@.columns.len() ==> dies_on_step(#[trigger] old(self)@.columns[i], eff, old(self)@.height)
                    || exists|j: int| 0 <= j < origin@.len() && origin@[j] == i,
            forall|j1: int, j2: int| 0 <= j1 < j2 < origin@.len() ==> #[trigger] origin@[j1] < #[trigger] origin@[j2],
    {
        let ghost v0 = self@;
        let ghost olds = self@.columns;
        let mut old_cols: Vec<RainColumn> = Vec::new();
        core::mem::swap(&mut old_cols, &mut self.columns);
        let mut kept: Vec<RainColumn> = Vec::new();
        let ghost mut src: Seq<int> = Seq::empty();
        let ghost mut n: int = 0;
        assert(views_of(old_cols@) =~= olds.skip(0));
        while old_cols.len() > 0
            invariant
                0 <= n <= olds.len(),
                views_of(old_cols@) == olds.skip(n),
                field_wf(v0),
                olds == v0.columns,
                self.char_pool@ == v0.pool,
                self.height == v0.height,
                src.len() == kept@.len(),
                forall|j: int|
                    0 <= j < src.len() ==> 0 <= #[trigger] src[j] < n && update_step(
                        olds[src[j]],
                        kept@[j]@,
                        eff,
                        v0.height,
                        v0.pool,
                    ) && column_wf(kept@[j]@) && !is_dead_spec(kept@[j]@),
                forall|j1: int, j2: int| 0 <= j1 < j2 < src.len() ==> #[trigger] src[j1] < #[trigger] src[j2],
                forall|k: int|
                    0 <= k < n ==> dies_on_step(#[trigger] olds[k], eff, v0.height) || exists|j: int|
                        0 <= j < src.len() && src[j] == k,
            decreases old_cols@.len(),
        {
            let ghost rest = old_cols@;
            assert(views_of(rest).len() == rest.len());
            assert(views_of(rest)[0] == rest[0]@);
            let mut col = old_cols.remove(0);
            assert(olds.skip(n)[0] == col@);
            assert(column_wf(olds[n]));
            let ghost before_step = col@;
            col.update(eff, self.height, &self.char_pool, rng);
            proof {
                lemma_step_dead_iff(before_step, col@, eff, self.height, self.char_pool@);
            }
            let ghost src_before = src;
            if !col.is_dead(self.height) {
                let ghost kb = kept@;
                kept.push(col);
                proof {
                    src = src.push(n);
                    assert(src[src.len() - 1] == n);
                    assert forall|j: int| 0 <= j < src.len() implies 0 <= #[trigger] src[j] < n + 1 && update_step(
                        olds[src[j]],
                        kept@[j]@,
                        eff,
                        v0.height,
                        v0.pool,
                    ) && column_wf(kept@[j]@) && !is_dead_spec(kept@[j]@) by {
                        if j < kb.len() {
                            assert(kept@[j] == kb[j]);
                            assert(src[j] == src.drop_last()[j]);
                        }
                    }
                }
            }
            proof {
                assert forall|k: int|
                    0 <= k < n + 1 implies dies_on_step(#[trigger] olds[k], eff, v0.height) || exists|j: int|
                        0 <= j < src.len() && src[j] == k by {
                    if k < n && !dies_on_step(olds[k], eff, v0.height) {
                        let j = choose|j: int| 0 <= j < src_before.len() && src_before[j] == k;
                        assert(src[j] == src_before[j]);
                    }
                }
                n = n + 1;
                assert(old_cols@ == rest.remove(0));
                assert forall|k: int| 0 <= k < old_cols@.len() implies #[trigger] views_of(old_cols@)[k] == olds.skip(n)[k] by {
                    assert(views_of(rest)[k + 1] == rest[k + 1]@);
                    assert(olds.skip(n - 1)[k + 1] == olds[n + k]);
                }
                assert(views_of(old_cols@) =~= olds.skip(n));
            }
        }
        self.columns = kept;
        proof {
            assert forall|i: int, j: int|
                0 <= i < self@.columns.len() && 0 <= j < self@.columns.len() && i != j
                    && #[trigger] self@.columns[i].x == #[trigger] self@.columns[j].x implies self@.columns[i].draining
                    || self@.columns[j].draining by {
                assert(self@.columns[i] == kept@[i]@);
                assert(self@.columns[j] == kept@[j]@);
                if i < j {
                    assert(src[i] < src[j]);
                } else {
                    assert(src[j] < src[i]);
                }
                assert(olds[src[i]].x == olds[src[j]].x);
            }
            assert forall|i: int| 0 <= i < self@.columns.len() implies column_wf(#[trigger] self@.columns[i])
                && self@.columns[i].x < self@.width by {
                assert(self@.columns[i] == kept@[i]@);
                assert(olds[src[i]].x < v0.width);
            }
            assert forall|j: int| 0 <= j < self@.columns.len() implies 0 <= #[trigger] src[j] < olds.len() && update_step(
                olds[src[j]],
                self@.columns[j],
                eff,
                v0.height,
                v0.pool,
            ) by {
                assert(self@.columns[j] == kept@[j]@);
                assert(0 <= src[j] < n);
            }
            assert forall|j: int| 0 <= j < self@.columns.len() implies !is_dead_spec(#[trigger] self@.columns[j]) by {
                assert(self@.columns[j] == kept@[j]@);
                assert(0 <= src[j] < n);
            }
        }
        proof {
            assert forall|j: int| 0 <= j < self@.columns.len() implies 0 <= #[trigger] src[j] < olds.len() && update_step(
                olds[src[j]],
                self@.columns[j],
                eff,
                v0.height,
                v0.pool,
            ) && !is_dead_spec(self@.columns[j]) by {
                assert(self@.columns[j] == kept@[j]@);
                assert(0 <= src[j] < n);
            }
        }
        Ghost(src)
    }

    /// Gives each screen column without a growing column a fresh one, with
    /// chance `chance` in millionths each.
    fn spawn_columns(&mut self, chance: u32, rng: &mut rand::rngs::StdRng)
        requires
            old(self).wf(),
            chance <= CHANCE_SCALE,
            forall|j: int| 0 <= j < old(self)@.columns.len() ==> !is_dead_spec(#[trigger] old(self)@.columns[j]),
        ensures
            final(self).wf(),
            final(self)@ == (FieldView { columns: final(self)@.columns, ..old(self)@ }),
            old(self)@.columns.len() <= final(self)@.columns.len(),
            final(self)@.columns.take(old(self)@.columns.len() as int) == old(self)@.columns,
            forall|j: int| 0 <= j < final(self)@.columns.len() ==> !is_dead_spec(#[trigger] final(self)@.columns[j]),
            forall|j: int| old(self)@.columns.len() <= j < final(self)@.columns.len() ==> is_fresh(
                #[trigger] final(self)@.columns[j],
            ) && chance > 0,
            forall|j: int|
                old(self)@.columns.len() <= j < final(self)@.columns.len() ==> #[trigger] final(self)@.columns[j].x
                    < old(self)@.width,
            forall|j1: int, j2: int|
                old(self)@.columns.len() <= j1 < j2 < final(self)@.columns.len() ==> #[trigger] final(self)@.columns[j1].x
                    < #[trigger] final(self)@.columns[j2].x,
            chance == CHANCE_SCALE ==> forall|x: u16| x < old(self)@.width ==> #[trigger] has_active(final(self)@.columns, x),
    {
        let ghost v0 = self@;
        let ghost stepped = self@.columns.len();
        let mut x: u16 = 0;
        while x < self.width
            invariant
                self.wf(),
                self@.width == v0.width,
                self@.height == v0.height,
                self@.pool == v0.pool,
                self@.palette == v0.palette,
                self@.speed == v0.speed,
                self@.density == v0.density,
                chance <= CHANCE_SCALE,
                self@.columns.take(stepped as int) == v0.columns,
                stepped <= self@.columns.len(),
                forall|j: int| 0 <= j < self@.columns.len() ==> !is_dead_spec(#[trigger] self@.columns[j]),
                forall|j: int| stepped <= j < self@.columns.len() ==> is_fresh(#[trigger] self@.columns[j]),
                self@.columns.len() > stepped ==> chance > 0,
                x <= self@.width,
                forall|j: int| stepped <= j < self@.columns.len() ==> #[trigger] self@.columns[j].x < x,
                forall|j1: int, j2: int|
                    stepped <= j1 < j2 < self@.columns.len() ==> #[trigger] self@.columns[j1].x
                        < #[trigger] self@.columns[j2].x,
                chance == CHANCE_SCALE ==> forall|x1: u16| x1 < x ==> #[trigger] has_active(self@.columns, x1),
            decreases self.width - x,
        {
            let active = self.has_active_column(x);
            let roll = if active {
                false
            } else {
                random_ratio(rng, chance, CHANCE_SCALE)
            };
            if roll {
                assert(chance > 0);
                let col = RainColumn::spawn(x, self.height, rng);
                let ghost before = self@.columns;
                self.columns.push(col);
                proof {
                    assert(self@.columns =~= before.push(col@));
                    assert(self@.columns[before.len() as int] == col@);
                    assert(self@.columns.take(stepped as int) =~= before.take(stepped as int));
                    assert forall|j: int| 0 <= j < self@.columns.len() implies !is_dead_spec(#[trigger] self@.columns[j]) by {
                        if j < before.len() {
                            assert(self@.columns[j] == before[j]);
                        }
                    }
                    assert forall|j: int| stepped <= j < self@.columns.len() implies #[trigger] self@.columns[j].x < x + 1 by {
                        if j < before.len() {
                            assert(self@.columns[j] == before[j]);
                        }
                    }
                    assert forall|j1: int, j2: int|
                        stepped <= j1 < j2 < self@.columns.len() implies #[trigger] self@.columns[j1].x
                            < #[trigger] self@.columns[j2].x by {
                        assert(self@.columns[j1] == before[j1]);
                        if j2 < before.len() {
                            assert(self@.columns[j2] == before[j2]);
                        }
                    }
                    assert forall|j: int| stepped <= j < self@.columns.len() implies is_fresh(#[trigger] self@.columns[j]) by {
                        if j < before.len() {
                            assert(self@.columns[j] == before[j]);
                        }
                    }
                    assert forall|i: int, j: int|
                        0 <= i < self@.columns.len() && 0 <= j < self@.columns.len() && i != j
                            && #[trigger] self@.columns[i].x == #[trigger] self@.columns[j].x implies self@.columns[i].draining
                            || self@.columns[j].draining by {
                        if i == before.len() && !self@.columns[j].draining {
                            assert(before[j].x == x && !before[j].draining);
                        }
                        if j == before.len() && !self@.columns[i].draining {
                            assert(before[i].x == x && !before[i].draining);
                        }
                    }
                    assert forall|x1: u16| x1 < x + 1 && chance == CHANCE_SCALE implies #[trigger] has_active(self@.columns, x1) by {
                        if x1 < x {
                            assert(has_active(before, x1));
                            let j = choose|j: int| 0 <= j < before.len() && #[trigger] before[j].x == x1 && !before[j].draining;
                            assert(self@.columns[j] == before[j]);
                        } else {
                            assert(self@.columns[before.len() as int].x == x1);
                        }
                    }
                }
                } else {
                proof {
                    assert forall|x1: u16| x1 < x + 1 && chance == CHANCE_SCALE implies #[trigger] has_active(self@.columns, x1) by {
                        if x1 == x {
                            assert(active);
                        }
                    }
                }
                }
            x += 1;
        }
    }

    /// The number of columns in the field.
    pub fn column_count(&self) -> (r: usize)
        ensures
            r == self@.columns.len(),
    {
        self.columns.len()
    }
}

} // verus!
