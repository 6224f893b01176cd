//! One falling column: a head that descends a row at a time and leaves a
//! trail of glyphs behind it, which shrinks from the tail once the head has
//! left the surface.

use vstd::prelude::*;

use crate::chars::CharacterPool;
use crate::random::{random_below, random_ratio};

verus! {

/// One row of progress, in the accumulator's unit: thousandths of a row per
/// second times microseconds.
pub const ROW: u64 = 1_000_000_000;

/// Chance, in thousandths, that a new trail glyph is a highlight.
pub const HIGHLIGHT_CHANCE: u32 = 30;

/// Chance, in thousandths, that a trail glyph is replaced on a tick.
pub const MUTATION_CHANCE: u32 = 20;

/// Slowest and fastest spawn speed, in thousandths of a row per second.
pub const MIN_SPEED: u32 = 8_000;
pub const MAX_SPEED: u32 = 25_000;

/// What a column holds.
pub struct ColumnView {
    pub x: u16,
    /// `(row, glyph)`; index 0 is the tail (oldest), the last the head.
    pub trail: Seq<(u16, char)>,
    /// Trail indices drawn in the highlight color.
    pub highlights: Seq<usize>,
    pub max_trail_len: usize,
    /// Thousandths of a row per second.
    pub speed: u32,
    /// Progress toward the next row, in units of `ROW`.
    pub accumulator: u64,
    /// The row where the next glyph goes; negative above the surface.
    pub head: i64,
    pub draining: bool,
    /// Chance, in thousandths, that a trail glyph is replaced on a tick.
    pub mutation_rate: u32,
}

/// The rows of a trail, tail first.
pub open spec fn rows_of(trail: Seq<(u16, char)>) -> Seq<u16> {
    trail.map_values(|e: (u16, char)| e.0)
}

/// The accumulator after adding `speed * dt`, saturating at `u64::MAX`.
pub open spec fn gained(v: ColumnView, dt: u64) -> int {
    let s = v.accumulator + v.speed * dt;
    if s > u64::MAX {
        u64::MAX as int
    } else {
        s
    }
}

/// The whole rows that the head crosses on a tick of `dt` microseconds.
pub open spec fn rows_crossed(v: ColumnView, dt: u64) -> int {
    gained(v, dt) / (ROW as int)
}

/// `head + k`, saturating at `i64::MAX`.
pub open spec fn advance(head: i64, k: int) -> int {
    if head + k > i64::MAX {
        i64::MAX as int
    } else {
        head + k
    }
}

/// The rows inside a surface `height` tall that a head at `head` passes
/// while moving down `k` rows: `head, head + 1, ...` within `[0, height)`.
pub open spec fn appended_rows(head: int, k: int, height: int) -> Seq<u16> {
    let lo = if head < 0 { 0 } else { head };
    let hi = if head + k < height { head + k } else { height };
    let n = if hi > lo { hi - lo } else { 0 };
    Seq::new(n as nat, |i: int| (lo + i) as u16)
}

/// The rows appended to the trail of `old` when its head moves down `k`
/// rows on a surface `height` tall: none once it drains.
pub open spec fn appended(old: ColumnView, k: int, height: int) -> Seq<u16> {
    if old.draining {
        Seq::empty()
    } else {
        appended_rows(old.head as int, k, height)
    }
}

/// How many entries leave the tail of a grown trail of `len` entries: those
/// over the cap, and one more while draining.
pub open spec fn dropped(len: int, cap: int, draining: bool) -> int {
    let over = if len > cap { len - cap } else { 0 };
    over + if draining && len - over > 0 { 1int } else { 0 }
}

/// One tick of `dt` microseconds on a surface `height` rows tall, drawing
/// glyphs from `pool`: the head moves down a row for every whole row of
/// progress; unless the column drains, each row it passes inside the surface
/// is appended to the trail; the column drains once the head reaches the
/// bottom; then the tail loses what is over the cap, and one more entry while
/// draining. Entries keep their rows; a glyph is either kept or drawn from
/// the pool; highlights follow their entries. A draining trail never grows,
/// and a dead column stays dead.
pub open spec fn update_step(old: ColumnView, new: ColumnView, dt: u64, height: u16, pool: Seq<char>) -> bool {
    let rows = rows_crossed(old, dt);
    let grown = rows_of(old.trail) + appended(old, rows, height as int);
    let d = dropped(grown.len() as int, old.max_trail_len as int, new.draining);
    &&& old.draining ==> new.trail.len() <= old.trail.len()
    &&& is_dead_spec(old) ==> is_dead_spec(new)
    &&& new.x == old.x
    &&& new.max_trail_len == old.max_trail_len
    &&& new.speed == old.speed
    &&& new.mutation_rate == old.mutation_rate
    &&& new.accumulator == gained(old, dt) % (ROW as int)
    &&& new.head == advance(old.head, rows)
    &&& new.draining == (old.draining || (rows > 0 && new.head >= height))
    &&& new.trail.len() == grown.len() - d
    &&& forall|i: int| 0 <= i < new.trail.len() ==> #[trigger] new.trail[i].0 == grown[i + d]
    &&& forall|i: int|
        0 <= i < new.trail.len() ==> (i + d < old.trail.len() && #[trigger] new.trail[i].1 == old.trail[i + d].1)
            || pool.contains(new.trail[i].1)
    &&& forall|p: usize|
        #[trigger] old.highlights.contains(p) && d <= p ==> new.highlights.contains((p - d) as usize)
    &&& forall|q: usize|
        #[trigger] new.highlights.contains(q) && q + d < old.trail.len() ==> old.highlights.contains(
            (q + d) as usize,
        )
}

/// A single vertical stream of falling glyphs.
pub struct RainColumn {
    /// Screen column.
    pub x: u16,
    /// `(row, glyph)`; index 0 is the tail (oldest), the last the head.
    pub trail: Vec<(u16, char)>,
    /// Trail indices drawn in the highlight color.
    pub highlight_positions: Vec<usize>,
    /// Cap on the trail's length.
    pub max_trail_len: usize,
    /// Thousandths of a row per second.
    pub speed: u32,
    /// Progress toward the next row, in units of `ROW`.
    pub accumulator: u64,
    /// The row where the next glyph goes; negative above the surface.
    pub head_y: i64,
    /// Set once the head reaches the bottom; the trail then only shrinks.
    pub draining: bool,
    /// Chance, in thousandths, that a trail glyph is replaced on a tick.
    pub mutation_rate: u32,
}

impl View for RainColumn {
    type V = ColumnView;

    open spec fn view(&self) -> ColumnView {
        ColumnView {
            x: self.x,
            trail: self.trail@,
            highlights: self.highlight_positions@,
            max_trail_len: self.max_trail_len,
            speed: self.speed,
            accumulator: self.accumulator,
            head: self.head_y,
            draining: self.draining,
            mutation_rate: self.mutation_rate,
        }
    }
}

/// The column's state is consistent: every highlight names a trail entry,
/// the trail is within its cap, and the accumulator holds less than a row.
pub open spec fn column_wf(v: ColumnView) -> bool {
    &&& v.trail.len() <= v.max_trail_len
    &&& v.highlights.no_duplicates()
    &&& rows_consecutive(v)
    &&& v.max_trail_len <= u16::MAX
    &&& v.accumulator < ROW
    &&& v.mutation_rate <= 1000
    &&& forall|j: int| 0 <= j < v.highlights.len() ==> #[trigger] v.highlights[j] < v.trail.len()
}

/// The trail's rows run down one by one from the tail, and while the column
/// grows the head is just below the last one.
pub open spec fn rows_consecutive(v: ColumnView) -> bool {
    &&& forall|i: int| 0 <= i < v.trail.len() ==> #[trigger] v.trail[i].0 == v.trail[0].0 + i
    &&& !v.draining && v.trail.len() > 0 ==> v.trail[v.trail.len() - 1].0 + 1 == v.head
}

/// A tick keeps the trail's rows consecutive.
pub proof fn lemma_step_keeps_rows(old: ColumnView, new: ColumnView, dt: u64, height: u16, pool: Seq<char>)
    requires
        rows_consecutive(old),
        update_step(old, new, dt, height, pool),
    ensures
        rows_consecutive(new),
{
    let rows = rows_crossed(old, dt);
    let olds = rows_of(old.trail);
    let app = appended(old, rows, height as int);
    let grown = olds + app;
    let d = dropped(grown.len() as int, old.max_trail_len as int, new.draining);
    let len = old.trail.len() as int;
    let lo = if old.head < 0 { 0 } else { old.head as int };
    assert forall|j: int| 0 <= j < app.len() implies #[trigger] app[j] == lo + j by {
    }
    assert forall|j: int| 0 <= j < len implies #[trigger] olds[j] == olds[0] + j by {
        assert(olds[j] == old.trail[j].0);
        assert(old.trail[j].0 == old.trail[0].0 + j);
    }
    if len > 0 && app.len() > 0 {
        assert(!old.draining);
        assert(olds[len - 1] == old.trail[len - 1].0);
        assert(old.head == olds[0] + len);
        assert(lo == old.head);
    }
    assert forall|j: int| 0 <= j < grown.len() implies #[trigger] grown[j] == grown[0] + j by {
        if len == 0 {
            assert(grown[j] == app[j]);
            assert(grown[0] == app[0]);
        } else if j < len {
            assert(grown[j] == olds[j]);
        } else {
            assert(grown[j] == app[j - len]);
        }
    }
    assert forall|i: int| 0 <= i < new.trail.len() implies #[trigger] new.trail[i].0 == new.trail[0].0 + i by {
        assert(new.trail[i].0 == grown[i + d]);
        assert(new.trail[0].0 == grown[d]);
    }
    if !new.draining && new.trail.len() > 0 {
        let n = new.trail.len() as int;
        assert(new.trail[n - 1].0 == grown[n - 1 + d]);
        assert(n - 1 + d == grown.len() - 1);
        if rows == 0 {
            assert(app.len() == 0);
            assert(grown.len() == len);
            assert(olds[len - 1] == old.trail[len - 1].0);
        } else {
            assert(new.head < height);
            assert(new.head == old.head + rows);
            if app.len() > 0 {
                assert(grown[grown.len() - 1] == app[app.len() - 1]);
            } else {
                if len > 0 {
                    assert(olds[len - 1] == old.trail[len - 1].0);
                    assert(old.head >= 1);
                }
            }
        }
    }
}

/// The column is dead: draining with an empty trail.
pub open spec fn is_dead_spec(v: ColumnView) -> bool {
    v.draining && v.trail.len() == 0
}

proof fn lemma_appended_step(head: int, k: int, height: int)
    requires
        0 <= k,
        0 <= height,
    ensures
        appended_rows(head, k + 1, height) == if 0 <= head + k < height {
            appended_rows(head, k, height).push((head + k) as u16)
        } else {
            appended_rows(head, k, height)
        },
        appended_rows(head, k, height).len() <= height,
{
    let a = appended_rows(head, k, height);
    let b = appended_rows(head, k + 1, height);
    if 0 <= head + k < height {
        assert(b =~= a.push((head + k) as u16));
    } else {
        assert(b =~= a);
    }
}

/// The entries of `v` from index `d` on.
fn skip_entries(v: &Vec<(u16, char)>, d: usize) -> (r: Vec<(u16, char)>)
    requires
        d <= v@.len(),
    ensures
        r@ == v@.skip(d as int),
{
    let mut r: Vec<(u16, char)> = Vec::new();
    let mut i: usize = d;
    while i < v.len()
        invariant
            d <= i <= v@.len(),
            r@ == v@.subrange(d as int, i as int),
        decreases v@.len() - i,
    {
        r.push(v[i]);
        i += 1;
        assert(r@ =~= v@.subrange(d as int, i as int));
    }
    assert(r@ =~= v@.skip(d as int));
    r
}

/// The positions of `v` that are at least `d`, each moved down by `d`.
fn shift_positions(v: &Vec<usize>, d: usize) -> (r: Vec<usize>)
    ensures
        v@.no_duplicates() ==> r@.no_duplicates(),
        forall|p: usize| #[trigger] v@.contains(p) && d <= p ==> r@.contains((p - d) as usize),
        forall|j: int| #![trigger r@[j]] 0 <= j < r@.len() ==> v@.contains((r@[j] + d) as usize) && r@[j] + d <= usize::MAX,
{
    let mut r: Vec<usize> = Vec::new();
    let ghost mut src: Seq<int> = Seq::empty();
    let mut i: usize = 0;
    while i < v.len()
        invariant
            i <= v@.len(),
            src.len() == r@.len(),
            forall|k: int| 0 <= k < i && d <= #[trigger] v@[k] ==> r@.contains((v@[k] - d) as usize),
            forall|j: int| 0 <= j < r@.len() ==> 0 <= #[trigger] src[j] < i && v@[src[j]] == r@[j] + d,
            forall|j1: int, j2: int| 0 <= j1 < j2 < r@.len() ==> #[trigger] src[j1] < #[trigger] src[j2],
        decreases v@.len() - i,
    {
        let p = v[i];
        if p >= d {
            let ghost old_r = r@;
            r.push(p - d);
            proof {
                src = src.push(i as int);
            }
            assert forall|k: int| 0 <= k < i + 1 && d <= #[trigger] v@[k] implies r@.contains((v@[k] - d) as usize) by {
                if k < i {
                    let j = choose|j: int| 0 <= j < old_r.len() && old_r[j] == (v@[k] - d) as usize;
                    assert(r@[j] == old_r[j]);
                } else {
                    assert(r@[r@.len() - 1] == (v@[k] - d) as usize);
                }
            }
        }
        i += 1;
    }
    assert forall|j: int| #![trigger r@[j]] 0 <= j < r@.len() implies v@.contains((r@[j] + d) as usize) && r@[j] + d <= usize::MAX by {
        assert(v@[src[j]] == r@[j] + d);
    }
    proof {
        if v@.no_duplicates() {
        assert forall|j1: int, j2: int| 0 <= j1 < r@.len() && 0 <= j2 < r@.len() && j1 != j2 implies r@[j1] != r@[j2] by {
            assert(v@[src[j1]] == r@[j1] + d);
            assert(v@[src[j2]] == r@[j2] + d);
            if j1 < j2 {
                assert(src[j1] < src[j2]);
            } else {
                assert(src[j2] < src[j1]);
            }
        }
        }
    }
    assert forall|p: usize| #[trigger] v@.contains(p) && d <= p implies r@.contains((p - d) as usize) by {
        let k = choose|k: int| 0 <= k < v@.len() && v@[k] == p;
        assert(d <= v@[k]);
    }
    r
}

impl RainColumn {
    pub open spec fn wf(&self) -> bool {
        column_wf(self@)
    }

    /// A column at screen column `x` with the given trail cap, speed (in
    /// thousandths of a row per second) and starting head row.
    pub fn new(x: u16, max_trail_len: u16, speed: u32, start_row: i64) -> (r: RainColumn)
        ensures
            r.wf(),
            r@ == (ColumnView {
                x,
                trail: Seq::empty(),
                highlights: Seq::empty(),
                max_trail_len: max_trail_len as usize,
                speed,
                accumulator: 0,
                head: start_row,
                draining: false,
                mutation_rate: MUTATION_CHANCE,
            }),
    {
        RainColumn {
            x,
            trail: Vec::new(),
            highlight_positions: Vec::new(),
            max_trail_len: max_trail_len as usize,
            speed,
            accumulator: 0,
            head_y: start_row,
            draining: false,
            mutation_rate: MUTATION_CHANCE,
        }
    }

    /// A fresh column at screen column `x` on a surface `screen_height` rows
    /// tall: a random speed in `[MIN_SPEED, MAX_SPEED)`, a random trail cap
    /// between a third of the height and the full height, and a head a random
    /// number of rows (less than half the height) above the surface.
    pub fn spawn(x: u16, screen_height: u16, rng: &mut rand::rngs::StdRng) -> (r: RainColumn)
        ensures
            r.wf(),
            r@.x == x,
            r@.trail.len() == 0,
            r@.highlights.len() == 0,
            MIN_SPEED <= r@.speed < MAX_SPEED,
            screen_height / 3 <= r@.max_trail_len <= screen_height,
            r@.head <= 0,
            screen_height / 2 > 0 ==> r@.head > -(screen_height / 2),
            screen_height / 2 == 0 ==> r@.head == 0,
            r@.accumulator == 0,
            !r@.draining,
            r@.mutation_rate == MUTATION_CHANCE,
    {
        let speed = MIN_SPEED + random_below(rng, (MAX_SPEED - MIN_SPEED) as u64) as u32;
        let low = screen_height / 3;
        let cap = low + random_below(rng, (screen_height - low) as u64 + 1) as u16;
        let half = screen_height / 2;
        let start: i64 = if half > 0 {
            -(random_below(rng, half as u64) as i64)
        } else {
            0
        };
        RainColumn::new(x, cap, speed, start)
    }

    /// Advances the column by `delta_time` microseconds on a surface
    /// `screen_height` rows tall (see `update_step`).
    #[verifier::rlimit(100)]
    pub fn update(
        &mut self,
        delta_time: u64,
        screen_height: u16,
        char_pool: &CharacterPool,
        rng: &mut rand::rngs::StdRng,
    )
        requires
            old(self).wf(),
            char_pool.wf(),
        ensures
            final(self).wf(),
            update_step(old(self)@, final(self)@, delta_time, screen_height, char_pool@),
    {
        let ghost v0 = self@;
        let speed = self.speed as u64;
        // saturating accumulator + speed * delta_time
        let total: u64 = if speed == 0 || delta_time <= (u64::MAX - self.accumulator) / speed {
            proof {
                if speed > 0 {
                    lemma_mul_room(self.accumulator, speed, delta_time);
                }
            }
            self.accumulator + speed * delta_time
        } else {
            proof {
                lemma_mul_overflow(self.accumulator, speed, delta_time);
            }
            u64::MAX
        };
        let rows = total / ROW;
        self.accumulator = total % ROW;
        let h = screen_height as i64;
        let mut k: u64 = 0;
        while k < rows
            invariant
                k <= rows,
                rows == rows_crossed(v0, delta_time),
                h == screen_height,
                char_pool.wf(),
                self.x == v0.x,
                self.max_trail_len == v0.max_trail_len,
                self.speed == v0.speed,
                self.mutation_rate == v0.mutation_rate,
                self.accumulator == gained(v0, delta_time) % (ROW as int),
                self.head_y == advance(v0.head, k as int),
                self.draining == (v0.draining || (k > 0 && self.head_y >= h)),
                rows_of(self.trail@) == rows_of(v0.trail) + appended(v0, k as int, h as int),
                self.highlight_positions@.no_duplicates(),
                self.trail@.len() <= v0.trail.len() + screen_height,
                forall|i: int| 0 <= i < v0.trail.len() ==> #[trigger] self.trail@[i].1 == v0.trail[i].1,
                forall|i: int| v0.trail.len() <= i < self.trail@.len() ==> char_pool@.contains(#[trigger] self.trail@[i].1),
                self.highlight_positions@.len() >= v0.highlights.len(),
                self.highlight_positions@.take(v0.highlights.len() as int) == v0.highlights,
                forall|j: int| v0.highlights.len() <= j < self.highlight_positions@.len()
                    ==> v0.trail.len() <= #[trigger] self.highlight_positions@[j],
                forall|j: int| 0 <= j < self.highlight_positions@.len()
                    ==> #[trigger] self.highlight_positions@[j] < self.trail@.len(),
                column_wf(v0),
            decreases rows - k,
        {
            proof {
                lemma_appended_step(v0.head as int, k as int, h as int);
            }
            let y = self.head_y;
            if !self.draining && y >= 0 && y < h {
                let ch = char_pool.random_char(rng);
                let ghost before = self.trail@;
                self.trail.push((y as u16, ch));
                assert(rows_of(self.trail@) =~= rows_of(before).push(y as u16));
                if random_ratio(rng, HIGHLIGHT_CHANCE, 1000) {
                    let ghost hb = self.highlight_positions@;
                    assert(forall|j: int| 0 <= j < hb.len() ==> hb[j] < before.len());
                    self.highlight_positions.push(self.trail.len() - 1);
                    assert(self.highlight_positions@ == hb.push((before.len()) as usize));
                    assert(self.highlight_positions@.take(v0.highlights.len() as int) =~= hb.take(
                        v0.highlights.len() as int,
                    ));
                }
            }
            if self.head_y < i64::MAX {
                self.head_y = self.head_y + 1;
            }
            if self.head_y >= h {
                self.draining = true;
            }
            k += 1;
        }
        let ghost grown = rows_of(self.trail@);
        let ghost pre = self.trail@;
        let ghost hl = self.highlight_positions@;
        let len = self.trail.len();
        let cap = self.max_trail_len;
        let over: usize = if len > cap {
            len - cap
        } else {
            0
        };
        let d: usize = if self.draining && len - over > 0 {
            over + 1
        } else {
            over
        };
        self.trail = skip_entries(&self.trail, d);
        self.highlight_positions = shift_positions(&self.highlight_positions, d);
        proof {
            assert forall|j: int| 0 <= j < self.highlight_positions@.len() implies #[trigger] self.highlight_positions@[j]
                < self.trail@.len() by {
                let i = choose|i: int| 0 <= i < hl.len() && hl[i] == (self.highlight_positions@[j] + d) as usize;
                assert(hl[i] < pre.len());
            }
            assert forall|p: usize| #[trigger] v0.highlights.contains(p) && d <= p implies self.highlight_positions@.contains(
                (p - d) as usize,
            ) by {
                let i = choose|i: int| 0 <= i < v0.highlights.len() && v0.highlights[i] == p;
                assert(hl[i] == v0.highlights[i]);
                assert(hl.contains(p));
                assert(((p - d) as usize) as int == p - d);
            }
            assert forall|q: usize|
                #[trigger] self.highlight_positions@.contains(q) && q + d < v0.trail.len()
                    implies v0.highlights.contains((q + d) as usize) by {
                let jj = choose|jj: int| 0 <= jj < self.highlight_positions@.len() && self.highlight_positions@[jj] == q;
                let i = choose|i: int| 0 <= i < hl.len() && hl[i] == (self.highlight_positions@[jj] + d) as usize;
                assert(hl[i] == (q + d) as usize);
                if i >= v0.highlights.len() {
                    assert(v0.trail.len() <= hl[i]);
                } else {
                    assert(hl[i] == v0.highlights[i]);
                }
            }
        }
        let ghost old_self = *self;
        let n = self.trail.len();
        let mut i: usize = 0;
        while i < n
            invariant
                i <= n,
                n == self.trail@.len(),
                n == pre.len() - d,
                char_pool.wf(),
                column_wf(v0),
                self.x == v0.x,
                self.max_trail_len == v0.max_trail_len,
                self.speed == v0.speed,
                self.mutation_rate == v0.mutation_rate,
                self.accumulator == old_self.accumulator,
                self.head_y == old_self.head_y,
                self.draining == old_self.draining,
                self.highlight_positions == old_self.highlight_positions,
                forall|j: int| 0 <= j < n ==> #[trigger] self.trail@[j].0 == pre[j + d].0,
                forall|j: int| 0 <= j < n ==> #[trigger] self.trail@[j].1 == pre[j + d].1 || char_pool@.contains(
                    self.trail@[j].1,
                ),
            decreases n - i,
        {
            if random_ratio(rng, self.mutation_rate, 1000) {
                let row = self.trail[i].0;
                let ch = char_pool.random_char(rng);
                self.trail.set(i, (row, ch));
            }
            i += 1;
        }
        proof {
            assert forall|j: int| 0 <= j < self.trail@.len() implies #[trigger] self.trail@[j].0 == grown[j + d] by {
                assert(grown[j + d] == pre[j + d].0);
            }
            assert(update_step(v0, self@, delta_time, screen_height, char_pool@));
            lemma_step_keeps_rows(v0, self@, delta_time, screen_height, char_pool@);
        }
    }

    /// Whether the column is finished: draining with nothing left to show.
    pub fn is_dead(&self, _screen_height: u16) -> (r: bool)
        ensures
            r == is_dead_spec(self@),
    {
        self.draining && self.trail.len() == 0
    }

    /// Whether the head has left the surface and the trail only shrinks.
    pub fn is_fading(&self) -> (r: bool)
        ensures
            r == self@.draining,
    {
        self.draining
    }

    /// The row where the next glyph goes; negative above the surface.
    pub fn head_row(&self) -> (r: i64)
        ensures
            r == self@.head,
    {
        self.head_y
    }

    /// The cap on the trail's length.
    pub fn max_trail_len(&self) -> (r: usize)
        ensures
            r == self@.max_trail_len,
    {
        self.max_trail_len
    }
}

/// Whether a tick of `dt` microseconds on a surface `height` rows tall leaves
/// the column dead. Whether a column dies does not depend on chance.
pub open spec fn dies_on_step(old: ColumnView, dt: u64, height: u16) -> bool {
    let rows = rows_crossed(old, dt);
    let draining = old.draining || (rows > 0 && advance(old.head, rows) >= height);
    let len = old.trail.len() + appended(old, rows, height as int).len() as int;
    draining && len - dropped(len, old.max_trail_len as int, draining) == 0
}

/// A tick leaves the column dead exactly when `dies_on_step` says so.
pub proof fn lemma_step_dead_iff(old: ColumnView, new: ColumnView, dt: u64, height: u16, pool: Seq<char>)
    requires
        update_step(old, new, dt, height, pool),
    ensures
        is_dead_spec(new) == dies_on_step(old, dt, height),
{
    assert(rows_of(old.trail).len() == old.trail.len());
}

/// After any tick the trail is no longer than its cap.
pub proof fn lemma_trail_within_cap(old: ColumnView, new: ColumnView, dt: u64, height: u16, pool: Seq<char>)
    requires
        update_step(old, new, dt, height, pool),
    ensures
        new.trail.len() <= new.max_trail_len,
{
}

/// A dead column stays dead: a tick leaves it draining with an empty trail.
pub proof fn lemma_dead_column_stays_dead(old: ColumnView, new: ColumnView, dt: u64, height: u16, pool: Seq<char>)
    requires
        is_dead_spec(old),
        update_step(old, new, dt, height, pool),
    ensures
        is_dead_spec(new),
{
}

proof fn lemma_mul_room(acc: u64, speed: u64, dt: u64)
    requires
        speed > 0,
        dt <= (u64::MAX - acc) as int / speed as int,
    ensures
        acc + speed * dt <= u64::MAX,
{
    let m = (u64::MAX - acc) as int;
    assert(speed * dt <= speed * (m / speed as int)) by (nonlinear_arith)
        requires
            speed > 0,
            dt <= m / speed as int,
    ;
    vstd::arithmetic::div_mod::lemma_fundamental_div_mod(m, speed as int);
    vstd::arithmetic::div_mod::lemma_mod_bound(m, speed as int);
}

proof fn lemma_mul_overflow(acc: u64, speed: u64, dt: u64)
    requires
        speed > 0,
        dt > (u64::MAX - acc) as int / speed as int,
    ensures
        acc + speed * dt > u64::MAX,
{
    let m = (u64::MAX - acc) as int;
    let q = m / speed as int;
    vstd::arithmetic::div_mod::lemma_fundamental_div_mod(m, speed as int);
    vstd::arithmetic::div_mod::lemma_mod_bound(m, speed as int);
    assert(speed * dt >= speed * (q + 1)) by (nonlinear_arith)
        requires
            speed > 0,
            dt >= q + 1,
    ;
    assert(speed * (q + 1) == speed * q + speed) by (nonlinear_arith);
}

} // verus!
