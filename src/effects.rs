//! Animated sources: what every visual effect can do, the classic rain
//! effect, and the registry of effect names.

use vstd::prelude::*;

use crate::buffer::{GridView, ScreenBuffer};
use crate::chars::CharacterPool;
use crate::field::{clamp_multiplier, paint_columns, RainField};
use crate::palette::Palette;
use crate::text::str_eq;

verus! {

/// A visual effect: advanced by a time step, drawn into a buffer, resized
/// with the surface. Speed and density are multipliers in thousandths.
pub trait Effect {
    /// The effect's name.
    fn name(&self) -> &'static str;

    /// The grid `v` with the effect's current frame drawn over it; an
    /// effect that does not say draws nothing.
    open spec fn drawn(&self, v: GridView) -> GridView {
        v
    }

    /// Advances the effect by `delta_time` microseconds.
    fn update(&mut self, delta_time: u64, rng: &mut rand::rngs::StdRng);

    /// Draws the effect into the buffer (see `drawn`), whose size stays as
    /// it is.
    fn render(&self, buffer: &mut ScreenBuffer)
        requires
            old(buffer).wf(),
        ensures
            final(buffer).wf(),
            final(buffer)@ == self.drawn(old(buffer)@),
            final(buffer)@.width == old(buffer)@.width,
            final(buffer)@.height == old(buffer)@.height,
            final(buffer)@.prev == old(buffer)@.prev,
            final(buffer)@.first_frame == old(buffer)@.first_frame,
    ;

    /// Takes a new surface size.
    fn resize(&mut self, width: u16, height: u16);

    /// Sets the speed multiplier; effects without one ignore it.
    fn set_speed(&mut self, _multiplier: u32) {
    }

    /// The speed multiplier; one for effects without one.
    fn speed(&self) -> u32 {
        1000
    }

    /// Sets the density multiplier; effects without one ignore it.
    fn set_density(&mut self, _multiplier: u32) {
    }

    /// The density multiplier; one for effects without one.
    fn density(&self) -> u32 {
        1000
    }
}

/// The classic falling-glyph rain.
pub struct ClassicRain {
    rain: RainField,
}

impl ClassicRain {
    /// The rain field is consistent.
    #[verifier::type_invariant]
    spec fn inv(&self) -> bool {
        self.rain.wf()
    }

    /// The rain field behind the effect.
    pub closed spec fn field(&self) -> RainField {
        self.rain
    }

    /// Classic rain with the matrix glyphs, the classic palette and both
    /// multipliers at one.
    pub fn new(width: u16, height: u16) -> (r: ClassicRain)
        ensures
            r.field().wf(),
            r.field()@.width == width,
            r.field()@.height == height,
            r.field()@.columns.len() == 0,
    {
        ClassicRain { rain: RainField::new(width, height) }
    }

    /// Classic rain with the given glyphs, palette and multipliers.
    pub fn with_config(
        width: u16,
        height: u16,
        char_pool: CharacterPool,
        palette: Palette,
        speed: u32,
        density: u32,
    ) -> (r: ClassicRain)
        requires
            char_pool.wf(),
        ensures
            r.field().wf(),
            r.field()@.width == width,
            r.field()@.height == height,
            r.field()@.columns.len() == 0,
            r.field()@.pool == char_pool@,
            r.field()@.palette == palette,
            r.field()@.speed == clamp_multiplier(speed as int),
            r.field()@.density == clamp_multiplier(density as int),
    {
        ClassicRain { rain: RainField::with_config(width, height, char_pool, palette, speed, density) }
    }
}

impl Effect for ClassicRain {
    open spec fn drawn(&self, v: GridView) -> GridView {
        paint_columns(v, self.field()@.columns, self.field()@.palette, self.field()@.height, self.field()@.columns.len())
    }

    fn name(&self) -> &'static str {
        "classic"
    }

    fn update(&mut self, delta_time: u64, rng: &mut rand::rngs::StdRng) {
        proof {
            use_type_invariant(&*self);
        }
        let mut rain = RainField::new(0, 0);
        core::mem::swap(&mut self.rain, &mut rain);
        rain.update(delta_time, rng);
        core::mem::swap(&mut self.rain, &mut rain);
    }

    fn render(&self, buffer: &mut ScreenBuffer) {
        proof {
            use_type_invariant(self);
        }
        self.rain.render(buffer);
        proof {
            crate::field::lemma_paint_columns_keeps_frame(
                old(buffer)@,
                self.rain@.columns,
                self.rain@.palette,
                self.rain@.height,
                self.rain@.columns.len(),
            );
        }
    }

    fn resize(&mut self, width: u16, height: u16) {
        proof {
            use_type_invariant(&*self);
        }
        let mut rain = RainField::new(0, 0);
        core::mem::swap(&mut self.rain, &mut rain);
        rain.resize(width, height);
        core::mem::swap(&mut self.rain, &mut rain);
    }

    fn set_speed(&mut self, multiplier: u32) {
        proof {
            use_type_invariant(&*self);
        }
        let mut rain = RainField::new(0, 0);
        core::mem::swap(&mut self.rain, &mut rain);
        rain.set_speed(multiplier);
        core::mem::swap(&mut self.rain, &mut rain);
    }

    fn speed(&self) -> u32 {
        self.rain.speed()
    }

    fn set_density(&mut self, multiplier: u32) {
        proof {
            use_type_invariant(&*self);
        }
        let mut rain = RainField::new(0, 0);
        core::mem::swap(&mut self.rain, &mut rain);
        rain.set_density(multiplier);
        core::mem::swap(&mut self.rain, &mut rain);
    }

    fn density(&self) -> u32 {
        self.rain.density()
    }
}

/// The names of the effects, in cycling order.
pub open spec fn effect_names_spec() -> Seq<Seq<char>> {
    seq!["classic"@]
}

/// The names of the effects, in cycling order.
pub fn effect_names() -> (r: Vec<&'static str>)
    ensures
        r@.map_values(|s: &'static str| s@) == effect_names_spec(),
{
    let r = vec!["classic"];
    assert(r@.map_values(|s: &'static str| s@) =~= effect_names_spec());
    r
}

/// The position of `name` among the effect names, or 0 if it is not one.
pub open spec fn effect_index(name: Seq<char>) -> int {
    if effect_names_spec().contains(name) {
        effect_names_spec().index_of(name)
    } else {
        0
    }
}

/// The effect after `current` in the cycle, wrapping around; an unknown
/// name counts as the first.
pub fn next_effect_name(current: &str) -> (r: &'static str)
    ensures
        r@ == effect_names_spec()[(effect_index(current@) + 1) % effect_names_spec().len() as int],
{
    let names = effect_names();
    let ghost ns = effect_names_spec();
    let mut idx: usize = 0;
    let mut i: usize = 0;
    let mut found = false;
    while i < names.len()
        invariant
            i <= names@.len(),
            names@.map_values(|s: &'static str| s@) == ns,
            ns == effect_names_spec(),
            !found ==> idx == 0 && forall|j: int| 0 <= j < i ==> ns[j] != current@,
            found ==> idx < names@.len() && ns[idx as int] == current@ && forall|j: int| 0 <= j < idx ==> ns[j] != current@,
        decreases names@.len() - i,
    {
        assert(ns[i as int] == names@[i as int]@);
        if !found && str_eq(names[i], current) {
            idx = i;
            found = true;
        }
        i += 1;
    }
    proof {
        if found {
            assert(ns.contains(current@));
            ns.index_of_first_ensures(current@);
        } else {
            assert(!ns.contains(current@));
        }
        assert(ns.len() == 1);
    }
    let next = (idx + 1) % names.len();
    assert(ns[next as int] == names@[next as int]@);
    names[next]
}

/// The effect of the given name, or `None` for an unknown name.
pub fn create_effect(
    name: &str,
    width: u16,
    height: u16,
    char_pool: CharacterPool,
    palette: Palette,
    speed: u32,
    density: u32,
) -> (r: Option<ClassicRain>)
    requires
        char_pool.wf(),
    ensures
        r.is_some() <==> effect_names_spec().contains(name@),
        r matches Some(e) ==> e.field().wf() && e.field()@.width == width && e.field()@.height == height
            && e.field()@.pool == char_pool@ && e.field()@.palette == palette,
{
    proof {
        assert(effect_names_spec()[0] == "classic"@);
    }
    if str_eq(name, "classic") {
        Some(ClassicRain::with_config(width, height, char_pool, palette, speed, density))
    } else {
        proof {
            if effect_names_spec().contains(name@) {
                let j = choose|j: int| 0 <= j < 1 && effect_names_spec()[j] == name@;
                assert(j == 0);
            }
        }
        None
    }
}

} // verus!
