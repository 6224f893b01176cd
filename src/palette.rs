//! Color palettes: the six colors a rain column is drawn with, the
//! hand-tuned palettes, and the list of every palette name.

use vstd::prelude::*;

use crate::color::Color;
use crate::css_colors::{char_lowers_to, css_color_names, css_table, lowers_to, name_matches};

verus! {

/// The colors of a rain effect.
#[derive(Clone, Copy, Debug, PartialEq, Eq, Structural)]
pub struct Palette {
    /// The leading glyph of a column.
    pub head: Color,
    /// The body at full brightness.
    pub body_bright: Color,
    /// The body at medium brightness.
    pub body_mid: Color,
    /// The dimmest end of the trail.
    pub tail: Color,
    /// Highlighted glyphs.
    pub highlight: Color,
    /// The background behind the glyphs.
    pub background: Color,
}

/// The hand-tuned palette names, in display order.
pub open spec fn hand_tuned_spec() -> Seq<Seq<char>> {
    seq!["classic"@, "gold"@, "cyan"@, "red"@, "silver"@, "purple"@, "fire"@, "ocean"@, "synthwave"@]
}

/// The names of the CSS colors.
pub open spec fn css_names_spec() -> Seq<Seq<char>> {
    css_table().map_values(|e: (Seq<char>, u8, u8, u8)| e.0)
}

/// A name that no hand-tuned palette has.
pub open spec fn not_hand_tuned() -> spec_fn(Seq<char>) -> bool {
    |n: Seq<char>| !hand_tuned_spec().contains(n)
}

/// Every palette name: the hand-tuned ones, then each CSS color name that is
/// not also a hand-tuned one.
pub open spec fn palette_names_spec() -> Seq<Seq<char>> {
    hand_tuned_spec() + css_names_spec().filter(not_hand_tuned())
}

proof fn lemma_first_chars_match(q: Seq<char>, t1: Seq<char>, t2: Seq<char>)
    requires
        lowers_to(q, t1),
        lowers_to(q, t2),
        t1.len() > 0,
    ensures
        char_lowers_to(q[0], t1[0]),
        char_lowers_to(q[0], t2[0]),
{
    assert(char_lowers_to(q[0], t1[0]));
    assert(char_lowers_to(q[0], t2[0]));
}

/// Classic Matrix green phosphor palette.
pub open spec fn classic_palette() -> Palette {
    Palette {
        head: Color::Rgb { r: 220, g: 255, b: 220 },
        body_bright: Color::Rgb { r: 0, g: 230, b: 50 },
        body_mid: Color::Rgb { r: 0, g: 150, b: 30 },
        tail: Color::Rgb { r: 0, g: 60, b: 15 },
        highlight: Color::Rgb { r: 255, g: 215, b: 0 },
        background: Color::Reset,
    }
}

/// Gold/amber palette -- warm phosphor CRT feel.
pub open spec fn gold_palette() -> Palette {
    Palette {
        head: Color::Rgb { r: 255, g: 255, b: 200 },
        body_bright: Color::Rgb { r: 255, g: 200, b: 50 },
        body_mid: Color::Rgb { r: 180, g: 130, b: 20 },
        tail: Color::Rgb { r: 80, g: 50, b: 5 },
        highlight: Color::Rgb { r: 255, g: 255, b: 255 },
        background: Color::Reset,
    }
}

/// Cyan/ice palette -- cold digital feel.
pub open spec fn cyan_palette() -> Palette {
    Palette {
        head: Color::Rgb { r: 220, g: 255, b: 255 },
        body_bright: Color::Rgb { r: 0, g: 200, b: 230 },
        body_mid: Color::Rgb { r: 0, g: 120, b: 160 },
        tail: Color::Rgb { r: 0, g: 40, b: 60 },
        highlight: Color::Rgb { r: 180, g: 255, b: 255 },
        background: Color::Reset,
    }
}

/// Red/crimson palette -- danger/alert feel.
pub open spec fn red_palette() -> Palette {
    Palette {
        head: Color::Rgb { r: 255, g: 220, b: 220 },
        body_bright: Color::Rgb { r: 230, g: 30, b: 30 },
        body_mid: Color::Rgb { r: 150, g: 15, b: 15 },
        tail: Color::Rgb { r: 60, g: 5, b: 5 },
        highlight: Color::Rgb { r: 255, g: 180, b: 50 },
        background: Color::Reset,
    }
}

/// Silver palette -- white/grey on black (formerly "monochrome").
pub open spec fn silver_palette() -> Palette {
    Palette {
        head: Color::Rgb { r: 255, g: 255, b: 255 },
        body_bright: Color::Rgb { r: 180, g: 180, b: 180 },
        body_mid: Color::Rgb { r: 100, g: 100, b: 100 },
        tail: Color::Rgb { r: 40, g: 40, b: 40 },
        highlight: Color::Rgb { r: 255, g: 255, b: 255 },
        background: Color::Reset,
    }
}

/// Purple/violet palette -- synthwave aesthetic.
pub open spec fn purple_palette() -> Palette {
    Palette {
        head: Color::Rgb { r: 240, g: 220, b: 255 },
        body_bright: Color::Rgb { r: 180, g: 50, b: 230 },
        body_mid: Color::Rgb { r: 110, g: 20, b: 160 },
        tail: Color::Rgb { r: 40, g: 5, b: 60 },
        highlight: Color::Rgb { r: 255, g: 100, b: 200 },
        background: Color::Reset,
    }
}

/// Fire palette -- red/orange/yellow heat gradient.
pub open spec fn fire_palette() -> Palette {
    Palette {
        head: Color::Rgb { r: 255, g: 255, b: 200 },
        body_bright: Color::Rgb { r: 255, g: 120, b: 0 },
        body_mid: Color::Rgb { r: 200, g: 40, b: 0 },
        tail: Color::Rgb { r: 80, g: 10, b: 0 },
        highlight: Color::Rgb { r: 255, g: 255, b: 100 },
        background: Color::Reset,
    }
}

/// Ocean palette -- deep blue/teal aquatic feel.
pub open spec fn ocean_palette() -> Palette {
    Palette {
        head: Color::Rgb { r: 200, g: 240, b: 255 },
        body_bright: Color::Rgb { r: 0, g: 120, b: 220 },
        body_mid: Color::Rgb { r: 0, g: 60, b: 140 },
        tail: Color::Rgb { r: 0, g: 20, b: 60 },
        highlight: Color::Rgb { r: 100, g: 255, b: 220 },
        background: Color::Reset,
    }
}

/// Synthwave palette -- pink/purple/cyan retro neon.
pub open spec fn synthwave_palette() -> Palette {
    Palette {
        head: Color::Rgb { r: 255, g: 220, b: 255 },
        body_bright: Color::Rgb { r: 255, g: 50, b: 150 },
        body_mid: Color::Rgb { r: 160, g: 20, b: 100 },
        tail: Color::Rgb { r: 60, g: 5, b: 40 },
        highlight: Color::Rgb { r: 0, g: 255, b: 255 },
        background: Color::Reset,
    }
}
/// The hand-tuned palette names, in display order.
pub fn hand_tuned_names() -> (r: Vec<&'static str>)
    ensures
        r@.map_values(|s: &'static str| s@) == hand_tuned_spec(),
{
    let r = vec!["classic", "gold", "cyan", "red", "silver", "purple", "fire", "ocean", "synthwave"];
    assert(r@.map_values(|s: &'static str| s@) =~= hand_tuned_spec());
    r
}

fn is_hand_tuned(hand: &Vec<&'static str>, name: &str) -> (r: bool)
    requires
        hand@.map_values(|s: &'static str| s@) == hand_tuned_spec(),
    ensures
        r == hand_tuned_spec().contains(name@),
{
    let mut i: usize = 0;
    while i < hand.len()
        invariant
            i <= hand@.len(),
            hand@.map_values(|s: &'static str| s@) == hand_tuned_spec(),
            forall|j: int| 0 <= j < i ==> hand_tuned_spec()[j] != name@,
        decreases hand@.len() - i,
    {
        assert(hand_tuned_spec()[i as int] == hand@[i as int]@);
        if crate::text::str_eq(hand[i], name) {
            assert(hand_tuned_spec()[i as int] == name@);
            return true;
        }
        i += 1;
    }
    false
}

/// Every palette name: the hand-tuned ones first, then the CSS color names
/// that are not hand-tuned, in table order.
pub fn palette_names() -> (r: Vec<&'static str>)
    ensures
        r@.map_values(|s: &'static str| s@) == palette_names_spec(),
{
    let hand = hand_tuned_names();
    let css = css_color_names();
    let ghost cs = css_names_spec();
    assert(cs.len() == css@.len());
    let mut names = hand_tuned_names();
    let mut i: usize = 0;
    proof {
        reveal(Seq::filter);
    }
    assert(cs.take(0).filter(not_hand_tuned()) =~= Seq::empty());
    assert(hand_tuned_spec() + Seq::<Seq<char>>::empty() =~= hand_tuned_spec());
    while i < css.len()
        invariant
            i <= css@.len(),
            cs == css_names_spec(),
            cs.len() == css@.len(),
            forall|j: int| 0 <= j < css@.len() ==> #[trigger] css@[j]@ == css_table()[j].0,
            hand@.map_values(|s: &'static str| s@) == hand_tuned_spec(),
            names@.map_values(|s: &'static str| s@) == hand_tuned_spec() + cs.take(i as int).filter(
                not_hand_tuned(),
            ),
        decreases css@.len() - i,
    {
        let name = css[i];
        assert(cs[i as int] == name@);
        assert(cs.take(i + 1).drop_last() =~= cs.take(i as int));
        assert(cs.take(i + 1).last() == cs[i as int]);
        proof {
            reveal(Seq::filter);
        }
        let ghost before = names@;
        if !is_hand_tuned(&hand, name) {
            names.push(name);
            assert(names@.map_values(|s: &'static str| s@) =~= before.map_values(|s: &'static str| s@).push(name@));
        }
        i += 1;
    }
    assert(cs.take(cs.len() as int) =~= cs);
    names
}

/// The hand-tuned palette of the given name, ASCII case ignored, with
/// "monochrome" for silver; `None` for any other name.
pub fn hand_tuned_palette(name: &str) -> (r: Option<Palette>)
    ensures
        lowers_to(name@, "classic"@) ==> r == Some(classic_palette()),
        lowers_to(name@, "gold"@) ==> r == Some(gold_palette()),
        lowers_to(name@, "cyan"@) ==> r == Some(cyan_palette()),
        lowers_to(name@, "red"@) ==> r == Some(red_palette()),
        lowers_to(name@, "silver"@) ==> r == Some(silver_palette()),
        lowers_to(name@, "purple"@) ==> r == Some(purple_palette()),
        lowers_to(name@, "fire"@) ==> r == Some(fire_palette()),
        lowers_to(name@, "ocean"@) ==> r == Some(ocean_palette()),
        lowers_to(name@, "synthwave"@) ==> r == Some(synthwave_palette()),
        lowers_to(name@, "monochrome"@) ==> r == Some(silver_palette()),
        r.is_none() <==> !(lowers_to(name@, "classic"@)
            || lowers_to(name@, "gold"@)
            || lowers_to(name@, "cyan"@)
            || lowers_to(name@, "red"@)
            || lowers_to(name@, "silver"@)
            || lowers_to(name@, "purple"@)
            || lowers_to(name@, "fire"@)
            || lowers_to(name@, "ocean"@)
            || lowers_to(name@, "synthwave"@)
            || lowers_to(name@, "monochrome"@)),
{
    proof {
        reveal_strlit("classic");
        reveal_strlit("gold");
        reveal_strlit("cyan");
        reveal_strlit("red");
        reveal_strlit("silver");
        reveal_strlit("purple");
        reveal_strlit("fire");
        reveal_strlit("ocean");
        reveal_strlit("synthwave");
        reveal_strlit("monochrome");
        assert("classic"@.len() == 7 && "classic"@[0] == 'c');
        assert("gold"@.len() == 4 && "gold"@[0] == 'g');
        assert("cyan"@.len() == 4 && "cyan"@[0] == 'c');
        assert("red"@.len() == 3 && "red"@[0] == 'r');
        assert("silver"@.len() == 6 && "silver"@[0] == 's');
        assert("purple"@.len() == 6 && "purple"@[0] == 'p');
        assert("fire"@.len() == 4 && "fire"@[0] == 'f');
        assert("ocean"@.len() == 5 && "ocean"@[0] == 'o');
        assert("synthwave"@.len() == 9 && "synthwave"@[0] == 's');
        assert("monochrome"@.len() == 10 && "monochrome"@[0] == 'm');
        if lowers_to(name@, "gold"@) && lowers_to(name@, "cyan"@) {
            lemma_first_chars_match(name@, "gold"@, "cyan"@);
        }
        if lowers_to(name@, "gold"@) && lowers_to(name@, "fire"@) {
            lemma_first_chars_match(name@, "gold"@, "fire"@);
        }
        if lowers_to(name@, "cyan"@) && lowers_to(name@, "fire"@) {
            lemma_first_chars_match(name@, "cyan"@, "fire"@);
        }
        if lowers_to(name@, "silver"@) && lowers_to(name@, "purple"@) {
            lemma_first_chars_match(name@, "silver"@, "purple"@);
        }
    }
    if name_matches(name, "classic") {
        return Some(Palette::classic());
    }
    if name_matches(name, "gold") {
        return Some(Palette::gold());
    }
    if name_matches(name, "cyan") {
        return Some(Palette::cyan());
    }
    if name_matches(name, "red") {
        return Some(Palette::red());
    }
    if name_matches(name, "silver") {
        return Some(Palette::silver());
    }
    if name_matches(name, "purple") {
        return Some(Palette::purple());
    }
    if name_matches(name, "fire") {
        return Some(Palette::fire());
    }
    if name_matches(name, "ocean") {
        return Some(Palette::ocean());
    }
    if name_matches(name, "synthwave") {
        return Some(Palette::synthwave());
    }
    if name_matches(name, "monochrome") {
        return Some(Palette::silver());
    }
    None
}

impl Palette {
    /// Classic Matrix green phosphor palette.
    pub fn classic() -> (r: Palette)
        ensures
            r == classic_palette(),
    {
        Palette {
            head: Color::Rgb { r: 220, g: 255, b: 220 },
            body_bright: Color::Rgb { r: 0, g: 230, b: 50 },
            body_mid: Color::Rgb { r: 0, g: 150, b: 30 },
            tail: Color::Rgb { r: 0, g: 60, b: 15 },
            highlight: Color::Rgb { r: 255, g: 215, b: 0 },
            background: Color::Reset,
        }
    }

    /// Gold/amber palette -- warm phosphor CRT feel.
    pub fn gold() -> (r: Palette)
        ensures
            r == gold_palette(),
    {
        Palette {
            head: Color::Rgb { r: 255, g: 255, b: 200 },
            body_bright: Color::Rgb { r: 255, g: 200, b: 50 },
            body_mid: Color::Rgb { r: 180, g: 130, b: 20 },
            tail: Color::Rgb { r: 80, g: 50, b: 5 },
            highlight: Color::Rgb { r: 255, g: 255, b: 255 },
            background: Color::Reset,
        }
    }

    /// Cyan/ice palette -- cold digital feel.
    pub fn cyan() -> (r: Palette)
        ensures
            r == cyan_palette(),
    {
        Palette {
            head: Color::Rgb { r: 220, g: 255, b: 255 },
            body_bright: Color::Rgb { r: 0, g: 200, b: 230 },
            body_mid: Color::Rgb { r: 0, g: 120, b: 160 },
            tail: Color::Rgb { r: 0, g: 40, b: 60 },
            highlight: Color::Rgb { r: 180, g: 255, b: 255 },
            background: Color::Reset,
        }
    }

    /// Red/crimson palette -- danger/alert feel.
    pub fn red() -> (r: Palette)
        ensures
            r == red_palette(),
    {
        Palette {
            head: Color::Rgb { r: 255, g: 220, b: 220 },
            body_bright: Color::Rgb { r: 230, g: 30, b: 30 },
            body_mid: Color::Rgb { r: 150, g: 15, b: 15 },
            tail: Color::Rgb { r: 60, g: 5, b: 5 },
            highlight: Color::Rgb { r: 255, g: 180, b: 50 },
            background: Color::Reset,
        }
    }

    /// Silver palette -- white/grey on black (formerly "monochrome").
    pub fn silver() -> (r: Palette)
        ensures
            r == silver_palette(),
    {
        Palette {
            head: Color::Rgb { r: 255, g: 255, b: 255 },
            body_bright: Color::Rgb { r: 180, g: 180, b: 180 },
            body_mid: Color::Rgb { r: 100, g: 100, b: 100 },
            tail: Color::Rgb { r: 40, g: 40, b: 40 },
            highlight: Color::Rgb { r: 255, g: 255, b: 255 },
            background: Color::Reset,
        }
    }

    /// Purple/violet palette -- synthwave aesthetic.
    pub fn purple() -> (r: Palette)
        ensures
            r == purple_palette(),
    {
        Palette {
            head: Color::Rgb { r: 240, g: 220, b: 255 },
            body_bright: Color::Rgb { r: 180, g: 50, b: 230 },
            body_mid: Color::Rgb { r: 110, g: 20, b: 160 },
            tail: Color::Rgb { r: 40, g: 5, b: 60 },
            highlight: Color::Rgb { r: 255, g: 100, b: 200 },
            background: Color::Reset,
        }
    }

    /// Fire palette -- red/orange/yellow heat gradient.
    pub fn fire() -> (r: Palette)
        ensures
            r == fire_palette(),
    {
        Palette {
            head: Color::Rgb { r: 255, g: 255, b: 200 },
            body_bright: Color::Rgb { r: 255, g: 120, b: 0 },
            body_mid: Color::Rgb { r: 200, g: 40, b: 0 },
            tail: Color::Rgb { r: 80, g: 10, b: 0 },
            highlight: Color::Rgb { r: 255, g: 255, b: 100 },
            background: Color::Reset,
        }
    }

    /// Ocean palette -- deep blue/teal aquatic feel.
    pub fn ocean() -> (r: Palette)
        ensures
            r == ocean_palette(),
    {
        Palette {
            head: Color::Rgb { r: 200, g: 240, b: 255 },
            body_bright: Color::Rgb { r: 0, g: 120, b: 220 },
            body_mid: Color::Rgb { r: 0, g: 60, b: 140 },
            tail: Color::Rgb { r: 0, g: 20, b: 60 },
            highlight: Color::Rgb { r: 100, g: 255, b: 220 },
            background: Color::Reset,
        }
    }

    /// Synthwave palette -- pink/purple/cyan retro neon.
    pub fn synthwave() -> (r: Palette)
        ensures
            r == synthwave_palette(),
    {
        Palette {
            head: Color::Rgb { r: 255, g: 220, b: 255 },
            body_bright: Color::Rgb { r: 255, g: 50, b: 150 },
            body_mid: Color::Rgb { r: 160, g: 20, b: 100 },
            tail: Color::Rgb { r: 60, g: 5, b: 40 },
            highlight: Color::Rgb { r: 0, g: 255, b: 255 },
            background: Color::Reset,
        }
    }
}

} // verus!
