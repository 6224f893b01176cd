//! Terminal colors and the color arithmetic that the passes share: linear
//! interpolation, brightness scaling and the four-stop trail gradient.

use vstd::prelude::*;

verus! {

/// The scale of every fraction in this crate: `ONE` thousandths is one.
pub const ONE: u32 = 1000;

/// A terminal color: "no override" (`Reset`), one of the sixteen named
/// colors, an entry of the 256-color table, or a true color.
#[derive(Clone, Copy, Debug, PartialEq, Eq, Structural)]
pub enum Color {
    Reset,
    Black,
    DarkGrey,
    Red,
    DarkRed,
    Green,
    DarkGreen,
    Yellow,
    DarkYellow,
    Blue,
    DarkBlue,
    Magenta,
    DarkMagenta,
    Cyan,
    DarkCyan,
    White,
    Grey,
    Rgb { r: u8, g: u8, b: u8 },
    AnsiValue(u8),
}

/// The true-color channels of `c`; black for every other kind of color.
pub open spec fn rgb_of(c: Color) -> (u8, u8, u8) {
    match c {
        Color::Rgb { r, g, b } => (r, g, b),
        _ => (0u8, 0u8, 0u8),
    }
}

/// The brightness of a color: its largest channel.
pub open spec fn brightness_of(c: Color) -> u8 {
    let (r, g, b) = rgb_of(c);
    if r >= g && r >= b {
        r
    } else if g >= b {
        g
    } else {
        b
    }
}

/// `t` clamped to `[0, ONE]`.
pub open spec fn clamp_unit(t: int) -> int {
    if t < 0 {
        0
    } else if t > ONE {
        ONE as int
    } else {
        t
    }
}

/// The channel `t` of the way from `a` to `b`, rounded half up.
pub open spec fn lerp_channel(a: u8, b: u8, t: int) -> int {
    (a * (ONE - t) + b * t + ONE / 2) / (ONE as int)
}

/// The color `t` thousandths of the way from `from` to `to`, with `t`
/// clamped to `[0, ONE]`; colors without channels count as black.
pub open spec fn lerp_spec(from: Color, to: Color, t: int) -> Color {
    let u = clamp_unit(t);
    let (r1, g1, b1) = rgb_of(from);
    let (r2, g2, b2) = rgb_of(to);
    Color::Rgb {
        r: lerp_channel(r1, r2, u) as u8,
        g: lerp_channel(g1, g2, u) as u8,
        b: lerp_channel(b1, b2, u) as u8,
    }
}

/// The channel `v` scaled by `factor` thousandths, rounded half up, at most 255.
pub open spec fn scale_channel(v: u8, factor: int) -> u8 {
    let s = (v * factor + ONE / 2) / (ONE as int);
    if s > 255 {
        255u8
    } else {
        s as u8
    }
}

/// A true color with each channel scaled by `factor` thousandths; any other
/// color is left as it is.
pub open spec fn scale_spec(c: Color, factor: int) -> Color {
    match c {
        Color::Rgb { r, g, b } => Color::Rgb {
            r: scale_channel(r, factor),
            g: scale_channel(g, factor),
            b: scale_channel(b, factor),
        },
        _ => c,
    }
}

/// The four-stop trail gradient at `position` thousandths (clamped to
/// `[0, ONE]`): head to body-bright over the first 150, body-bright to
/// body-mid up to 500, body-mid to tail over the rest.
pub open spec fn trail_spec(head: Color, bright: Color, mid: Color, tail: Color, position: int) -> Color {
    let p = clamp_unit(position);
    if p < 150 {
        lerp_spec(head, bright, p * 1000 / 150)
    } else if p < 500 {
        lerp_spec(bright, mid, (p - 150) * 1000 / 350)
    } else {
        lerp_spec(mid, tail, (p - 500) * 2)
    }
}

/// Whether two colors are the same color.
pub fn color_eq(a: Color, b: Color) -> (r: bool)
    ensures
        r == (a == b),
{
    match (a, b) {
        (Color::Rgb { r: r1, g: g1, b: b1 }, Color::Rgb { r: r2, g: g2, b: b2 }) => {
            r1 == r2 && g1 == g2 && b1 == b2
        },
        (Color::AnsiValue(x), Color::AnsiValue(y)) => x == y,
        _ => a == b,
    }
}

/// The channels of a true color; black for any other color.
pub fn color_to_rgb(c: Color) -> (r: (u8, u8, u8))
    ensures
        r == rgb_of(c),
{
    match c {
        Color::Rgb { r, g, b } => (r, g, b),
        _ => (0, 0, 0),
    }
}

/// The largest channel of a color (zero for a color without channels).
pub fn brightness(c: Color) -> (r: u8)
    ensures
        r == brightness_of(c),
{
    let (r, g, b) = color_to_rgb(c);
    if r >= g && r >= b {
        r
    } else if g >= b {
        g
    } else {
        b
    }
}

fn lerp_u8(a: u8, b: u8, t: u32) -> (r: u8)
    requires
        t <= ONE,
    ensures
        r == lerp_channel(a, b, t as int),
{
    let (x, y) = ((a as u32), (b as u32));
    assert(x * (1000 - t) <= 255 * (1000 - t) && y * t <= 255 * t && x * (1000 - t) + y * t
        <= 255 * 1000) by (nonlinear_arith)
        requires
            t <= 1000,
            x <= 255,
            y <= 255,
    ;
    let num: u32 = x * (ONE - t) + y * t + ONE / 2;
    (num / ONE) as u8
}

/// Linear interpolation between two colors: `t` thousandths of the way from
/// `from` to `to`, clamped to `[0, ONE]`. Colors without channels count as
/// black, and the result is always a true color.
pub fn lerp_color(from: Color, to: Color, t: i32) -> (r: Color)
    ensures
        r == lerp_spec(from, to, t as int),
{
    let u: u32 = if t < 0 {
        0
    } else if t > 1000 {
        ONE
    } else {
        t as u32
    };
    let (r1, g1, b1) = color_to_rgb(from);
    let (r2, g2, b2) = color_to_rgb(to);
    Color::Rgb { r: lerp_u8(r1, r2, u), g: lerp_u8(g1, g2, u), b: lerp_u8(b1, b2, u) }
}

fn scale_u8(v: u8, factor: u32) -> (r: u8)
    ensures
        r == scale_channel(v, factor as int),
{
    let (x, f) = ((v as u64), (factor as u64));
    assert(x * f <= 255 * 0xffff_ffff) by (nonlinear_arith)
        requires
            x <= 255,
            f <= 0xffff_ffff,
    ;
    let s: u64 = (x * f + 500) / 1000;
    if s > 255 {
        255
    } else {
        s as u8
    }
}

/// Scales the channels of a true color by `factor` thousandths, rounding half
/// up and saturating at 255; any other color passes through unchanged.
pub fn scale_color(c: Color, factor: u32) -> (r: Color)
    ensures
        r == scale_spec(c, factor as int),
{
    match c {
        Color::Rgb { r, g, b } => Color::Rgb {
            r: scale_u8(r, factor),
            g: scale_u8(g, factor),
            b: scale_u8(b, factor),
        },
        _ => c,
    }
}

/// The trail gradient at `position` thousandths along the trail.
pub fn trail_color(head: Color, body_bright: Color, body_mid: Color, tail: Color, position: i32) -> (r: Color)
    ensures
        r == trail_spec(head, body_bright, body_mid, tail, position as int),
{
    let p: i32 = if position < 0 {
        0
    } else if position > 1000 {
        1000
    } else {
        position
    };
    if p < 150 {
        lerp_color(head, body_bright, p * 1000 / 150)
    } else if p < 500 {
        lerp_color(body_bright, body_mid, (p - 150) * 1000 / 350)
    } else {
        lerp_color(body_mid, tail, (p - 500) * 2)
    }
}

} // verus!
