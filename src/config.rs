//! Runtime configuration: each setting taken from the command line, else
//! from the chosen preset, else from the configuration file's defaults,
//! else a built-in default; and a random configuration.

use vstd::prelude::*;

use crate::chars::{charset_names, charset_names_spec};
use crate::effects::{effect_names, effect_names_spec};
use crate::palette::{palette_names, palette_names_spec};
use crate::random::{random_below, random_ratio};

verus! {

/// One source of settings, any of which may be absent. Multipliers and the
/// CRT intensity are in thousandths.
pub struct ConfigLayer {
    pub effect: Option<String>,
    pub speed: Option<u32>,
    pub density: Option<u32>,
    pub color: Option<String>,
    pub charset: Option<String>,
    pub fps: Option<u32>,
    pub crt: Option<bool>,
    pub crt_intensity: Option<u32>,
}

impl Default for ConfigLayer {
    /// A layer with no settings.
    fn default() -> (r: ConfigLayer)
        ensures
            r.effect.is_none() && r.speed.is_none() && r.density.is_none() && r.color.is_none(),
            r.charset.is_none() && r.fps.is_none() && r.crt.is_none() && r.crt_intensity.is_none(),
    {
        ConfigLayer {
            effect: None,
            speed: None,
            density: None,
            color: None,
            charset: None,
            fps: None,
            crt: None,
            crt_intensity: None,
        }
    }
}

/// The settings that the effects and the main loop run with. Multipliers
/// and the CRT intensity are in thousandths; the auto-cycle interval is in
/// microseconds.
pub struct Config {
    pub effect_name: String,
    pub speed_multiplier: u32,
    pub density_multiplier: u32,
    pub palette_name: String,
    pub charset_name: String,
    pub target_fps: u32,
    pub auto_cycle_us: Option<u64>,
    pub forward: bool,
    pub crt_enabled: bool,
    pub crt_intensity: u32,
}

/// The first of three optional texts that is there, else `fallback`.
pub open spec fn first_text(a: Option<String>, b: Option<String>, c: Option<String>, fallback: Seq<char>) -> Seq<char> {
    match a {
        Some(s) => s@,
        None => match b {
            Some(s) => s@,
            None => match c {
                Some(s) => s@,
                None => fallback,
            },
        },
    }
}

/// The first of three optional numbers that is there, else `fallback`.
pub open spec fn first_num(a: Option<u32>, b: Option<u32>, c: Option<u32>, fallback: u32) -> u32 {
    match a {
        Some(v) => v,
        None => match b {
            Some(v) => v,
            None => match c {
                Some(v) => v,
                None => fallback,
            },
        },
    }
}

/// `v` clamped to `[lo, hi]`.
pub open spec fn clamped(v: u32, lo: u32, hi: u32) -> u32 {
    if v < lo {
        lo
    } else if v > hi {
        hi
    } else {
        v
    }
}

/// A field of the preset, if there is a preset.
pub open spec fn preset_text(preset: Option<&ConfigLayer>, f: spec_fn(ConfigLayer) -> Option<String>) -> Option<String> {
    match preset {
        Some(p) => f(*p),
        None => None,
    }
}

/// A numeric field of the preset, if there is a preset.
pub open spec fn preset_num(preset: Option<&ConfigLayer>, f: spec_fn(ConfigLayer) -> Option<u32>) -> Option<u32> {
    match preset {
        Some(p) => f(*p),
        None => None,
    }
}

fn choose_text(a: &Option<String>, b: &Option<String>, c: &Option<String>, fallback: &str) -> (r: String)
    ensures
        r@ == first_text(*a, *b, *c, fallback@),
{
    match a {
        Some(s) => s.clone(),
        None => match b {
            Some(s) => s.clone(),
            None => match c {
                Some(s) => s.clone(),
                None => fallback.to_owned(),
            },
        },
    }
}

fn choose_num(a: Option<u32>, b: Option<u32>, c: Option<u32>, fallback: u32, lo: u32, hi: u32) -> (r: u32)
    ensures
        r == clamped(first_num(a, b, c, fallback), lo, hi),
{
    let v = match a {
        Some(v) => v,
        None => match b {
            Some(v) => v,
            None => match c {
                Some(v) => v,
                None => fallback,
            },
        },
    };
    if v < lo {
        lo
    } else if v > hi {
        hi
    } else {
        v
    }
}

impl Config {
    /// Resolves every setting from the command line (`cli`, its CRT switch
    /// `cli_crt`, its auto-cycle interval `timer_us` and its `forward` flag),
    /// the chosen preset and the configuration file's defaults, in that
    /// order of precedence. Multipliers are clamped to `[100, 10000]`, the
    /// frame rate to `[10, 120]`, the CRT intensity to `[0, 1000]`, the
    /// auto-cycle interval to at least a second; the CRT is on when any
    /// source turns it on.
    pub fn resolve(
        cli: &ConfigLayer,
        cli_crt: bool,
        timer_us: Option<u64>,
        forward: bool,
        preset: Option<&ConfigLayer>,
        defaults: &ConfigLayer,
    ) -> (r: Config)
        ensures
            r.effect_name@ == first_text(
                cli.effect,
                preset_text(preset, |p: ConfigLayer| p.effect),
                defaults.effect,
                "classic"@,
            ),
            r.speed_multiplier == clamped(
                first_num(cli.speed, preset_num(preset, |p: ConfigLayer| p.speed), defaults.speed, 1000),
                100,
                10000,
            ),
            r.density_multiplier == clamped(
                first_num(cli.density, preset_num(preset, |p: ConfigLayer| p.density), defaults.density, 1000),
                100,
                10000,
            ),
            r.palette_name@ == first_text(
                cli.color,
                preset_text(preset, |p: ConfigLayer| p.color),
                defaults.color,
                "classic"@,
            ),
            r.charset_name@ == first_text(
                cli.charset,
                preset_text(preset, |p: ConfigLayer| p.charset),
                defaults.charset,
                "matrix"@,
            ),
            r.target_fps == clamped(
                first_num(cli.fps, preset_num(preset, |p: ConfigLayer| p.fps), defaults.fps, 30),
                10,
                120,
            ),
            r.auto_cycle_us == match timer_us {
                Some(t) => Some(if t < 1_000_000 { 1_000_000 } else { t }),
                None => None,
            },
            r.forward == forward,
            r.crt_enabled == (cli_crt || (preset matches Some(p) && p.crt == Some(true)) || defaults.crt == Some(
                true,
            )),
            r.crt_intensity == clamped(
                first_num(
                    cli.crt_intensity,
                    preset_num(preset, |p: ConfigLayer| p.crt_intensity),
                    defaults.crt_intensity,
                    700,
                ),
                0,
                1000,
            ),
    {
        let none_text: Option<String> = None;
        let (p_effect, p_color, p_charset) = match preset {
            Some(p) => (&p.effect, &p.color, &p.charset),
            None => (&none_text, &none_text, &none_text),
        };
        let (p_speed, p_density, p_fps, p_crt, p_intensity) = match preset {
            Some(p) => (p.speed, p.density, p.fps, p.crt, p.crt_intensity),
            None => (None, None, None, None, None),
        };
        let crt_enabled = cli_crt || (match p_crt {
            Some(b) => b,
            None => false,
        }) || (match defaults.crt {
            Some(b) => b,
            None => false,
        });
        Config {
            effect_name: choose_text(&cli.effect, p_effect, &defaults.effect, "classic"),
            speed_multiplier: choose_num(cli.speed, p_speed, defaults.speed, 1000, 100, 10000),
            density_multiplier: choose_num(cli.density, p_density, defaults.density, 1000, 100, 10000),
            palette_name: choose_text(&cli.color, p_color, &defaults.color, "classic"),
            charset_name: choose_text(&cli.charset, p_charset, &defaults.charset, "matrix"),
            target_fps: choose_num(cli.fps, p_fps, defaults.fps, 30, 10, 120),
            auto_cycle_us: match timer_us {
                Some(t) => Some(
                    if t < 1_000_000 {
                        1_000_000
                    } else {
                        t
                    },
                ),
                None => None,
            },
            forward,
            crt_enabled,
            crt_intensity: choose_num(cli.crt_intensity, p_intensity, defaults.crt_intensity, 700, 0, 1000),
        }
    }

    /// A random configuration: a random effect, palette and glyph set, a
    /// speed in `[500, 2500)` and a density in `[300, 2000)` thousandths, the
    /// CRT filter on with chance 7%, at 30 frames per second.
    pub fn randomized(rng: &mut rand::rngs::StdRng) -> (r: Config)
        ensures
            effect_names_spec().contains(r.effect_name@),
            palette_names_spec().contains(r.palette_name@),
            charset_names_spec().contains(r.charset_name@),
            500 <= r.speed_multiplier < 2500,
            300 <= r.density_multiplier < 2000,
            r.target_fps == 30,
            r.auto_cycle_us.is_none(),
            !r.forward,
            r.crt_intensity == 700,
    {
        let effects = effect_names();
        let palettes = palette_names();
        let charsets = charset_names();
        proof {
            assert(effects@.map_values(|s: &'static str| s@).len() == effects@.len());
            assert(palettes@.map_values(|s: &'static str| s@).len() == palettes@.len());
            assert(charsets@.map_values(|s: &'static str| s@).len() == charsets@.len());
            assert(effect_names_spec().len() > 0);
            assert(charset_names_spec().len() > 0);
            assert(palette_names_spec().len() >= crate::palette::hand_tuned_spec().len());
        }
        let e = random_below(rng, effects.len() as u64) as usize;
        let speed = 500 + random_below(rng, 2000) as u32;
        let density = 300 + random_below(rng, 1700) as u32;
        let p = random_below(rng, palettes.len() as u64) as usize;
        let c = random_below(rng, charsets.len() as u64) as usize;
        let crt_enabled = random_ratio(rng, 70, 1000);
        proof {
            assert(effect_names_spec()[e as int] == effects@[e as int]@);
            assert(palette_names_spec()[p as int] == palettes@[p as int]@);
            assert(charset_names_spec()[c as int] == charsets@[c as int]@);
        }
        Config {
            effect_name: effects[e].to_owned(),
            speed_multiplier: speed,
            density_multiplier: density,
            palette_name: palettes[p].to_owned(),
            charset_name: charsets[c].to_owned(),
            target_fps: 30,
            auto_cycle_us: None,
            forward: false,
            crt_enabled,
            crt_intensity: 700,
        }
    }
}

} // verus!
