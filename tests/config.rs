use digital_rain::chars::charset_names;
use digital_rain::config::{Config, ConfigLayer};
use digital_rain::effects::effect_names;
use digital_rain::palette::palette_names;
use rand::rngs::StdRng;
use rand::SeedableRng;

// Multipliers and intensities are thousandths: 1000 is 1.0.

#[test]
fn resolve_uses_hardcoded_defaults_when_nothing_set() {
    let cli = ConfigLayer::default();
    let defaults = ConfigLayer::default();
    let config = Config::resolve(&cli, false, None, false, None, &defaults);

    assert_eq!(config.effect_name, "classic");
    assert_eq!(config.speed_multiplier, 1000);
    assert_eq!(config.density_multiplier, 1000);
    assert_eq!(config.palette_name, "classic");
    assert_eq!(config.charset_name, "matrix");
    assert_eq!(config.target_fps, 30);
    assert!(!config.crt_enabled);
    assert_eq!(config.crt_intensity, 700);
}

#[test]
fn resolve_cli_overrides_defaults() {
    let cli = ConfigLayer {
        effect: Some("fire".to_string()),
        speed: Some(2500),
        color: Some("red".to_string()),
        ..Default::default()
    };
    let defaults = ConfigLayer {
        effect: Some("ocean".to_string()),
        speed: Some(500),
        ..Default::default()
    };

    let config = Config::resolve(&cli, false, None, false, None, &defaults);
    assert_eq!(config.effect_name, "fire");
    assert_eq!(config.speed_multiplier, 2500);
    assert_eq!(config.palette_name, "red");
}

#[test]
fn resolve_preset_overrides_defaults() {
    let cli = ConfigLayer::default();
    let defaults = ConfigLayer { effect: Some("classic".to_string()), ..Default::default() };
    let cyber = ConfigLayer {
        effect: Some("glitch".to_string()),
        speed: Some(1500),
        color: Some("purple".to_string()),
        ..Default::default()
    };

    let config = Config::resolve(&cli, false, None, false, Some(&cyber), &defaults);
    assert_eq!(config.effect_name, "glitch");
    assert_eq!(config.speed_multiplier, 1500);
    assert_eq!(config.palette_name, "purple");
}

#[test]
fn resolve_cli_overrides_preset() {
    let cli = ConfigLayer { speed: Some(3000), ..Default::default() };
    let cyber = ConfigLayer {
        speed: Some(1500),
        effect: Some("glitch".to_string()),
        ..Default::default()
    };

    let config = Config::resolve(&cli, false, None, false, Some(&cyber), &ConfigLayer::default());
    assert_eq!(config.speed_multiplier, 3000);
    assert_eq!(config.effect_name, "glitch");
}

#[test]
fn resolve_clamps_values() {
    let cli = ConfigLayer { speed: Some(100_000), fps: Some(1), ..Default::default() };
    let config = Config::resolve(&cli, false, None, false, None, &ConfigLayer::default());

    assert_eq!(config.speed_multiplier, 10_000);
    assert_eq!(config.target_fps, 10);
}

#[test]
fn resolve_turns_crt_on_from_any_source_and_floors_the_timer() {
    let preset = ConfigLayer { crt: Some(true), crt_intensity: Some(4000), ..Default::default() };
    let config = Config::resolve(&ConfigLayer::default(), false, Some(200_000), true, Some(&preset), &ConfigLayer::default());
    assert!(config.crt_enabled);
    assert_eq!(config.crt_intensity, 1000);
    assert_eq!(config.auto_cycle_us, Some(1_000_000));
    assert!(config.forward);
    let off = Config::resolve(&ConfigLayer::default(), false, Some(30_000_000), false, None, &ConfigLayer::default());
    assert!(!off.crt_enabled);
    assert_eq!(off.auto_cycle_us, Some(30_000_000));
}

#[test]
fn randomized_picks_known_names_and_ranges() {
    let mut rng = StdRng::seed_from_u64(21);
    for _ in 0..50 {
        let c = Config::randomized(&mut rng);
        assert!(effect_names().contains(&c.effect_name.as_str()));
        assert!(palette_names().contains(&c.palette_name.as_str()));
        assert!(charset_names().contains(&c.charset_name.as_str()));
        assert!((500..2500).contains(&c.speed_multiplier));
        assert!((300..2000).contains(&c.density_multiplier));
        assert_eq!(c.target_fps, 30);
    }
}
