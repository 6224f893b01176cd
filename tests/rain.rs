use digital_rain::buffer::ScreenBuffer;
use digital_rain::chars::CharacterPool;
use digital_rain::column::RainColumn;
use digital_rain::effects::{create_effect, effect_names, next_effect_name, ClassicRain, Effect};
use digital_rain::field::RainField;
use digital_rain::palette::Palette;
use rand::rngs::StdRng;
use rand::SeedableRng;

#[test]
fn column_falls_ten_rows_in_one_second_at_ten_rows_per_second() {
    let pool = CharacterPool::matrix();
    let mut rng = StdRng::seed_from_u64(1);
    let mut col = RainColumn::new(3, 20, 10_000, 0);
    for _ in 0..40 {
        col.update(25_000, 20, &pool, &mut rng);
    }
    assert_eq!(col.head_row(), 10);
    assert_eq!(col.trail.len(), 10);
    let rows: Vec<u16> = col.trail.iter().map(|e| e.0).collect();
    assert_eq!(rows, (0..10).collect::<Vec<u16>>());
    assert!(!col.is_fading());
}

#[test]
fn column_in_one_step_of_one_second() {
    let pool = CharacterPool::matrix();
    let mut rng = StdRng::seed_from_u64(2);
    let mut col = RainColumn::new(0, 20, 10_000, 0);
    col.update(1_000_000, 20, &pool, &mut rng);
    assert_eq!(col.head_row(), 10);
    assert_eq!(col.trail.len(), 10);
}

#[test]
fn column_trail_is_capped() {
    let pool = CharacterPool::binary();
    let mut rng = StdRng::seed_from_u64(3);
    let mut col = RainColumn::new(0, 4, 10_000, 0);
    col.update(1_000_000, 30, &pool, &mut rng);
    assert_eq!(col.trail.len(), 4);
    let rows: Vec<u16> = col.trail.iter().map(|e| e.0).collect();
    assert_eq!(rows, vec![6, 7, 8, 9]);
    assert!(col.trail.iter().all(|e| pool.contains(e.1)));
    assert!(col.highlight_positions.iter().all(|&p| p < col.trail.len()));
}

#[test]
fn column_above_surface_appends_nothing() {
    let pool = CharacterPool::digits();
    let mut rng = StdRng::seed_from_u64(4);
    let mut col = RainColumn::new(0, 10, 10_000, -5);
    col.update(300_000, 20, &pool, &mut rng);
    assert_eq!(col.head_row(), -2);
    assert_eq!(col.trail.len(), 0);
    col.update(300_000, 20, &pool, &mut rng);
    assert_eq!(col.head_row(), 1);
    let rows: Vec<u16> = col.trail.iter().map(|e| e.0).collect();
    assert_eq!(rows, vec![0]);
}

#[test]
fn column_drains_and_dies() {
    let pool = CharacterPool::digits();
    let mut rng = StdRng::seed_from_u64(5);
    let mut col = RainColumn::new(0, 10, 10_000, 0);
    col.update(500_000, 5, &pool, &mut rng);
    // rows 0..4 were appended, the head reached the bottom, one entry left the tail
    assert!(col.is_fading());
    assert_eq!(col.trail.len(), 4);
    for _ in 0..3 {
        col.update(0, 5, &pool, &mut rng);
        assert!(!col.is_dead(5));
    }
    col.update(0, 5, &pool, &mut rng);
    assert!(col.is_dead(5));
    for _ in 0..5 {
        col.update(200_000, 5, &pool, &mut rng);
        assert!(col.is_dead(5));
    }
}

#[test]
fn trail_never_exceeds_cap_over_many_ticks() {
    let pool = CharacterPool::matrix();
    let mut rng = StdRng::seed_from_u64(6);
    for seed in 0..20u64 {
        let mut col = RainColumn::spawn(1, 30, &mut rng);
        for k in 0..200 {
            col.update(10_000 + (seed * 997 + k) % 90_000, 30, &pool, &mut rng);
            assert!(col.trail.len() <= col.max_trail_len());
        }
    }
}

#[test]
fn spawn_picks_values_in_range() {
    let mut rng = StdRng::seed_from_u64(7);
    for _ in 0..100 {
        let col = RainColumn::spawn(4, 30, &mut rng);
        assert_eq!(col.x, 4);
        assert!(col.trail.is_empty());
        assert!((10..=30).contains(&col.max_trail_len()));
        assert!((-14..=0).contains(&col.head_row()));
        assert!(!col.is_fading());
    }
    let tiny = RainColumn::spawn(0, 1, &mut rng);
    assert_eq!(tiny.head_row(), 0);
    assert!(tiny.max_trail_len() <= 1);
}

#[test]
fn zero_height_surface_is_handled() {
    let pool = CharacterPool::matrix();
    let mut rng = StdRng::seed_from_u64(8);
    let mut col = RainColumn::spawn(0, 0, &mut rng);
    col.update(2_000_000, 0, &pool, &mut rng);
    assert!(col.is_dead(0));
}

#[test]
fn field_spawns_nothing_without_time() {
    let mut field = RainField::new(10, 20);
    let mut rng = StdRng::seed_from_u64(9);
    field.update(0, &mut rng);
    assert_eq!(field.column_count(), 0);
}

#[test]
fn field_spawns_everywhere_when_certain() {
    // 0.15 per second at density one: ten seconds makes a spawn certain
    let mut field = RainField::new(10, 20);
    let mut rng = StdRng::seed_from_u64(10);
    field.update(10_000_000, &mut rng);
    assert_eq!(field.column_count(), 10);
    // every screen column already has a growing column: nothing more spawns
    field.update(1, &mut rng);
    assert_eq!(field.column_count(), 10);
}

#[test]
fn field_multipliers_are_clamped() {
    let mut field = RainField::new(4, 4);
    field.set_speed(50_000);
    assert_eq!(field.speed(), 10_000);
    field.set_density(1);
    assert_eq!(field.density(), 100);
    field.set_speed(2500);
    assert_eq!(field.speed(), 2500);
}

#[test]
fn field_resize_drops_columns_outside() {
    let mut field = RainField::new(10, 20);
    let mut rng = StdRng::seed_from_u64(11);
    field.update(10_000_000, &mut rng);
    field.resize(4, 20);
    assert_eq!(field.column_count(), 4);
}

#[test]
fn field_renders_inside_the_buffer() {
    let mut field = RainField::new(8, 12);
    let mut rng = StdRng::seed_from_u64(12);
    field.update(10_000_000, &mut rng);
    for _ in 0..30 {
        field.update(50_000, &mut rng);
    }
    let mut buffer = ScreenBuffer::new(8, 12);
    field.render(&mut buffer);
    assert_eq!(buffer.width(), 8);
    assert!(buffer.cells().iter().any(|c| c.ch != ' '));
    let pool = CharacterPool::matrix();
    assert!(buffer.cells().iter().all(|c| c.ch == ' ' || pool.contains(c.ch)));
}

#[test]
fn classic_effect_runs() {
    let mut effect = ClassicRain::new(6, 6);
    assert_eq!(effect.name(), "classic");
    let mut rng = StdRng::seed_from_u64(13);
    effect.update(10_000_000, &mut rng);
    effect.set_speed(2000);
    assert_eq!(effect.speed(), 2000);
    effect.set_density(3000);
    assert_eq!(effect.density(), 3000);
    let mut buffer = ScreenBuffer::new(6, 6);
    effect.render(&mut buffer);
    effect.resize(3, 3);
}

#[test]
fn effect_registry() {
    assert_eq!(effect_names(), vec!["classic"]);
    assert_eq!(next_effect_name("classic"), "classic");
    assert_eq!(next_effect_name("unknown"), "classic");
    assert!(create_effect("classic", 5, 5, CharacterPool::binary(), Palette::red(), 1000, 1000).is_some());
    assert!(create_effect("fire", 5, 5, CharacterPool::binary(), Palette::red(), 1000, 1000).is_none());
}

#[test]
fn dead_column_stays_dead_on_a_taller_surface() {
    let pool = CharacterPool::matrix();
    let mut rng = StdRng::seed_from_u64(14);
    let mut col = RainColumn::new(0, 10, 10_000, 0);
    col.draining = true;
    assert!(col.is_dead(20));
    col.update(200_000, 20, &pool, &mut rng);
    assert!(col.is_dead(20));
    assert_eq!(col.head_row(), 2);
}

#[test]
fn draining_trail_never_grows() {
    let pool = CharacterPool::matrix();
    let mut rng = StdRng::seed_from_u64(15);
    let mut col = RainColumn::new(0, 20, 10_000, 0);
    col.update(500_000, 5, &pool, &mut rng);
    assert!(col.is_fading());
    let mut len = col.trail.len();
    for _ in 0..6 {
        col.update(300_000, 40, &pool, &mut rng);
        assert!(col.trail.len() <= len);
        len = col.trail.len();
    }
}

#[test]
fn highlights_are_distinct_and_rows_consecutive() {
    let pool = CharacterPool::matrix();
    let mut rng = StdRng::seed_from_u64(16);
    for _ in 0..30 {
        let mut col = RainColumn::spawn(2, 40, &mut rng);
        for _ in 0..60 {
            col.update(40_000, 40, &pool, &mut rng);
            let mut h = col.highlight_positions.clone();
            h.sort();
            h.dedup();
            assert_eq!(h.len(), col.highlight_positions.len());
            for (i, e) in col.trail.iter().enumerate() {
                assert_eq!(e.0 as usize, col.trail[0].0 as usize + i);
            }
        }
    }
}

#[test]
fn field_update_adds_at_most_one_column_per_screen_column() {
    let mut field = RainField::new(12, 20);
    let mut rng = StdRng::seed_from_u64(17);
    field.update(10_000_000, &mut rng);
    assert_eq!(field.column_count(), 12);
    let before = field.column_count();
    field.update(40_000, &mut rng);
    assert!(field.column_count() <= before + 12);
}
