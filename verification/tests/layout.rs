use tetrs::config::{GameConfig, Rect, Rgb, WallSprite, wall_sprite};
use tetrs::motion::{step_x, tick_interval_ms, X_MAX, X_MIN};
use tetrs::score::score_text;
use tetrs::BLOCK_WIDTH;

#[test]
fn block_width_is_one_cell() {
    assert_eq!(BLOCK_WIDTH, 20);
}

#[test]
fn pixels_sets_each_edge() {
    let r = Rect::pixels(220, 60, 60, 40);
    assert_eq!(r, Rect { left: 220, right: 60, top: 60, bottom: 40 });
}

#[test]
fn default_config_layout() {
    let c = GameConfig::default();
    assert_eq!(c.background, Rgb { red: 70, green: 45, blue: 75 });
    assert_eq!(c.foreground, Rgb { red: 75, green: 82, blue: 92 });
    assert_eq!(c.window.title, "Tet.rs");
    assert_eq!(c.window.width, 300);
    assert_eq!(c.window.height, 400);
    assert!(!c.window.resizable);
    assert_eq!(c.bounds_left, Rect { left: 0, right: 20, top: 20, bottom: 380 });
    assert_eq!(c.bounds_right, Rect { left: 200, right: 300, top: 20, bottom: 380 });
    assert_eq!(c.bounds_top, Rect { left: 0, right: 300, top: 0, bottom: 20 });
    assert_eq!(c.bounds_bottom, Rect { left: 0, right: 300, top: 380, bottom: 400 });
    assert_eq!(c.next, Rect { left: 220, right: 60, top: 60, bottom: 40 });
    assert_eq!(c.scoreboard, Rect { left: 220, right: 150, top: 60, bottom: 20 });
}

#[test]
fn wall_sprites_of_the_default_bounds() {
    let c = GameConfig::default();
    assert_eq!(
        wall_sprite(&c.bounds_left),
        WallSprite { x: 0, y: 20, width: 20, height: 360 }
    );
    assert_eq!(
        wall_sprite(&c.bounds_right),
        WallSprite { x: 200, y: 20, width: 100, height: 360 }
    );
    assert_eq!(
        wall_sprite(&c.bounds_top),
        WallSprite { x: 0, y: 0, width: 300, height: 20 }
    );
    assert_eq!(
        wall_sprite(&c.bounds_bottom),
        WallSprite { x: 0, y: 380, width: 300, height: 20 }
    );
}

#[test]
fn step_moves_one_cell() {
    assert_eq!(step_x(0, false, true), 20);
    assert_eq!(step_x(0, true, false), -20);
    assert_eq!(step_x(100, false, true), 120);
    assert_eq!(step_x(-100, true, false), -120);
}

#[test]
fn step_with_both_or_neither_key_stays() {
    assert_eq!(step_x(60, true, true), 60);
    assert_eq!(step_x(60, false, false), 60);
}

#[test]
fn step_is_clamped_at_the_walls() {
    assert_eq!(step_x(X_MAX, false, true), X_MAX);
    assert_eq!(step_x(X_MIN, true, false), X_MIN);
    assert_eq!(step_x(370, false, true), X_MAX);
    assert_eq!(step_x(-370, true, false), X_MIN);
    assert_eq!(step_x(1000, false, false), X_MAX);
    assert_eq!(step_x(-1000, false, false), X_MIN);
}

#[test]
fn score_text_renders_the_score_in_decimal() {
    assert_eq!(score_text(0), "Score: 0");
    assert_eq!(score_text(7), "Score: 7");
    assert_eq!(score_text(10), "Score: 10");
    assert_eq!(score_text(42), "Score: 42");
    assert_eq!(score_text(10203), "Score: 10203");
    assert_eq!(score_text(u64::MAX), "Score: 18446744073709551615");
}

#[test]
fn tick_intervals_shorten_with_level() {
    let expected: [u32; 9] = [2000, 1800, 1600, 1400, 1200, 1000, 800, 600, 200];
    for (level, ms) in expected.iter().enumerate() {
        assert_eq!(tick_interval_ms(level), *ms);
    }
}
