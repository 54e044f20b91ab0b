use matrix_rain::config::{Config, Glyph, World};
use matrix_rain::draw::DrawCommand;
use matrix_rain::game::GameState;
use matrix_rain::matrix::matrix_col::MatrixCol;
use matrix_rain::matrix::matrix_world::{MatrixError, MatrixWorld};
use matrix_rain::matrix::util::{random_duration, Timer};

fn config_800_600_30(debug: bool) -> Config {
    Config {
        world: World { window_width_px: 800, window_height_px: 600, font_size_px: 30 },
        glyph: Glyph { child_spawn_interval_ms: 100 },
        debug,
    }
}

#[test]
fn world_of_800_by_600_at_cell_30_has_26_by_20_cells() {
    let game = GameState::new(config_800_600_30(false));
    let world = MatrixWorld::new(game.config.clone()).expect("valid configuration");
    assert_eq!(world.width, 26);
    assert_eq!(world.height, 20);
    assert_eq!(world.font_height, 30);
    assert_eq!(world.cols.len(), 26);
    for (i, col) in world.cols.iter().enumerate() {
        assert_eq!(col.code.x_pos, i as i32);
        assert!(col.is_spawned);
        assert!(!col.timer_expired);
        assert!((-3..=17).contains(&col.code.y_pos));
        assert_eq!(col.code.max_ancestors, 10);
        assert_eq!(col.code.child_spawn_timer.end_ms, 100);
        assert!((100..=9000).contains(&col.start_timer.end_ms));
    }
}

#[test]
fn grid_size_comes_from_integer_division() {
    let d = MatrixWorld::calculate_font_grid_size(&config_800_600_30(false)).unwrap();
    assert_eq!(d, (26, 20));
    let odd = Config {
        world: World { window_width_px: 799, window_height_px: 601, font_size_px: 30 },
        glyph: Glyph { child_spawn_interval_ms: 1 },
        debug: false,
    };
    assert_eq!(MatrixWorld::calculate_font_grid_size(&odd).unwrap(), (26, 20));
}

#[test]
fn invalid_configuration_fails_construction() {
    for cfg in [
        Config {
            world: World { window_width_px: 0, window_height_px: 600, font_size_px: 30 },
            glyph: Glyph { child_spawn_interval_ms: 1 },
            debug: false,
        },
        Config {
            world: World { window_width_px: 800, window_height_px: -1, font_size_px: 30 },
            glyph: Glyph { child_spawn_interval_ms: 1 },
            debug: false,
        },
        Config {
            world: World { window_width_px: 800, window_height_px: 600, font_size_px: 0 },
            glyph: Glyph { child_spawn_interval_ms: 1 },
            debug: false,
        },
    ] {
        let game = GameState::new(cfg);
        let err = match MatrixWorld::new(game.config) {
            Ok(_) => panic!("construction must fail"),
            Err(e) => e,
        };
        assert_eq!(
            err.message,
            "invalid configuration: window dimensions and cell size must be positive"
        );
    }
}

#[test]
fn matrix_error_keeps_its_message() {
    let e = MatrixError::new("boom");
    assert_eq!(e.message, "boom");
}

#[test]
fn world_update_keeps_one_column_per_lane() {
    let game = GameState::new(config_800_600_30(false));
    let mut world = MatrixWorld::new(game.config.clone()).expect("valid configuration");
    let mut frame: Vec<DrawCommand> = Vec::new();
    for _ in 0..5 {
        world.update(100, &mut frame).expect("tick");
        assert_eq!(world.cols.len(), 26);
        assert_eq!(world.width, 26);
        for (i, col) in world.cols.iter().enumerate() {
            assert_eq!(col.code.x_pos, i as i32);
        }
    }
}

#[test]
fn waiting_column_draws_nothing_and_freezes_its_chain() {
    // Every start delay is at least 100 ms, so a 50 ms tick activates no
    // column: the frame stays empty and no chain timer moves.
    let game = GameState::new(config_800_600_30(false));
    let mut world = MatrixWorld::new(game.config.clone()).expect("valid configuration");
    let mut frame: Vec<DrawCommand> = Vec::new();
    world.update(50, &mut frame).expect("tick");
    assert!(frame.is_empty());
    for col in world.cols.iter() {
        assert!(!col.timer_expired);
        assert_eq!(col.start_timer.elapsed_ms, 50);
        assert_eq!(col.code.child_spawn_timer.elapsed_ms, 0);
        assert_eq!(col.code.glyph_change_timer.elapsed_ms, 0);
        assert_eq!(col.code.animation.step_elapsed_ms, 0);
        assert!(col.code.child.is_none());
    }
}

#[test]
fn column_activates_once_its_delay_is_exceeded() {
    let mut col = MatrixCol::new(3, 40, 20, 50);
    assert!((10..=20).contains(&col.code.max_ancestors));
    assert!((-3..=17).contains(&col.code.y_pos));
    assert_eq!(col.code.x_pos, 3);
    let mut frame: Vec<DrawCommand> = Vec::new();
    col.update(50, 30, &mut frame);
    assert!(!col.timer_expired);
    assert!(frame.is_empty());

    // Push the column past its whole delay range.
    col.update(9001, 30, &mut frame);
    assert!(col.timer_expired);
    assert_eq!(frame.len(), 1);
    match frame[0] {
        DrawCommand::Glyph { x_px, font_size_px, .. } => {
            assert_eq!(x_px, 3 * 30);
            assert_eq!(font_size_px, 30);
        },
        _ => panic!("expected a glyph command"),
    }
    // Once active it stays active.
    col.update(1, 30, &mut frame);
    assert!(col.timer_expired);
}

#[test]
fn expired_column_is_respawned_on_the_next_tick() {
    let game = GameState::new(config_800_600_30(false));
    let mut world = MatrixWorld::new(game.config.clone()).expect("valid configuration");
    // Force lane 0 into the expired state.
    world.cols[0].is_spawned = false;
    world.cols[0].timer_expired = true;
    world.cols[0].start_timer = Timer { elapsed_ms: 9001, end_ms: 100 };
    let mut frame: Vec<DrawCommand> = Vec::new();
    world.update(10, &mut frame).expect("tick");
    let col = &world.cols[0];
    assert!(col.is_spawned);
    assert_eq!(col.code.x_pos, 0);
    assert!(col.code.child.is_none());
    assert_eq!(col.start_timer.elapsed_ms, 10);
}

#[test]
fn debug_grid_outlines_every_cell() {
    let game = GameState::new(config_800_600_30(false));
    let world = MatrixWorld::new(game.config.clone()).expect("valid configuration");
    let mut frame: Vec<DrawCommand> = Vec::new();
    world.debug_grid(&mut frame);
    assert_eq!(frame.len(), 26 * 20);
    // Offsets: (800 % 30) / 2 = 10 and (600 % 30) / 2 = 0.
    match frame[0] {
        DrawCommand::RectLines { x_px, y_px, width_px, height_px, color } => {
            assert_eq!((x_px, y_px), (10, 0));
            assert_eq!((width_px, height_px), (30, 30));
            assert_eq!((color.r, color.g, color.b, color.a), (255, 0, 0, 255));
        },
        _ => panic!("expected a rectangle command"),
    }
    assert_eq!(world.get_grid_offset(), (10, 0));
}

#[test]
fn debug_world_tick_appends_the_grid() {
    let game = GameState::new(config_800_600_30(true));
    let mut world = MatrixWorld::new(game.config.clone()).expect("valid configuration");
    let mut frame: Vec<DrawCommand> = Vec::new();
    // A 50 ms tick activates no column, so the frame is exactly the grid.
    world.update(50, &mut frame).expect("tick");
    assert_eq!(frame.len(), 26 * 20);
    assert!(frame.iter().all(|c| matches!(c, DrawCommand::RectLines { .. })));
}

#[test]
fn random_duration_stays_in_range() {
    assert_eq!(random_duration(7, 7), 7);
    for _ in 0..50 {
        let d = random_duration(100, 700);
        assert!((100..=700).contains(&d));
    }
}

#[test]
fn rain_eventually_falls() {
    // Drive a tiny world long past every start delay: some glyphs must have
    // been drawn.
    let cfg = Config {
        world: World { window_width_px: 90, window_height_px: 3000, font_size_px: 30 },
        glyph: Glyph { child_spawn_interval_ms: 100 },
        debug: false,
    };
    let game = GameState::new(cfg);
    let mut world = MatrixWorld::new(game.config.clone()).expect("valid configuration");
    assert_eq!(world.width, 3);
    assert_eq!(world.height, 100);
    let mut drew = false;
    for _ in 0..15 {
        let mut frame: Vec<DrawCommand> = Vec::new();
        world.update(1000, &mut frame).expect("tick");
        if !frame.is_empty() {
            drew = true;
        }
    }
    assert!(drew, "no column ever became active");
}
