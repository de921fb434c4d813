use fly_bird::bird::Bird;
use fly_bird::bird::FLAP_VELOCITY;
use fly_bird::bird::VELOCITY_CAP;
use fly_bird::obstacle::Obstacle;
use fly_bird::session::GameMode;
use fly_bird::session::Key;
use fly_bird::session::State;
use fly_bird::Cell;
use fly_bird::SCREEN_HEIGHT;
use fly_bird::SCREEN_WIDTH;

/// An elapsed time that always exceeds the physics-step threshold, so every
/// `play` call applies exactly one gravity step.
const STEP_MS: u32 = 80;

fn playing_state(bird: Bird, obstacle: Obstacle, score: i32) -> State {
    State {
        mode: GameMode::Playing,
        bird,
        frame_time: 0,
        obstacle,
        score,
    }
}

#[test]
fn gap_size_narrows_linearly_below_eighteen() {
    for score in 0..18 {
        let o = Obstacle::new(80, score);
        assert_eq!(o.size, 20 - score);
    }
}

#[test]
fn gap_size_floors_at_two_from_eighteen_up() {
    for score in [18, 19, 20, 50, 1000] {
        let o = Obstacle::new(80, score);
        assert_eq!(o.size, 2);
    }
}

#[test]
fn spawned_gap_center_is_drawn_from_the_allowed_band() {
    for _ in 0..100 {
        let o = Obstacle::new(80, 0);
        assert!(10 <= o.gap_y && o.gap_y < 40);
    }
}

#[test]
fn bird_y_stays_nonnegative_under_any_inputs() {
    let mut b = Bird::new(5, 0);
    for i in 0..200 {
        if i % 3 == 0 {
            b.flap();
        }
        b.gravity();
        assert!(b.y >= 0);
    }
}

#[test]
fn bird_rising_at_the_top_is_clamped_to_row_zero() {
    let mut b = Bird::new(5, 1);
    b.flap();
    b.gravity();
    // velocity -10 + 1 = -9 units, i.e. -1.8 rows, truncated to -1 row.
    assert_eq!(b.y, 0);
    b.gravity();
    // Another rise from row 0 cannot leave the world.
    assert_eq!(b.y, 0);
}

#[test]
fn flap_sets_velocity_exactly_and_does_not_stack() {
    let mut b = Bird::new(5, 25);
    for _ in 0..12 {
        b.gravity();
    }
    b.flap();
    assert_eq!(b.velocity, FLAP_VELOCITY);
    b.flap();
    assert_eq!(b.velocity, FLAP_VELOCITY);
}

#[test]
fn velocity_never_exceeds_cap_without_a_flap() {
    let mut b = Bird::new(5, 25);
    for _ in 0..100 {
        b.gravity();
        assert!(b.velocity <= VELOCITY_CAP);
    }
    assert_eq!(b.velocity, VELOCITY_CAP);
}

#[test]
fn gravity_advances_one_column_per_step() {
    let mut b = Bird::new(5, 25);
    for _ in 0..7 {
        b.gravity();
    }
    assert_eq!(b.x, 12);
}

#[test]
fn fractional_velocity_moves_no_rows() {
    let mut b = Bird::new(5, 25);
    b.gravity();
    // One step builds 0.2 rows per step of velocity: no whole row yet.
    assert_eq!(b.y, 25);
    assert_eq!(b.velocity, 1);
}

#[test]
fn collision_at_the_gap_boundaries() {
    let o = Obstacle {
        x: 50,
        gap_y: 20,
        size: 10,
    };
    let at = |y: i32| Bird { x: 50, y, velocity: 0 };
    assert!(o.hit_obstacle(&at(14)));
    assert!(!o.hit_obstacle(&at(15)));
    assert!(o.hit_obstacle(&at(26)));
    assert!(!o.hit_obstacle(&at(25)));
}

#[test]
fn no_collision_off_the_obstacle_column() {
    let o = Obstacle {
        x: 50,
        gap_y: 20,
        size: 10,
    };
    let b = Bird {
        x: 49,
        y: 0,
        velocity: 0,
    };
    assert!(!o.hit_obstacle(&b));
}

#[test]
fn obstacle_renders_every_row_but_the_gap_band() {
    let o = Obstacle {
        x: 50,
        gap_y: 20,
        size: 10,
    };
    let cells = o.render(50);
    // Rows 0..15 and 25..60, all in screen column 0.
    assert_eq!(cells.len(), 15 + 35);
    assert_eq!(cells[0], Cell { x: 0, y: 0 });
    assert_eq!(cells[14], Cell { x: 0, y: 14 });
    assert_eq!(cells[15], Cell { x: 0, y: 25 });
    assert_eq!(cells[49], Cell { x: 0, y: 59 });
    assert!(cells.iter().all(|c| c.x == 0));
    assert!(cells.iter().all(|c| c.y < 15 || c.y >= 25));
}

#[test]
fn obstacle_renders_relative_to_the_bird_column() {
    let o = Obstacle {
        x: 90,
        gap_y: 20,
        size: 10,
    };
    let cells = o.render(50);
    assert!(cells.iter().all(|c| c.x == 40));
}

#[test]
fn bird_renders_in_the_pinned_column() {
    let b = Bird::new(5, 33);
    assert_eq!(b.render(), Cell { x: 0, y: 33 });
}

#[test]
fn restart_resets_score_and_spawns_at_one_screen_width() {
    let mut s = State::new();
    s.score = 7;
    s.bird = Bird::new(200, 10);
    s.restart();
    assert_eq!(s.mode, GameMode::Playing);
    assert_eq!(s.score, 0);
    assert_eq!(s.frame_time, 0);
    assert_eq!(s.obstacle.x, SCREEN_WIDTH);
    assert_eq!(s.obstacle.x, 80);
    assert_eq!(s.bird.x, 5);
    assert_eq!(s.bird.y, 25);
    assert_eq!(s.bird.velocity, 0);
}

#[test]
fn restart_twice_equals_restart_once() {
    let mut s = State::new();
    s.restart();
    let once_mode = s.mode;
    let once_bird = (s.bird.x, s.bird.y, s.bird.velocity);
    let once_frame_time = s.frame_time;
    let once_score = s.score;
    let once_obstacle_x = s.obstacle.x;
    let once_obstacle_size = s.obstacle.size;
    s.restart();
    assert_eq!(s.mode, once_mode);
    assert_eq!((s.bird.x, s.bird.y, s.bird.velocity), once_bird);
    assert_eq!(s.frame_time, once_frame_time);
    assert_eq!(s.score, once_score);
    assert_eq!(s.obstacle.x, once_obstacle_x);
    assert_eq!(s.obstacle.size, once_obstacle_size);
    // The one field a restart draws afresh stays inside its band.
    assert!(10 <= s.obstacle.gap_y && s.obstacle.gap_y < 40);
}

#[test]
fn passing_the_obstacle_scores_and_respawns_ahead() {
    let bird = Bird::new(80, 25);
    let obstacle = Obstacle {
        x: 80,
        gap_y: 25,
        size: 20,
    };
    let mut s = playing_state(bird, obstacle, 0);
    let _ = s.play(STEP_MS, None);
    // The gravity step took the bird's column past the obstacle's.
    assert_eq!(s.bird.x, 81);
    assert_eq!(s.score, 1);
    assert_eq!(s.obstacle.x, s.bird.x + SCREEN_WIDTH);
    assert_eq!(s.obstacle.x, 161);
    assert_eq!(s.obstacle.size, 19);
    assert_eq!(s.mode, GameMode::Playing);
}

#[test]
fn falling_out_of_the_world_ends_the_session_and_keeps_the_score() {
    let bird = Bird {
        x: 20,
        y: SCREEN_HEIGHT + 1,
        velocity: 0,
    };
    let obstacle = Obstacle {
        x: 80,
        gap_y: 25,
        size: 15,
    };
    let mut s = playing_state(bird, obstacle, 5);
    let _ = s.play(0, None);
    assert_eq!(s.mode, GameMode::Ending);
    assert_eq!(s.score, 5);
}

#[test]
fn hitting_the_obstacle_ends_the_session() {
    // Next gravity step moves the bird onto the obstacle's column, well
    // above the gap.
    let bird = Bird {
        x: 49,
        y: 2,
        velocity: 0,
    };
    let obstacle = Obstacle {
        x: 50,
        gap_y: 20,
        size: 10,
    };
    let mut s = playing_state(bird, obstacle, 3);
    let _ = s.play(STEP_MS, None);
    assert_eq!(s.bird.x, 50);
    assert_eq!(s.mode, GameMode::Ending);
    assert_eq!(s.score, 3);
}

#[test]
fn physics_waits_for_the_accumulator_but_flap_does_not() {
    let bird = Bird::new(5, 25);
    let obstacle = Obstacle {
        x: 80,
        gap_y: 25,
        size: 20,
    };
    let mut s = playing_state(bird, obstacle, 0);
    let _ = s.play(40, Some(Key::Flap));
    // 40 ms accumulated: under the 75 ms threshold, so no gravity step,
    // but the flap applied immediately.
    assert_eq!(s.frame_time, 40);
    assert_eq!(s.bird.x, 5);
    assert_eq!(s.bird.y, 25);
    assert_eq!(s.bird.velocity, FLAP_VELOCITY);
    let _ = s.play(40, None);
    // 80 ms accumulated: one gravity step, and the accumulator resets.
    assert_eq!(s.frame_time, 0);
    assert_eq!(s.bird.x, 6);
    assert_eq!(s.bird.velocity, FLAP_VELOCITY + 1);
}

#[test]
fn new_session_starts_in_the_menu() {
    let s = State::new();
    assert_eq!(s.mode, GameMode::Menu);
    assert_eq!(s.score, 0);
    assert_eq!(s.obstacle.x, SCREEN_WIDTH);
    assert_eq!((s.bird.x, s.bird.y, s.bird.velocity), (5, 25, 0));
}

#[test]
fn menu_tick_dispatches_the_three_bindings() {
    let mut s = State::new();
    let (quit, cells) = s.tick(10, None);
    assert!(!quit);
    assert!(cells.is_empty());
    assert_eq!(s.mode, GameMode::Menu);

    let (quit, _) = s.tick(10, Some(Key::Other));
    assert!(!quit);
    assert_eq!(s.mode, GameMode::Menu);

    let (quit, _) = s.tick(10, Some(Key::Quit));
    assert!(quit);
    assert_eq!(s.mode, GameMode::Menu);

    let (quit, _) = s.tick(10, Some(Key::Start));
    assert!(!quit);
    assert_eq!(s.mode, GameMode::Playing);
    assert_eq!(s.score, 0);
}

#[test]
fn ending_tick_restarts_or_quits() {
    let bird = Bird {
        x: 20,
        y: SCREEN_HEIGHT + 1,
        velocity: 0,
    };
    let obstacle = Obstacle {
        x: 80,
        gap_y: 25,
        size: 15,
    };
    let mut s = playing_state(bird, obstacle, 9);
    let _ = s.tick(0, None);
    assert_eq!(s.mode, GameMode::Ending);

    // Unbound keys leave the score screen alone.
    let (quit, _) = s.tick(10, Some(Key::Flap));
    assert!(!quit);
    assert_eq!(s.mode, GameMode::Ending);
    assert_eq!(s.score, 9);

    let (quit, _) = s.tick(10, Some(Key::Quit));
    assert!(quit);
    assert_eq!(s.mode, GameMode::Ending);

    let (quit, _) = s.tick(10, Some(Key::Start));
    assert!(!quit);
    assert_eq!(s.mode, GameMode::Playing);
    assert_eq!(s.score, 0);
}

#[test]
fn playing_tick_returns_the_rendered_obstacle() {
    let bird = Bird::new(5, 25);
    let obstacle = Obstacle {
        x: 50,
        gap_y: 20,
        size: 10,
    };
    let mut s = playing_state(bird, obstacle, 0);
    let (quit, cells) = s.tick(STEP_MS, None);
    assert!(!quit);
    // Rendered against the bird's post-physics column 6: screen column 44.
    assert_eq!(cells.len(), 50);
    assert!(cells.iter().all(|c| c.x == 44));
    assert!(cells.iter().all(|c| c.y < 15 || c.y >= 25));
}

#[test]
fn a_full_run_scores_by_surviving_past_obstacles() {
    let mut s = State::new();
    s.restart();
    let mut quits = 0;
    for i in 0..800 {
        // Flap whenever the bird sinks below the current gap center and is
        // not already rising.
        let key = if s.bird.y > s.obstacle.gap_y && s.bird.velocity >= 0 {
            Some(Key::Flap)
        } else {
            None
        };
        let (quit, _) = s.tick(STEP_MS, key);
        if quit {
            quits += 1;
        }
        assert!(s.bird.y >= 0);
        assert!(s.bird.velocity <= VELOCITY_CAP);
        assert_eq!(s.mode, GameMode::Playing, "died at tick {i}");
    }
    assert_eq!(quits, 0);
    // 800 columns travelled from x = 5: past the spawns at 80, 166, 252, ...
    assert!(s.score >= 8);
    assert!(s.obstacle.x > s.bird.x);
}
