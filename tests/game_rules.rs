use flappy::game::{GameMode, Key, State, SCREEN_HEIGHT, SCREEN_WIDTH, X_DRAW_OFFSET};
use flappy::obstacle::{gap_size_for_score, Obstacle, GAP_Y_END, GAP_Y_MIN};
use flappy::physics::{Player, TERMINAL_VELOCITY};
use flappy::tiles::wall_glyph;

fn playing_state(player: Player, obstacle: Obstacle, score: i32) -> State {
    State { mode: GameMode::Playing, player, paused: false, score, obstacle }
}

#[test]
fn gravity_raises_velocity_until_cap() {
    let mut p = Player::new(0, 20);
    let mut last = p.velocity;
    for _ in 0..10 {
        p.apply_gravity_to_velocity();
        assert!(p.velocity > last);
        last = p.velocity;
    }
    assert_eq!(p.velocity, TERMINAL_VELOCITY);
    for _ in 0..5 {
        p.apply_gravity_to_velocity();
        assert_eq!(p.velocity, TERMINAL_VELOCITY);
    }
}

#[test]
fn velocity_reaches_cap_after_ten_ticks() {
    let mut p = Player::new(0, 20);
    assert_eq!(p.velocity, 0);
    for i in 1..=10 {
        p.apply_gravity_to_velocity();
        assert_eq!(p.velocity, 2 * i);
    }
    // 2.0 cells per tick, held in tenths
    assert_eq!(p.velocity, 20);
    p.apply_gravity_to_velocity();
    assert_eq!(p.velocity, 20);
}

#[test]
fn flap_sets_upward_velocity() {
    let mut p = Player::new(0, 20);
    p.flap();
    assert_eq!(p.velocity, -TERMINAL_VELOCITY);
    p.update();
    assert_eq!(p.velocity, -18);
    assert_eq!(p.y, 19);
    assert_eq!(p.x, 1);
}

#[test]
fn player_held_at_top_of_screen() {
    let mut p = Player::new(0, 1);
    p.flap();
    for _ in 0..5 {
        p.update();
        assert!(p.y >= 0);
    }
    assert_eq!(p.y, 0);
}

#[test]
fn velocity_moves_whole_cells_toward_zero() {
    let mut p = Player { x: 0, y: 10, velocity: 19, frame_number: 1 };
    p.apply_velocity_to_player();
    assert_eq!(p.y, 11);
    let mut q = Player { x: 0, y: 10, velocity: -19, frame_number: 1 };
    q.apply_velocity_to_player();
    assert_eq!(q.y, 9);
    let mut r = Player { x: 0, y: 10, velocity: 9, frame_number: 1 };
    r.apply_velocity_to_player();
    assert_eq!(r.y, 10);
}

#[test]
fn gap_size_shrinks_with_score_to_floor() {
    assert_eq!(gap_size_for_score(0), 20);
    assert_eq!(gap_size_for_score(5), 15);
    assert_eq!(gap_size_for_score(18), 2);
    assert_eq!(gap_size_for_score(25), 2);
    assert_eq!(gap_size_for_score(1000), 2);
    assert_eq!(Obstacle::new(80, 0).size, 20);
    assert_eq!(Obstacle::new(80, 25).size, 2);
}

#[test]
fn new_obstacle_gap_in_range() {
    for score in 0..40 {
        let o = Obstacle::new(7, score);
        assert_eq!(o.x, 7);
        assert!(o.gap_y >= GAP_Y_MIN && o.gap_y < GAP_Y_END);
        assert!(o.size >= 2);
    }
}

#[test]
fn collision_only_in_obstacle_column_outside_gap() {
    let o = Obstacle::with_gap(10, 20, 0);
    assert_eq!(o.size, 20);
    let hit = |x: i32, y: i32| {
        playing_state(Player { x, y, velocity: 0, frame_number: 1 }, Obstacle::with_gap(10, 20, 0), 0)
            .is_colliding_with_obstacle()
    };
    assert!(hit(10, 9));
    assert!(!hit(10, 10));
    assert!(!hit(10, 20));
    assert!(!hit(10, 30));
    assert!(hit(10, 31));
    assert!(!hit(9, 0));
    assert!(!hit(11, 45));
}

#[test]
fn floor_collision_below_screen() {
    let s = playing_state(Player { x: 0, y: SCREEN_HEIGHT, velocity: 0, frame_number: 1 }, Obstacle::with_gap(80, 20, 0), 0);
    assert!(!s.is_colliding_with_floor());
    let t = playing_state(Player { x: 0, y: SCREEN_HEIGHT + 1, velocity: 0, frame_number: 1 }, Obstacle::with_gap(80, 20, 0), 0);
    assert!(t.is_colliding_with_floor());
}

#[test]
fn update_scores_one_when_passing_obstacle() {
    let mut s = playing_state(Player { x: 9, y: 20, velocity: 0, frame_number: 1 }, Obstacle::with_gap(10, 20, 0), 3);
    s.update();
    assert_eq!(s.player.x, 10);
    assert_eq!(s.score, 4);
    assert_eq!(s.mode, GameMode::Playing);
    s.update();
    assert_eq!(s.score, 4);
}

#[test]
fn update_ends_game_on_obstacle_hit() {
    let mut s = playing_state(Player { x: 9, y: 40, velocity: 0, frame_number: 1 }, Obstacle::with_gap(10, 20, 0), 0);
    s.update();
    assert_eq!(s.mode, GameMode::End);
    assert_eq!(s.score, 1);
}

#[test]
fn update_ends_game_on_floor() {
    let mut s = playing_state(Player { x: 0, y: SCREEN_HEIGHT, velocity: 20, frame_number: 1 }, Obstacle::with_gap(60, 20, 0), 0);
    s.update();
    assert_eq!(s.player.y, SCREEN_HEIGHT + 2);
    assert_eq!(s.mode, GameMode::End);
}

#[test]
fn update_skipped_while_paused() {
    let mut s = playing_state(Player { x: 4, y: 20, velocity: 6, frame_number: 2 }, Obstacle::with_gap(40, 20, 0), 2);
    s.pause();
    assert!(s.paused);
    s.update();
    assert_eq!(s.player.x, 4);
    assert_eq!(s.player.y, 20);
    assert_eq!(s.player.velocity, 6);
    assert_eq!(s.score, 2);
    s.pause();
    assert!(!s.paused);
}

#[test]
fn new_obstacle_spawned_past_current() {
    let mut s = playing_state(Player { x: 15, y: 20, velocity: 0, frame_number: 1 }, Obstacle::with_gap(10, 20, 0), 21);
    s.update();
    assert_eq!(s.obstacle.x, SCREEN_WIDTH + 16 - X_DRAW_OFFSET);
    assert_eq!(s.obstacle.size, 2);
    assert!(s.obstacle.gap_y >= GAP_Y_MIN && s.obstacle.gap_y < GAP_Y_END);
}

#[test]
fn score_never_decrements_in_play() {
    let mut s = State::new();
    assert!(!s.tick(Some(Key::P)));
    let mut last = s.score;
    for i in 0..200 {
        let key = if i % 4 == 0 { Some(Key::Space) } else { None };
        s.tick(key);
        assert!(s.score >= last && s.score <= last + 1);
        assert!(s.player.y >= 0);
        assert!(s.obstacle.size >= 2);
        last = s.score;
    }
}

#[test]
fn menu_keys() {
    let mut s = State::new();
    assert_eq!(s.mode, GameMode::Menu);
    assert!(!s.tick(None));
    assert_eq!(s.mode, GameMode::Menu);
    assert!(!s.tick(Some(Key::Space)));
    assert_eq!(s.mode, GameMode::Menu);
    assert!(s.tick(Some(Key::Q)));
    assert_eq!(s.mode, GameMode::Menu);
    assert!(!s.tick(Some(Key::P)));
    assert_eq!(s.mode, GameMode::Playing);
    assert_eq!(s.score, 0);
    assert_eq!(s.player.x, 0);
    assert_eq!(s.player.y, 20);
    assert_eq!(s.obstacle.x, SCREEN_WIDTH - X_DRAW_OFFSET);
    assert_eq!(s.obstacle.size, 20);
}

#[test]
fn game_over_returns_to_menu_on_space() {
    let mut s = playing_state(Player { x: 0, y: 20, velocity: 0, frame_number: 1 }, Obstacle::with_gap(60, 20, 0), 7);
    s.mode = GameMode::End;
    assert!(!s.tick(Some(Key::P)));
    assert_eq!(s.mode, GameMode::End);
    assert!(!s.tick(Some(Key::Space)));
    assert_eq!(s.mode, GameMode::Menu);
    assert_eq!(s.score, 7);
}

#[test]
fn ingame_keys_flap_and_pause() {
    let mut s = playing_state(Player { x: 0, y: 20, velocity: 4, frame_number: 1 }, Obstacle::with_gap(60, 20, 0), 0);
    s.poll_for_ingame_input(Some(Key::Space));
    assert_eq!(s.player.velocity, -TERMINAL_VELOCITY);
    s.poll_for_ingame_input(Some(Key::P));
    assert!(s.paused);
    s.poll_for_ingame_input(Some(Key::Q));
    assert!(s.paused);
    assert_eq!(s.mode, GameMode::Playing);
}

#[test]
fn animation_cycles_while_rising() {
    let mut p = Player::new(0, 20);
    p.advance_animation();
    assert_eq!(p.frame_number, 1);
    p.flap();
    let mut frames = Vec::new();
    for _ in 0..5 {
        p.advance_animation();
        frames.push(p.frame_number);
    }
    assert_eq!(frames, vec![2, 3, 4, 1, 2]);
    p.velocity = 0;
    p.advance_animation();
    p.advance_animation();
    p.advance_animation();
    assert_eq!(p.frame_number, 1);
    p.advance_animation();
    assert_eq!(p.frame_number, 1);
}

#[test]
fn glyphs_and_wall_rows() {
    assert_eq!(wall_glyph(), 35);
    let p = Player { x: 0, y: 0, velocity: 0, frame_number: 3 };
    assert_eq!(p.glyph(), '3' as u16);
    let s = playing_state(Player { x: 2, y: 20, velocity: 0, frame_number: 1 }, Obstacle::with_gap(30, 20, 15), 0);
    assert_eq!(s.obstacle_screen_x(), 33);
    let rows: Vec<i32> = (-1..SCREEN_HEIGHT + 2).filter(|y| s.is_wall_row(*y)).collect();
    let expected: Vec<i32> = (0..18).chain(22..SCREEN_HEIGHT).collect();
    assert_eq!(rows, expected);
}

#[test]
fn room_to_advance_near_limits() {
    let mut s = State::new();
    assert!(s.has_room_to_advance());
    s.score = i32::MAX;
    assert!(!s.has_room_to_advance());
    s.score = 0;
    s.player.x = i32::MAX - 75;
    assert!(!s.has_room_to_advance());
    s.player.x = i32::MAX - 76;
    assert!(s.has_room_to_advance());
}
