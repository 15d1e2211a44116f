use dodge::collision::{count_hits, CollisionEvent};
use dodge::game::{
    axis_step, collider_setting, Controls, GameState,
};
use dodge::text::{decimal_string, high_score_text, obstacle_id, score_text};
use dodge::timer::{SpawnTimer, SPAWN_PERIOD_NANOS};

fn event(first: &str, second: &str, begins: bool) -> CollisionEvent {
    CollisionEvent { first: first.to_string(), second: second.to_string(), begins }
}

fn no_keys() -> Controls {
    Controls {
        quit: false,
        reset: false,
        show_colliders: false,
        hide_colliders: false,
        up: false,
        down: false,
        left: false,
        right: false,
    }
}

#[test]
fn first_hit_sets_score_and_high_score() {
    let mut g = GameState::new();
    let out = g.frame(&vec![event("player", "car0", true)], &no_keys(), 0);
    assert_eq!(g.score, 1);
    assert_eq!(g.high_score, 1);
    assert_eq!(out.score_text, Some("Score: 1".to_string()));
    assert_eq!(out.high_score_text, Some("High Score: 1".to_string()));
    assert_eq!(out.removed, vec!["car0".to_string()]);
}

#[test]
fn reset_keeps_high_score() {
    let mut g = GameState { high_score: 10, score: 5, car_index: 0, spawn_timer: SpawnTimer::new() };
    let mut keys = no_keys();
    keys.reset = true;
    let out = g.frame(&vec![], &keys, 0);
    assert_eq!(g.score, 0);
    assert_eq!(g.high_score, 10);
    assert_eq!(out.score_text, Some("Score: 0".to_string()));
    assert_eq!(out.high_score_text, None);
}

#[test]
fn reset_score_alone() {
    let mut g = GameState { high_score: 7, score: 7, car_index: 3, spawn_timer: SpawnTimer::new() };
    let t = g.reset_score();
    assert_eq!(t, "Score: 0");
    assert_eq!((g.score, g.high_score, g.car_index), (0, 7, 3));
}

#[test]
fn score_counts_player_contact_starts() {
    let mut g = GameState::new();
    let events = vec![
        event("car0", "player", true),
        event("player", "car0", false),
        event("car1", "car2", true),
        event("player", "car3", true),
    ];
    let out = g.process_collisions(&events);
    assert_eq!(g.score, 2);
    assert_eq!(g.high_score, 2);
    assert_eq!(out.removed, vec!["car0".to_string(), "car3".to_string()]);
    assert_eq!(out.score_text, Some("Score: 2".to_string()));
    assert_eq!(out.high_score_text, Some("High Score: 2".to_string()));
}

#[test]
fn high_score_holds_until_passed() {
    let mut g = GameState { high_score: 3, score: 1, car_index: 0, spawn_timer: SpawnTimer::new() };
    let out = g.process_collisions(&vec![event("player", "car0", true)]);
    assert_eq!((g.score, g.high_score), (2, 3));
    assert_eq!(out.high_score_text, None);
    let out = g.process_collisions(&vec![event("player", "car1", true), event("car2", "player", true)]);
    assert_eq!((g.score, g.high_score), (4, 4));
    assert_eq!(out.score_text, Some("Score: 4".to_string()));
    assert_eq!(out.high_score_text, Some("High Score: 4".to_string()));
}

#[test]
fn no_events_change_nothing() {
    let mut g = GameState { high_score: 9, score: 4, car_index: 2, spawn_timer: SpawnTimer::new() };
    let out = g.process_collisions(&vec![]);
    assert_eq!((g.score, g.high_score, g.car_index), (4, 9, 2));
    assert!(out.removed.is_empty());
    assert_eq!(out.score_text, None);
    assert_eq!(out.high_score_text, None);
}

#[test]
fn player_with_player_scores_without_removal() {
    let mut g = GameState::new();
    let out = g.process_collisions(&vec![event("player", "player", true)]);
    assert_eq!(g.score, 1);
    assert!(out.removed.is_empty());
}

#[test]
fn only_the_player_itself_is_hit() {
    assert!(event("player", "car0", true).hits_player());
    assert!(event("car0", "player", true).hits_player());
    assert!(!event("player1", "car0", true).hits_player());
    assert!(!event("car0", "car1", true).hits_player());
    assert!(!event("playe", "car1", true).hits_player());
    assert!(!event("car0", "player", false).hits_player());
}

#[test]
fn near_player_name_scores_nothing() {
    let mut g = GameState::new();
    let mut keys = no_keys();
    keys.reset = true;
    let out = g.frame(&vec![event("player1", "car0", true)], &keys, 0);
    assert_eq!((g.score, g.high_score), (0, 0));
    assert!(out.removed.is_empty());
    assert_eq!(out.high_score_text, None);
}

#[test]
fn hits_are_counted() {
    let events = vec![
        event("player", "car0", true),
        event("player", "car0", false),
        event("player1", "car1", true),
        event("car2", "player", true),
        event("player", "player", true),
    ];
    assert_eq!(count_hits(&events), 3);
    assert_eq!(count_hits(&vec![]), 0);
}

#[test]
fn end_events_do_not_count_toward_overflow() {
    let mut g = GameState { high_score: u32::MAX, score: u32::MAX - 1, car_index: 0, spawn_timer: SpawnTimer::new() };
    let events = vec![
        event("player", "car0", false),
        event("car1", "car2", true),
        event("player", "car3", true),
    ];
    let out = g.process_collisions(&events);
    assert_eq!(g.score, u32::MAX);
    assert_eq!(out.removed, vec!["car3".to_string()]);
}

#[test]
fn record_hit_at_high_score() {
    let mut g = GameState { high_score: 41, score: 41, car_index: 0, spawn_timer: SpawnTimer::new() };
    let (t, h) = g.record_hit();
    assert_eq!(t, "Score: 42");
    assert_eq!(h, Some("High Score: 42".to_string()));
}

#[test]
fn spawn_ids_count_up_once_per_period() {
    let mut g = GameState::new();
    assert_eq!(g.advance_spawn(1_999_999_999), None);
    assert_eq!(g.car_index, 0);
    assert_eq!(g.advance_spawn(1), Some("car0".to_string()));
    assert_eq!(g.car_index, 1);
    assert_eq!(g.spawn_timer.elapsed_nanos, 0);
    assert_eq!(g.advance_spawn(2_500_000_000), Some("car1".to_string()));
    assert_eq!(g.car_index, 2);
    assert_eq!(g.spawn_timer.elapsed_nanos, 500_000_000);
    assert_eq!(g.advance_spawn(1_000_000_000), None);
    assert_eq!(g.advance_spawn(500_000_000), Some("car2".to_string()));
}

#[test]
fn spawn_ids_are_distinct() {
    let mut g = GameState::new();
    let mut seen: Vec<String> = Vec::new();
    for _ in 0..25 {
        let id = g.advance_spawn(SPAWN_PERIOD_NANOS).unwrap();
        assert!(!seen.contains(&id));
        seen.push(id);
    }
    assert_eq!(g.car_index, 25);
    assert_eq!(seen[10], "car10");
}

#[test]
fn timer_counts_whole_periods() {
    let mut t = SpawnTimer::new();
    assert_eq!(t.tick(5_000_000_000), 2);
    assert_eq!(t.elapsed_nanos, 1_000_000_000);
    assert_eq!(t.tick(999_999_999), 0);
    assert_eq!(t.elapsed_nanos, 1_999_999_999);
    assert!(t.just_finished(1));
    assert_eq!(t.elapsed_nanos, 0);
}

#[test]
fn opposite_keys_cancel() {
    assert_eq!(axis_step(true, true), 0);
    assert_eq!(axis_step(false, false), 0);
    assert_eq!(axis_step(true, false), 1);
    assert_eq!(axis_step(false, true), -1);
}

#[test]
fn movement_is_speed_times_time() {
    let mut g = GameState::new();
    let mut keys = no_keys();
    keys.up = true;
    keys.right = true;
    keys.left = true;
    let out = g.frame(&vec![], &keys, 16_000_000);
    let speed = dodge::game::MOVEMENT_SPEED as f32;
    let dt = 0.016f32;
    assert!((out.step_y as f32 * speed * dt - 1.6).abs() < 1e-4);
    assert_eq!(out.step_x, 0);
}

#[test]
fn collider_keys() {
    assert_eq!(collider_setting(true, false), Some(true));
    assert_eq!(collider_setting(false, true), Some(false));
    assert_eq!(collider_setting(true, true), Some(false));
    assert_eq!(collider_setting(false, false), None);
}

#[test]
fn frame_passes_quit_and_spawn() {
    let mut g = GameState::new();
    let mut keys = no_keys();
    keys.quit = true;
    keys.show_colliders = true;
    let out = g.frame(&vec![], &keys, 2_000_000_000);
    assert!(out.should_exit);
    assert_eq!(out.show_colliders, Some(true));
    assert_eq!(out.spawned, Some("car0".to_string()));
    assert_eq!(g.car_index, 1);
}

#[test]
fn reset_after_hits_in_same_frame() {
    let mut g = GameState { high_score: 2, score: 2, car_index: 0, spawn_timer: SpawnTimer::new() };
    let mut keys = no_keys();
    keys.reset = true;
    let out = g.frame(&vec![event("player", "car0", true)], &keys, 0);
    assert_eq!((g.score, g.high_score), (0, 3));
    assert_eq!(out.score_text, Some("Score: 0".to_string()));
    assert_eq!(out.high_score_text, Some("High Score: 3".to_string()));
    assert_eq!(out.removed, vec!["car0".to_string()]);
}

#[test]
fn texts_render_decimal() {
    assert_eq!(decimal_string(0), "0");
    assert_eq!(decimal_string(907), "907");
    assert_eq!(decimal_string(u32::MAX), "4294967295");
    assert_eq!(score_text(10), "Score: 10");
    assert_eq!(high_score_text(0), "High Score: 0");
    assert_eq!(obstacle_id(123), "car123");
}

#[test]
fn default_state_is_fresh() {
    let g = GameState::default();
    assert_eq!((g.high_score, g.score, g.car_index, g.spawn_timer.elapsed_nanos), (0, 0, 0, 0));
}
