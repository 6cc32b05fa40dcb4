use arcade::catcher::{catches, is_player, push, GameState, Input};
use arcade::collision::{CollisionEvent, CollisionPair, CollisionState};
use arcade::score::Score;

fn meeting(first: &str, second: &str) -> CollisionEvent {
    CollisionEvent {
        state: CollisionState::Begin,
        pair: CollisionPair(first.to_string(), second.to_string()),
    }
}

fn parting(first: &str, second: &str) -> CollisionEvent {
    CollisionEvent {
        state: CollisionState::End,
        pair: CollisionPair(first.to_string(), second.to_string()),
    }
}

fn quiet() -> Input {
    Input {
        quit: false,
        collisions: vec![],
        up: false,
        down: false,
        left: false,
        right: false,
        click: false,
        spawn_due: false,
        reset: false,
    }
}

fn state(score: u32, high_score: u32, feris_index: u32) -> GameState {
    GameState {
        high_score: Score::new(high_score, "High "),
        score: Score::new(score, ""),
        feris_index,
    }
}

#[test]
fn the_game_starts_without_points() {
    let state = GameState::default();
    assert_eq!(state.score.value, 0);
    assert_eq!(state.score.prefix, "");
    assert_eq!(state.high_score.value, 0);
    assert_eq!(state.high_score.prefix, "High ");
    assert_eq!(state.feris_index, 0);
    assert_eq!(state.score.to_string(), "Score: 0");
    assert_eq!(state.high_score.to_string(), "High Score: 0");
}

#[test]
fn a_catch_scores_and_removes_what_was_caught() {
    let mut state = GameState::default();
    let catch = state.catch(&meeting("player", "feris0")).unwrap();
    assert_eq!(catch.removed, "feris0");
    assert_eq!(catch.score_text, "Score: 1");
    assert_eq!(catch.high_score_text, Some("High Score: 1".to_string()));
    assert_eq!(state.score.value, 1);
    assert_eq!(state.high_score.value, 1);
    assert_eq!(state.feris_index, 0);
}

#[test]
fn a_catch_works_in_either_order_of_the_pair() {
    let mut state = GameState::default();
    let catch = state.catch(&meeting("feris4", "player")).unwrap();
    assert_eq!(catch.removed, "feris4");
    assert_eq!(state.score.value, 1);
}

#[test]
fn a_catch_below_the_high_score_leaves_it() {
    let mut state = state(2, 9, 5);
    let catch = state.catch(&meeting("player", "feris3")).unwrap();
    assert_eq!(catch.score_text, "Score: 3");
    assert_eq!(catch.high_score_text, None);
    assert_eq!(state.score.value, 3);
    assert_eq!(state.high_score.value, 9);
    assert_eq!(state.feris_index, 5);
}

#[test]
fn a_catch_that_ties_the_high_score_leaves_it() {
    let mut state = state(8, 9, 0);
    let catch = state.catch(&meeting("player", "feris3")).unwrap();
    assert_eq!(catch.score_text, "Score: 9");
    assert_eq!(catch.high_score_text, None);
    assert_eq!(state.high_score.value, 9);
}

#[test]
fn a_catch_past_the_high_score_raises_it() {
    let mut state = state(9, 9, 0);
    let catch = state.catch(&meeting("player", "feris3")).unwrap();
    assert_eq!(catch.score_text, "Score: 10");
    assert_eq!(catch.high_score_text, Some("High Score: 10".to_string()));
    assert_eq!(state.high_score.value, 10);
    assert_eq!(state.high_score.prefix, "High ");
}

#[test]
fn the_end_of_a_collision_is_no_catch() {
    let mut state = state(2, 9, 5);
    assert!(state.catch(&parting("player", "feris3")).is_none());
    assert_eq!(state.score.value, 2);
    assert_eq!(state.high_score.value, 9);
    assert_eq!(state.feris_index, 5);
}

#[test]
fn a_collision_without_the_player_is_no_catch() {
    let mut state = GameState::default();
    assert!(state.catch(&meeting("feris1", "feris2")).is_none());
    assert_eq!(state.score.value, 0);
}

#[test]
fn a_collision_between_two_players_is_no_catch() {
    let mut state = GameState::default();
    assert!(state.catch(&meeting("player", "player2")).is_none());
    assert_eq!(state.score.value, 0);
}

#[test]
fn a_catch_removes_the_other_sprite_only() {
    let mut state = GameState::default();
    let catch = state.catch(&meeting("player7", "feris1")).unwrap();
    assert_eq!(catch.removed, "feris1");
    let catch = state.catch(&meeting("feris2", "player7")).unwrap();
    assert_eq!(catch.removed, "feris2");
}

#[test]
fn spawned_sprites_are_numbered_in_turn() {
    let mut state = GameState::default();
    assert_eq!(state.next_feris_label(), "feris0");
    assert_eq!(state.next_feris_label(), "feris1");
    assert_eq!(state.feris_index, 2);
    state.feris_index = 99;
    assert_eq!(state.next_feris_label(), "feris99");
    assert_eq!(state.next_feris_label(), "feris100");
    state.feris_index = u32::MAX - 1;
    assert_eq!(state.next_feris_label(), "feris4294967294");
    assert_eq!(state.feris_index, u32::MAX);
}

#[test]
fn only_the_player_is_the_player() {
    assert!(is_player("player"));
    assert!(!is_player("player1"));
    assert!(!is_player("Player"));
    assert!(!is_player("feris0"));
    assert!(!is_player(""));
}

#[test]
fn opposite_keys_cancel() {
    assert_eq!(push(true, false), 1);
    assert_eq!(push(false, true), -1);
    assert_eq!(push(true, true), 0);
    assert_eq!(push(false, false), 0);
}

#[test]
fn a_quiet_frame_asks_for_nothing() {
    let mut state = state(3, 7, 4);
    let output = state.game_logic(&quiet());
    assert!(!output.exit);
    assert!(output.removed.is_empty());
    assert_eq!(output.jingles, 0);
    assert_eq!(output.score_text, None);
    assert_eq!(output.high_score_text, None);
    assert_eq!(output.thrust, (0, 0));
    assert_eq!(output.spawn_at_cursor, None);
    assert_eq!(output.spawn_at_random, None);
    assert!(!output.reset);
    assert_eq!(state.score.value, 3);
    assert_eq!(state.high_score.value, 7);
    assert_eq!(state.feris_index, 4);
}

#[test]
fn the_quit_key_leaves_the_game() {
    let mut state = GameState::default();
    let output = state.game_logic(&Input { quit: true, ..quiet() });
    assert!(output.exit);
    assert_eq!(state.score.value, 0);
}

#[test]
fn the_held_keys_give_the_thrust() {
    let mut state = GameState::default();
    let output = state.game_logic(&Input { up: true, ..quiet() });
    assert_eq!(output.thrust, (0, 1));
    let output = state.game_logic(&Input { down: true, ..quiet() });
    assert_eq!(output.thrust, (0, -1));
    let output = state.game_logic(&Input { left: true, ..quiet() });
    assert_eq!(output.thrust, (-1, 0));
    let output = state.game_logic(&Input { right: true, ..quiet() });
    assert_eq!(output.thrust, (1, 0));
    let output = state.game_logic(&Input { right: true, up: true, ..quiet() });
    assert_eq!(output.thrust, (1, 1));
    let output = state.game_logic(&Input { right: true, left: true, down: true, ..quiet() });
    assert_eq!(output.thrust, (0, -1));
}

#[test]
fn a_frame_counts_every_catch() {
    let mut state = state(0, 1, 0);
    let output = state.game_logic(&Input {
        collisions: vec![
            meeting("player", "feris0"),
            meeting("feris1", "feris2"),
            parting("player", "feris0"),
            meeting("feris2", "player"),
            meeting("player", "feris5"),
        ],
        ..quiet()
    });
    assert_eq!(output.removed, vec!["feris0", "feris2", "feris5"]);
    assert_eq!(output.jingles, 3);
    assert_eq!(output.score_text, Some("Score: 3".to_string()));
    assert_eq!(output.high_score_text, Some("High Score: 3".to_string()));
    assert_eq!(state.score.value, 3);
    assert_eq!(state.high_score.value, 3);
}

#[test]
fn a_frame_below_the_high_score_leaves_its_display() {
    let mut state = state(0, 5, 0);
    let output = state.game_logic(&Input {
        collisions: vec![meeting("player", "feris0"), meeting("player", "feris1")],
        ..quiet()
    });
    assert_eq!(output.score_text, Some("Score: 2".to_string()));
    assert_eq!(output.high_score_text, None);
    assert_eq!(state.high_score.value, 5);
}

#[test]
fn a_high_score_below_the_score_waits_for_a_catch() {
    let mut state = state(5, 3, 0);
    let output = state.game_logic(&quiet());
    assert_eq!(output.high_score_text, None);
    assert_eq!(state.high_score.value, 3);
    let output = state.game_logic(&Input {
        collisions: vec![meeting("player", "feris0")],
        ..quiet()
    });
    assert_eq!(output.high_score_text, Some("High Score: 6".to_string()));
    assert_eq!(state.high_score.value, 6);
}

#[test]
fn a_click_spawns_under_the_next_label() {
    let mut state = state(0, 0, 7);
    let output = state.game_logic(&Input { click: true, ..quiet() });
    assert_eq!(output.spawn_at_cursor, Some("feris7".to_string()));
    assert_eq!(output.spawn_at_random, None);
    assert_eq!(state.feris_index, 8);
}

#[test]
fn the_timer_spawns_under_the_next_label() {
    let mut state = state(0, 0, 7);
    let output = state.game_logic(&Input { spawn_due: true, ..quiet() });
    assert_eq!(output.spawn_at_cursor, None);
    assert_eq!(output.spawn_at_random, Some("feris7".to_string()));
    assert_eq!(state.feris_index, 8);
}

#[test]
fn click_and_timer_in_one_frame_get_two_labels() {
    let mut state = state(0, 0, 7);
    let output = state.game_logic(&Input { click: true, spawn_due: true, ..quiet() });
    assert_eq!(output.spawn_at_cursor, Some("feris7".to_string()));
    assert_eq!(output.spawn_at_random, Some("feris8".to_string()));
    assert_eq!(state.feris_index, 9);
}

#[test]
fn the_last_labels_can_still_be_given() {
    let mut state = state(0, 0, u32::MAX - 2);
    let output = state.game_logic(&Input { click: true, spawn_due: true, ..quiet() });
    assert_eq!(output.spawn_at_cursor, Some("feris4294967293".to_string()));
    assert_eq!(output.spawn_at_random, Some("feris4294967294".to_string()));
    assert_eq!(state.feris_index, u32::MAX);
}

#[test]
fn the_last_point_can_still_be_scored() {
    let mut state = state(u32::MAX - 1, 0, 0);
    let output = state.game_logic(&Input {
        collisions: vec![meeting("player", "feris0"), meeting("feris1", "feris2")],
        ..quiet()
    });
    assert_eq!(output.score_text, Some("Score: 4294967295".to_string()));
    assert_eq!(output.high_score_text, Some("High Score: 4294967295".to_string()));
    assert_eq!(state.score.value, u32::MAX);
}

#[test]
fn reset_clears_the_score_and_keeps_the_high_score() {
    let mut state = state(4, 6, 3);
    let output = state.game_logic(&Input { reset: true, ..quiet() });
    assert!(output.reset);
    assert_eq!(output.score_text, Some("Score: 0".to_string()));
    assert_eq!(output.high_score_text, None);
    assert_eq!(state.score.value, 0);
    assert_eq!(state.score.prefix, "");
    assert_eq!(state.high_score.value, 6);
    assert_eq!(state.feris_index, 3);
}

#[test]
fn reset_comes_after_the_catches_of_its_frame() {
    let mut state = state(6, 6, 0);
    let output = state.game_logic(&Input {
        collisions: vec![meeting("player", "feris0")],
        reset: true,
        ..quiet()
    });
    assert_eq!(output.removed, vec!["feris0"]);
    assert_eq!(output.jingles, 1);
    assert_eq!(output.score_text, Some("Score: 0".to_string()));
    assert_eq!(output.high_score_text, Some("High Score: 7".to_string()));
    assert_eq!(state.score.value, 0);
    assert_eq!(state.high_score.value, 7);
}

#[test]
fn reset_forgets_the_prefix_of_the_score() {
    let mut state = GameState {
        high_score: Score::new(1, "High "),
        score: Score::new(1, "My "),
        feris_index: 0,
    };
    let output = state.game_logic(&Input { reset: true, ..quiet() });
    assert_eq!(output.score_text, Some("Score: 0".to_string()));
    assert_eq!(state.score.prefix, "");
}

#[test]
fn no_two_spawned_sprites_share_a_label() {
    let mut state = GameState::default();
    let mut labels = Vec::new();
    for frame in 0..50 {
        let output = state.game_logic(&Input {
            click: frame % 2 == 0,
            spawn_due: frame % 3 == 0,
            ..quiet()
        });
        labels.extend(output.spawn_at_cursor);
        labels.extend(output.spawn_at_random);
    }
    assert_eq!(labels.len(), 42);
    for (i, first) in labels.iter().enumerate() {
        assert!(!is_player(first));
        for second in &labels[i + 1..] {
            assert_ne!(first, second);
        }
    }
}

#[test]
fn a_frame_has_room_unless_a_counter_is_full() {
    let catch = Input { collisions: vec![meeting("player", "feris0")], ..quiet() };
    let miss = Input { collisions: vec![meeting("feris1", "feris0")], ..quiet() };
    let click = Input { click: true, ..quiet() };
    let both = Input { click: true, spawn_due: true, ..quiet() };
    assert!(state(0, 0, 0).has_room_for(&both));
    assert!(state(u32::MAX - 1, 0, 0).has_room_for(&catch));
    assert!(!state(u32::MAX, 0, 0).has_room_for(&catch));
    assert!(state(u32::MAX, 0, 0).has_room_for(&miss));
    assert!(state(u32::MAX, 0, 0).has_room_for(&quiet()));
    assert!(state(0, 0, u32::MAX - 1).has_room_for(&click));
    assert!(!state(0, 0, u32::MAX - 1).has_room_for(&both));
    assert!(!state(0, 0, u32::MAX).has_room_for(&click));
    assert!(state(0, 0, u32::MAX).has_room_for(&catch));
}

#[test]
fn catches_are_told_from_other_collisions() {
    assert!(catches(&meeting("player", "feris0")));
    assert!(catches(&meeting("feris0", "player")));
    assert!(!catches(&parting("player", "feris0")));
    assert!(!catches(&meeting("feris1", "feris0")));
    assert!(!catches(&meeting("player", "player")));
}
