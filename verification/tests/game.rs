use flappy_dragon::constants::{FRAME_DURATION, SCREEN_HEIGHT, SCREEN_WIDTH};
use flappy_dragon::game::{Frame, GameMode, Key, Scene, State};
use flappy_dragon::obstacle::{Cell, Obstacle};
use flappy_dragon::player::{Player, Sprite};

fn in_play(player: Player, obstacle: Obstacle, score: u32, frame_time: u32) -> State {
    State { player, frame_time, mode: GameMode::Playing, obstacle, score }
}

fn in_band(gap_y: i32) -> bool {
    SCREEN_HEIGHT / 5 <= gap_y && gap_y < SCREEN_HEIGHT / 2
}

#[test]
fn constants_have_their_values() {
    assert_eq!(SCREEN_WIDTH, 40);
    assert_eq!(SCREEN_HEIGHT, 25);
    assert_eq!(FRAME_DURATION, 75_000_000);
}

#[test]
fn new_game_waits_on_the_title_screen() {
    let state = State::new();
    assert_eq!(state.mode, GameMode::Menu);
    assert_eq!(state.score, 0);
    assert_eq!(state.frame_time, 0);
    assert_eq!(state.player, Player { x: 5, y: 120, velocity: 0, frame: 0 });
    assert_eq!(state.obstacle.x, 40);
    assert_eq!(state.obstacle.size, 10);
    assert!(in_band(state.obstacle.gap_y));
}

#[test]
fn restart_from_menu_starts_play() {
    let mut state = State::new();
    let frame = state.tick(16_000_000, Some(Key::Restart));
    assert_eq!(frame, Frame { scene: Scene::Menu, quitting: false });
    assert_eq!(state.mode, GameMode::Playing);
    assert_eq!(state.score, 0);
    assert_eq!(state.frame_time, 0);
    assert_eq!(state.player, Player { x: 5, y: 120, velocity: 0, frame: 0 });
    assert_eq!(state.obstacle.x, 40);
    assert_eq!(state.obstacle.size, 10);
    assert!(in_band(state.obstacle.gap_y));
}

#[test]
fn menu_ignores_time_and_other_keys() {
    let mut state = State::new();
    let before = state;
    assert_eq!(state.tick(1_000_000_000, None), Frame { scene: Scene::Menu, quitting: false });
    assert_eq!(state, before);
    assert_eq!(state.tick(80_000_000, Some(Key::Flap)), Frame { scene: Scene::Menu, quitting: false });
    assert_eq!(state, before);
}

#[test]
fn menu_quit_asks_to_end() {
    let mut state = State::new();
    let before = state;
    assert_eq!(state.tick(0, Some(Key::Quit)), Frame { scene: Scene::Menu, quitting: true });
    assert_eq!(state, before);
}

#[test]
fn no_step_until_the_threshold_is_passed() {
    let mut state = State::new();
    state.tick(0, Some(Key::Restart));
    let start = state.player;

    state.tick(74_999_999, None);
    assert_eq!(state.player, start);
    assert_eq!(state.frame_time, 74_999_999);

    // Exactly the threshold is not yet beyond it.
    state.tick(1, None);
    assert_eq!(state.player, start);
    assert_eq!(state.frame_time, 75_000_000);

    state.tick(1, None);
    assert_eq!(state.player, Player { x: 6, y: 121, velocity: 1, frame: 1 });
    assert_eq!(state.frame_time, 0);
    assert_eq!(state.mode, GameMode::Playing);
}

#[test]
fn a_long_stall_still_makes_one_step_only() {
    let mut state = State::new();
    state.tick(0, Some(Key::Restart));
    state.tick(u32::MAX, None);
    assert_eq!(state.player, Player { x: 6, y: 121, velocity: 1, frame: 1 });
    assert_eq!(state.frame_time, 0);
    state.tick(30_000_000, None);
    assert_eq!(state.player.x, 6);
    assert_eq!(state.frame_time, 30_000_000);
}

#[test]
fn flap_is_taken_at_once_without_a_step() {
    let mut state = State::new();
    state.tick(0, Some(Key::Restart));
    state.tick(10, Some(Key::Flap));
    assert_eq!(state.player, Player { x: 5, y: 120, velocity: -9, frame: 0 });
    assert_eq!(state.frame_time, 10);
}

#[test]
fn flap_in_a_stepping_callback_comes_before_the_step() {
    let mut state = State::new();
    state.tick(0, Some(Key::Restart));
    let frame = state.tick(76_000_000, Some(Key::Flap));
    assert_eq!(state.player, Player { x: 6, y: 112, velocity: -8, frame: 1 });
    assert_eq!(state.frame_time, 0);
    assert_eq!(state.mode, GameMode::Playing);
    match frame.scene {
        Scene::Playing { sprite, score, .. } => {
            assert_eq!(sprite, Sprite { y: 112, velocity: -8, glyph: 1 });
            assert_eq!(score, 0);
        }
        other => panic!("unexpected scene {:?}", other),
    }
}

#[test]
fn a_flap_can_save_the_dragon_in_the_callback_that_would_end_it() {
    let obstacle = Obstacle::with_gap(40, 7, 0);
    let falling = Player { x: 10, y: 245, velocity: 5, frame: 0 };
    let mut lost = in_play(falling, obstacle, 0, 0);
    lost.tick(75_000_001, None);
    assert_eq!(lost.player.y, 251);
    assert_eq!(lost.mode, GameMode::End);
    let mut saved = in_play(falling, obstacle, 0, 0);
    saved.tick(75_000_001, Some(Key::Flap));
    assert_eq!(saved.player, Player { x: 11, y: 237, velocity: -8, frame: 1 });
    assert_eq!(saved.mode, GameMode::Playing);
}

#[test]
fn two_callbacks_of_just_over_half_a_frame_make_a_step() {
    let mut state = State::new();
    state.tick(0, Some(Key::Restart));
    state.tick(37_500_500, None);
    assert_eq!(state.player.x, 5);
    assert_eq!(state.frame_time, 37_500_500);
    state.tick(37_500_500, None);
    assert_eq!(state.player, Player { x: 6, y: 121, velocity: 1, frame: 1 });
    assert_eq!(state.frame_time, 0);
}

#[test]
fn play_ignores_restart_and_quit_keys() {
    let mut state = State::new();
    state.tick(0, Some(Key::Restart));
    let before = state;
    let frame = state.tick(0, Some(Key::Quit));
    assert!(!frame.quitting);
    assert_eq!(state, before);
    let frame = state.tick(0, Some(Key::Restart));
    assert!(!frame.quitting);
    assert_eq!(state, before);
}

#[test]
fn falling_below_the_playfield_ends_the_game() {
    let obstacle = Obstacle::with_gap(40, 7, 0);
    let mut state = in_play(Player { x: 10, y: 245, velocity: 5, frame: 0 }, obstacle, 0, 0);
    let frame = state.tick(75_000_001, None);
    assert_eq!(state.player, Player { x: 11, y: 251, velocity: 6, frame: 1 });
    assert_eq!(state.mode, GameMode::End);
    assert_eq!(state.score, 0);
    assert!(!frame.quitting);
    match frame.scene {
        Scene::Playing { sprite, .. } => assert_eq!(sprite.y, 251),
        other => panic!("unexpected scene {:?}", other),
    }
}

#[test]
fn the_bottom_edge_itself_is_still_in_play() {
    let obstacle = Obstacle::with_gap(40, 7, 0);
    let mut state = in_play(Player { x: 10, y: 244, velocity: 5, frame: 0 }, obstacle, 0, 0);
    state.tick(75_000_001, None);
    assert_eq!(state.player.y, 250);
    assert_eq!(state.mode, GameMode::Playing);
    state.tick(75_000_001, None);
    assert_eq!(state.player.y, 257);
    assert_eq!(state.mode, GameMode::End);
}

#[test]
fn a_dragon_left_alone_falls_out_in_sixteen_steps() {
    let mut state = State::new();
    state.tick(0, Some(Key::Restart));
    for step in 1..=15 {
        state.tick(75_000_001, None);
        assert_eq!(state.mode, GameMode::Playing, "step {}", step);
        assert_eq!(state.player.y, 120 + step * (step + 1) / 2);
    }
    state.tick(75_000_001, None);
    assert_eq!(state.player, Player { x: 21, y: 256, velocity: 16, frame: 4 });
    assert_eq!(state.mode, GameMode::End);
    assert_eq!(state.score, 0);
}

#[test]
fn passing_a_wall_scores_and_brings_the_next() {
    let obstacle = Obstacle::with_gap(40, 7, 0);
    let mut state = in_play(Player { x: 39, y: 70, velocity: 0, frame: 0 }, obstacle, 0, 0);

    // Into the wall's column, through the gap.
    state.tick(75_000_001, None);
    assert_eq!(state.player.x, 40);
    assert_eq!(state.mode, GameMode::Playing);
    assert_eq!(state.score, 0);
    assert_eq!(state.obstacle, obstacle);

    // Past it.
    let frame = state.tick(75_000_001, None);
    assert_eq!(state.player, Player { x: 41, y: 73, velocity: 2, frame: 2 });
    assert_eq!(state.mode, GameMode::Playing);
    assert_eq!(state.score, 1);
    assert_eq!(state.obstacle.x, 41 + SCREEN_WIDTH);
    assert_eq!(state.obstacle.size, 9);
    assert!(in_band(state.obstacle.gap_y));

    // The callback drew the wall it passed, one column behind the dragon,
    // and the score it had on entry.
    let mut passed = obstacle;
    let mut expected: Vec<Cell> = Vec::new();
    expected.push(Cell { x: -1, y: 0 });
    expected.push(Cell { x: -1, y: 1 });
    for y in 12..25 {
        expected.push(Cell { x: -1, y });
    }
    assert_eq!(passed.render(41), expected);
    assert_eq!(
        frame,
        Frame {
            scene: Scene::Playing {
                sprite: Sprite { y: 73, velocity: 2, glyph: 2 },
                score: 0,
                walls: expected,
            },
            quitting: false,
        }
    );

    // No further point until the next wall.
    state.tick(75_000_001, None);
    assert_eq!(state.score, 1);
    assert_eq!(state.obstacle.x, 81);
}

#[test]
fn later_walls_have_narrower_gaps() {
    let mut state = in_play(
        Player { x: 500, y: 80, velocity: 0, frame: 0 },
        Obstacle::with_gap(500, 8, 6),
        6,
        0,
    );
    state.tick(75_000_001, None);
    assert_eq!(state.score, 7);
    assert_eq!(state.obstacle.x, 541);
    assert_eq!(state.obstacle.size, 3);
    let mut late = in_play(
        Player { x: 900, y: 80, velocity: 0, frame: 0 },
        Obstacle::with_gap(900, 8, 20),
        20,
        0,
    );
    late.tick(75_000_001, None);
    assert_eq!(late.score, 21);
    assert_eq!(late.obstacle.size, 2);
}

#[test]
fn striking_the_wall_ends_the_game() {
    let obstacle = Obstacle::with_gap(40, 7, 0);
    let mut below = in_play(Player { x: 39, y: 130, velocity: 0, frame: 0 }, obstacle, 3, 0);
    below.tick(75_000_001, None);
    assert_eq!(below.player.x, 40);
    assert_eq!(below.mode, GameMode::End);
    assert_eq!(below.score, 3);
    assert_eq!(below.obstacle, obstacle);

    let mut above = in_play(Player { x: 39, y: 18, velocity: 0, frame: 0 }, obstacle, 3, 0);
    above.tick(75_000_001, None);
    assert_eq!(above.player.y, 19);
    assert_eq!(above.mode, GameMode::End);

    let mut through = in_play(Player { x: 39, y: 19, velocity: 0, frame: 0 }, obstacle, 3, 0);
    through.tick(75_000_001, None);
    assert_eq!(through.player.y, 20);
    assert_eq!(through.mode, GameMode::Playing);
}

#[test]
fn the_wall_is_checked_on_callbacks_without_a_step_too() {
    let obstacle = Obstacle::with_gap(40, 7, 0);
    let mut state = in_play(Player { x: 40, y: 200, velocity: 0, frame: 0 }, obstacle, 0, 0);
    state.tick(5, None);
    assert_eq!(state.player.x, 40);
    assert_eq!(state.mode, GameMode::End);
}

#[test]
fn a_fall_and_a_pass_in_one_callback_both_count() {
    let obstacle = Obstacle::with_gap(40, 7, 0);
    let mut state = in_play(Player { x: 40, y: 240, velocity: 19, frame: 0 }, obstacle, 2, 0);
    state.tick(75_000_001, None);
    assert_eq!(state.player, Player { x: 41, y: 260, velocity: 20, frame: 1 });
    assert_eq!(state.mode, GameMode::End);
    assert_eq!(state.score, 3);
    assert_eq!(state.obstacle.x, 81);
    assert_eq!(state.obstacle.size, 7);
}

#[test]
fn quit_on_the_game_over_screen_asks_to_end() {
    let mut state = State::new();
    state.tick(0, Some(Key::Restart));
    for _ in 0..16 {
        state.tick(75_000_001, None);
    }
    assert_eq!(state.mode, GameMode::End);
    let before = state;
    let frame = state.tick(16_000_000, Some(Key::Quit));
    assert_eq!(frame, Frame { scene: Scene::End { score: 0 }, quitting: true });
    assert_eq!(state, before);
}

#[test]
fn game_over_screen_waits() {
    let mut state = State {
        player: Player { x: 77, y: 260, velocity: 20, frame: 3 },
        frame_time: 0,
        mode: GameMode::End,
        obstacle: Obstacle::with_gap(81, 6, 1),
        score: 1,
    };
    let before = state;
    assert_eq!(
        state.tick(90_000_000, None),
        Frame { scene: Scene::End { score: 1 }, quitting: false }
    );
    assert_eq!(state, before);
    assert_eq!(
        state.tick(90_000_000, Some(Key::Flap)),
        Frame { scene: Scene::End { score: 1 }, quitting: false }
    );
    assert_eq!(state, before);
}

#[test]
fn restart_after_game_over_resets_everything() {
    let mut state = State {
        player: Player { x: 77, y: 260, velocity: 20, frame: 3 },
        frame_time: 40_000_000,
        mode: GameMode::End,
        obstacle: Obstacle::with_gap(81, 6, 1),
        score: 1,
    };
    let frame = state.tick(1_000_000, Some(Key::Restart));
    // The screen that was up shows the score that was reached.
    assert_eq!(frame, Frame { scene: Scene::End { score: 1 }, quitting: false });
    assert_eq!(state.mode, GameMode::Playing);
    assert_eq!(state.score, 0);
    assert_eq!(state.frame_time, 0);
    assert_eq!(state.player, Player { x: 5, y: 120, velocity: 0, frame: 0 });
    assert_eq!(state.obstacle.x, 40);
    assert_eq!(state.obstacle.size, 10);
    assert!(in_band(state.obstacle.gap_y));
}

#[test]
fn a_steady_hand_clears_the_first_wall() {
    let mut state = State::new();
    state.tick(0, Some(Key::Restart));
    while state.player.x < 41 {
        let key = if state.player.y > 100 && state.player.velocity >= 0 {
            Some(Key::Flap)
        } else {
            None
        };
        state.tick(75_000_001, key);
        assert_eq!(state.mode, GameMode::Playing, "at column {}", state.player.x);
        if state.player.x == 40 {
            assert_eq!(state.player.y, 84);
            assert_eq!(state.score, 0);
        }
    }
    assert_eq!(state.player.y, 79);
    assert_eq!(state.score, 1);
    assert_eq!(state.obstacle.x, 81);
    assert_eq!(state.obstacle.size, 9);
}

#[test]
fn score_never_falls_while_in_play() {
    let mut state = State::new();
    state.tick(0, Some(Key::Restart));
    let mut last = state.score;
    for round in 0..2_000 {
        if state.mode != GameMode::Playing {
            break;
        }
        let key = if state.player.y > 100 && state.player.velocity >= 0 {
            Some(Key::Flap)
        } else {
            None
        };
        state.tick(40_000_000 + (round % 3) * 20_000_000, key);
        assert!(state.score == last || state.score == last + 1);
        assert!(state.player.x <= state.obstacle.x);
        assert!(state.obstacle.x <= state.player.x + SCREEN_WIDTH);
        last = state.score;
    }
    assert!(last >= 1);
}
