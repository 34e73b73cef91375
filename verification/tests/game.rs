//! Tests of the game controller: ball physics, paddle control, scoring.

use pong_core::game_controller::wall_step;
use pong_core::game_controller::ColorTag;
use pong_core::game_controller::GameConfig;
use pong_core::game_controller::GameController;
use pong_core::game_controller::Intent;
use pong_core::game_controller::SoundCue;

/// The standard arena: 800 by 600, 12 by 64 paddles ten pixels off the
/// walls, an eight-pixel ball.
fn config(launch_vx: i64, launch_vy: i64) -> GameConfig {
    GameConfig {
        window_width: 800,
        window_height: 600,
        paddle_width: 12,
        paddle_height: 64,
        paddle_wall_padding: 10,
        ball_breadth: 8,
        launch_vx,
        launch_vy,
    }
}

#[test]
fn config_validity() {
    assert!(config(7, 7).valid());
    assert!(!GameConfig { window_width: 0, ..config(7, 7) }.valid());
    assert!(!GameConfig { ball_breadth: 601, ..config(7, 7) }.valid());
    // Paddles must fit side by side inside the arena.
    assert!(!GameConfig { paddle_width: 395, ..config(7, 7) }.valid());
    // A launch displacement taller than the play range could bounce from
    // wall to wall within single ticks.
    assert!(!GameConfig { launch_vy: 593, ..config(7, 7) }.valid());
}

#[test]
fn new_initial_state() {
    let gc = GameController::new(config(7, 7));
    assert_eq!((gc.ball_x, gc.ball_y), (0, 0));
    assert_eq!((gc.ball_vx, gc.ball_vy), (7, 7));
    assert_eq!((gc.player_score, gc.opponent_score), (0, 0));
}

#[test]
fn restart_game_centers_ball() {
    let mut gc = GameController::new(config(7, 7));
    gc.tick(100);
    gc.restart_game();
    assert_eq!((gc.ball_x, gc.ball_y), (396, 296));
    assert_eq!((gc.ball_vx, gc.ball_vy), (7, 7));
}

#[test]
fn player_paddle_clamps_to_arena() {
    let mut gc = GameController::new(config(7, 7));
    gc.restart_game();
    gc.tick(-50);
    assert_eq!(gc.player_paddle_y, 0);
    gc.tick(10_000);
    assert_eq!(gc.player_paddle_y, 536);
    gc.tick(250);
    assert_eq!(gc.player_paddle_y, 250);
}

#[test]
fn opponent_paddle_tracks_ball_center() {
    let mut gc = GameController::new(config(7, 7));
    gc.restart_game();
    let before = gc.ball_y;
    gc.tick(300);
    // The tracking policy runs before the ball moves, half a paddle above
    // the ball's top edge.
    assert_eq!(gc.opponent_paddle_y, before - 32);
}

#[test]
fn paddle_deflects_leftward_ball() {
    // A leftward ball three pixels off the primary paddle's right edge:
    // the detector reports a horizontal hit at time 3/10, the ball advances
    // to rest against the paddle's right edge at x = 22 and its horizontal
    // velocity reflects; nobody scores.
    let mut gc = GameController::new(config(-10, 0));
    gc.ball_x = 25;
    gc.ball_y = 300;
    let intents = gc.tick(280);
    assert_eq!(gc.ball_x, 22);
    assert_eq!(gc.ball_y, 300);
    assert_eq!((gc.ball_vx, gc.ball_vy), (10, 0));
    assert_eq!((gc.player_score, gc.opponent_score), (0, 0));
    assert_eq!(intents[0], Intent::Sound { cue: SoundCue::PaddleHit });
}

#[test]
fn goal_crossing_scores_opponent() {
    // A leftward ball already past the paddle crosses x < 0 untouched: the
    // opponent scores exactly one point and the ball resets to the center
    // with the launch velocity.
    let mut gc = GameController::new(config(-10, 0));
    gc.ball_x = 5;
    gc.ball_y = 300;
    let intents = gc.tick(280);
    assert_eq!((gc.player_score, gc.opponent_score), (0, 1));
    assert_eq!((gc.ball_x, gc.ball_y), (396, 296));
    assert_eq!((gc.ball_vx, gc.ball_vy), (-10, 0));
    assert_eq!(intents[0], Intent::Sound { cue: SoundCue::PointLost });
}

#[test]
fn goal_crossing_scores_player() {
    // Mirrored: a rightward ball beyond the secondary paddle crosses the
    // right goal line.
    let mut gc = GameController::new(config(10, 0));
    gc.ball_x = 795;
    gc.ball_y = 300;
    gc.tick(280);
    assert_eq!((gc.player_score, gc.opponent_score), (1, 0));
    assert_eq!((gc.ball_x, gc.ball_y), (396, 296));
}

#[test]
fn goal_line_is_exclusive() {
    // Landing exactly on the goal line does not score.
    let mut gc = GameController::new(config(10, 0));
    gc.ball_x = 790;
    gc.ball_y = 300;
    gc.tick(280);
    assert_eq!((gc.player_score, gc.opponent_score), (0, 0));
    assert_eq!(gc.ball_x, 800);
}

#[test]
fn wall_step_clamps_and_reflects() {
    // A ball at y = 596 (breadth 8, arena height 600) moving down is clamped
    // to y = 592 and its vertical velocity sign flips.
    assert_eq!(wall_step(596, 9, 600, 8), Some((592, -9)));
    // The same at the top wall.
    assert_eq!(wall_step(3, -7, 600, 8), Some((0, 7)));
    // A move that stays inside the play range is no wall bounce.
    assert_eq!(wall_step(300, 7, 600, 8), None);
    // The clamp holds even from a position already outside the range.
    assert_eq!(wall_step(610, 5, 600, 8), Some((592, -5)));
}

#[test]
fn wall_bounce_tick_clamps_and_reflects() {
    let mut gc = GameController::new(config(7, 7));
    gc.ball_x = 100;
    gc.ball_y = 590;
    let intents = gc.tick(0);
    assert_eq!(gc.ball_y, 592);
    assert_eq!(gc.ball_x, 107);
    assert_eq!((gc.ball_vx, gc.ball_vy), (7, -7));
    assert_eq!(intents[0], Intent::Sound { cue: SoundCue::WallBounce });
    // A wall-bounce tick never scores.
    assert_eq!((gc.player_score, gc.opponent_score), (0, 0));
}

#[test]
fn graze_on_horizontal_face_does_not_reflect() {
    // A ball falling straight down onto the paddle's top face: the winning
    // normal is vertical, so the ball advances the full displacement without
    // reflecting and no paddle-hit cue is emitted.
    let mut gc = GameController::new(config(0, 30));
    gc.ball_x = 12;
    gc.ball_y = 260;
    let intents = gc.tick(280);
    assert_eq!((gc.ball_x, gc.ball_y), (12, 290));
    assert_eq!((gc.ball_vx, gc.ball_vy), (0, 30));
    assert!(intents.iter().all(|i| !matches!(i, Intent::Sound { .. })));
}

#[test]
fn ball_stays_in_vertical_range_and_keeps_speed() {
    // Whatever happens over many ticks, the wall-clamp invariant
    // 0 <= y <= height - breadth holds and the squared speed never changes.
    let mut gc = GameController::new(config(7, 7));
    gc.restart_game();
    let speed_sq = gc.ball_vx * gc.ball_vx + gc.ball_vy * gc.ball_vy;
    for i in 0..500i64 {
        gc.tick((i * 37) % 700);
        assert!(0 <= gc.ball_y && gc.ball_y <= 592);
        assert_eq!(gc.ball_vx * gc.ball_vx + gc.ball_vy * gc.ball_vy, speed_sq);
    }
}

#[test]
fn scoring_increments_exactly_one_side() {
    let mut gc = GameController::new(config(-10, 0));
    gc.ball_x = 5;
    gc.ball_y = 300;
    let before = (gc.player_score, gc.opponent_score);
    gc.tick(280);
    let after = (gc.player_score, gc.opponent_score);
    assert_eq!(after.0 + after.1, before.0 + before.1 + 1);
    assert!(after.0 == before.0 || after.1 == before.1);
}

#[test]
fn quiet_tick_emits_draw_intents_in_order() {
    // No bounce and no score: the intent list is exactly the two score
    // glyphs at thirds of the arena width, the two paddles, and the ball.
    let mut gc = GameController::new(config(7, 7));
    gc.restart_game();
    let intents = gc.tick(300);
    assert_eq!(intents.len(), 5);
    assert_eq!(intents[0], Intent::ScoreGlyph { value: 0, anchor_x: 266 });
    assert_eq!(intents[1], Intent::ScoreGlyph { value: 0, anchor_x: 532 });
    assert_eq!(
        intents[2],
        Intent::FillRect { x: 10, y: 300, w: 12, h: 64, color: ColorTag::Paddle }
    );
    assert_eq!(
        intents[3],
        Intent::FillRect { x: 778, y: 264, w: 12, h: 64, color: ColorTag::Paddle }
    );
    assert_eq!(
        intents[4],
        Intent::FillRect { x: 403, y: 303, w: 8, h: 8, color: ColorTag::Ball }
    );
}

#[test]
fn score_glyphs_show_updated_scores() {
    let mut gc = GameController::new(config(-10, 0));
    gc.ball_x = 5;
    gc.ball_y = 300;
    let intents = gc.tick(280);
    // The point-lost cue comes first, then the glyphs with the new score.
    assert_eq!(intents[0], Intent::Sound { cue: SoundCue::PointLost });
    assert_eq!(intents[1], Intent::ScoreGlyph { value: 1, anchor_x: 266 });
    assert_eq!(intents[2], Intent::ScoreGlyph { value: 0, anchor_x: 532 });
}
