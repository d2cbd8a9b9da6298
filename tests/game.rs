use break_quad::game::{FrameInput, GameState, PaddleBounce};
use break_quad::geometry::Rect;
use break_quad::paddle::Paddle;
use break_quad::quads::{generate_quads, Quad};

fn idle_input() -> FrameInput {
    FrameInput {
        quit: false,
        move_left: false,
        move_right: false,
        launch: false,
        restart: false,
        pointer_x: 0,
        pointer_y: 0,
    }
}

fn new_game() -> GameState {
    GameState::new(640, 480, (0, 0), PaddleBounce::Unconditional)
}

#[test]
fn new_game_rides_the_paddle() {
    let g = new_game();
    assert_eq!((g.paddle.x, g.paddle.y), (256, 407));
    assert_eq!((g.ball.x, g.ball.y, g.ball.vel_x, g.ball.vel_y), (320, 389, 1, -1));
    assert_eq!(g.quads, generate_quads(640));
    assert!(!g.launched);
    assert_eq!(g.score, 0);
    assert!(g.has_headroom());
}

#[test]
fn quit_changes_nothing() {
    let mut g = new_game();
    let input = FrameInput { quit: true, move_left: true, ..idle_input() };
    assert!(!g.update(&input));
    assert_eq!(g.paddle.x, 256);
    assert!(!g.launched);
}

#[test]
fn left_wall_reflects_horizontally() {
    let mut g = new_game();
    g.launched = true;
    g.ball.x = 0;
    g.ball.y = 200;
    g.ball.vel_x = -1;
    g.check_walls();
    assert_eq!(g.ball.vel_x, 1);
    assert_eq!(g.ball.vel_y, -1);
}

#[test]
fn right_wall_reflects_horizontally() {
    let mut g = new_game();
    g.launched = true;
    g.ball.x = 640 - 18;
    g.ball.y = 200;
    g.ball.vel_x = 1;
    g.check_walls();
    assert_eq!(g.ball.vel_x, -1);
}

#[test]
fn top_wall_reflects_vertically() {
    let mut g = new_game();
    g.launched = true;
    g.ball.x = 300;
    g.ball.y = -18;
    g.check_walls();
    assert_eq!((g.ball.vel_x, g.ball.vel_y), (1, 1));
}

#[test]
fn wall_reflection_through_a_frame() {
    let mut g = new_game();
    g.launched = true;
    g.ball.x = 10;
    g.ball.y = 200;
    g.ball.vel_x = -1;
    assert!(g.update(&idle_input()));
    assert_eq!(g.ball.x, 0);
    assert_eq!(g.ball.vel_x, 1);
}

#[test]
fn miss_starts_a_new_round() {
    let mut g = new_game();
    g.launched = true;
    g.score = 300;
    g.quads.truncate(2);
    g.paddle.x = 0;
    g.ball.x = 300;
    g.ball.y = 475;
    g.ball.vel_y = 1;
    assert!(g.update(&idle_input()));
    assert!(!g.launched);
    assert_eq!(g.paddle, Paddle::new(640, 480));
    assert_eq!((g.ball.vel_x, g.ball.vel_y), (1, -1));
    assert_eq!(g.quads, generate_quads(640));
    assert_eq!(g.score, 300);
}

#[test]
fn launch_key_frees_the_ball() {
    let mut g = new_game();
    let input = FrameInput { launch: true, ..idle_input() };
    g.update(&input);
    assert!(g.launched);
    assert_eq!((g.ball.x, g.ball.y), (330, 379));
}

#[test]
fn direction_key_wins_over_launch() {
    let mut g = new_game();
    let input = FrameInput { launch: true, move_left: true, ..idle_input() };
    g.update(&input);
    assert!(!g.launched);
    assert_eq!(g.paddle.x, 246);
    assert_eq!(g.ball.x, 310);
}

#[test]
fn restart_resets_the_round_but_keeps_the_score() {
    let mut g = new_game();
    g.launched = true;
    g.score = 500;
    g.quads.clear();
    g.ball.x = 100;
    g.ball.y = 200;
    g.ball.vel_x = -1;
    g.paddle.x = 10;
    let input = FrameInput { restart: true, ..idle_input() };
    g.update(&input);
    assert!(!g.launched);
    assert_eq!(g.paddle, Paddle::new(640, 480));
    assert_eq!((g.ball.x, g.ball.y, g.ball.vel_x), (320, 389, 1));
    assert_eq!(g.quads, generate_quads(640));
    assert_eq!(g.score, 500);
}

#[test]
fn restart_is_ignored_while_moving() {
    let mut g = new_game();
    g.launched = true;
    g.ball.x = 100;
    g.ball.y = 200;
    let input = FrameInput { restart: true, move_right: true, ..idle_input() };
    g.update(&input);
    assert!(g.launched);
    assert_eq!(g.paddle.x, 266);
}

#[test]
fn pointer_motion_overrides_a_key_move() {
    let mut g = new_game();
    let input = FrameInput { move_left: true, pointer_x: 500, pointer_y: 10, ..idle_input() };
    g.update(&input);
    assert_eq!(g.paddle.x, 436);
    assert_eq!(g.last_pointer, (500, 10));
    // The pointer stays put: the key move applies again.
    g.update(&input);
    assert_eq!(g.paddle.x, 426);
}

#[test]
fn sweep_scores_each_touched_block() {
    let mut g = new_game();
    g.quads = vec![
        Quad::new(Rect { x: 100, y: 32, w: 92, h: 28 }),
        Quad::new(Rect { x: 400, y: 32, w: 92, h: 28 }),
        Quad::new(Rect { x: 160, y: 60, w: 20, h: 20 }),
    ];
    g.ball.x = 150;
    g.ball.y = 50;
    g.score = 100;
    let removed = g.clear_hit_quads();
    assert_eq!(removed, 2);
    assert_eq!(g.quads.len(), 1);
    assert_eq!(g.quads[0].rect.x, 400);
    assert_eq!(g.score, 300);
}

#[test]
fn ball_breaks_a_block_in_flight() {
    let mut g = new_game();
    g.launched = true;
    // Next frame puts the ball at (90, 70), touching the first block's bottom edge.
    g.ball.x = 80;
    g.ball.y = 80;
    assert!(g.update(&idle_input()));
    assert_eq!(g.quads.len(), 4);
    assert_eq!(g.quads[0].rect.x, 176);
    assert_eq!(g.score, 100);
}

#[test]
fn speed_stays_constant_over_many_frames() {
    let mut g = new_game();
    g.update(&FrameInput { launch: true, ..idle_input() });
    for _ in 0..2000 {
        let (x, y) = (g.ball.x, g.ball.y);
        assert!(g.has_headroom());
        g.update(&idle_input());
        assert!(g.ball.vel_x == 1 || g.ball.vel_x == -1);
        assert!(g.ball.vel_y == 1 || g.ball.vel_y == -1);
        if g.launched {
            assert!((g.ball.x - x).abs() == 10 && (g.ball.y - y).abs() == 10);
        }
        assert!(g.paddle.x >= 0 && g.paddle.x <= 640 - g.paddle.w);
    }
}

#[test]
fn unconditional_bounce_off_the_paddle() {
    let mut g = new_game();
    g.launched = true;
    g.ball.x = 320;
    g.ball.y = 400;
    g.ball.vel_y = 1;
    g.check_paddle();
    assert_eq!(g.ball.vel_y, -1);
}

#[test]
fn positional_bounce_needs_the_ball_within_the_span() {
    let mut g = GameState::new(640, 480, (0, 0), PaddleBounce::Positional);
    g.launched = true;
    g.ball.x = 300;
    g.ball.y = 395;
    g.ball.vel_y = 1;
    g.check_paddle();
    assert_eq!(g.ball.vel_y, -1);
    g.ball.x = 250;
    g.check_paddle();
    assert_eq!(g.ball.vel_y, -1);
    g.ball.x = 300;
    g.ball.y = 380;
    g.check_paddle();
    assert_eq!(g.ball.vel_y, -1);
}
