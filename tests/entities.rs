use break_quad::ball::{Ball, BALL_RADIUS};
use break_quad::paddle::{InputAction, Paddle, PADDLE_HEIGHT, PADDLE_WIDTH};
use break_quad::quads::{generate_quads, remove_hit_quads, Quad};
use break_quad::geometry::{Circle, Rect};

#[test]
fn paddle_starts_centered_above_bottom() {
    let p = Paddle::new(640, 480);
    assert_eq!((p.x, p.y, p.w, p.h), (256, 407, PADDLE_WIDTH, PADDLE_HEIGHT));
    assert_eq!(p.global_center_x(), 320);
    assert_eq!(p.global_center_y(), 416);
    assert_eq!(p.rect(), Rect { x: 256, y: 407, w: 128, h: 18 });
}

#[test]
fn paddle_moves_by_steps_and_is_clamped() {
    let mut p = Paddle::new(640, 480);
    p.update(&InputAction::MoveLeft, 640);
    assert_eq!(p.x, 246);
    p.update(&InputAction::MoveRight, 640);
    p.update(&InputAction::MoveRight, 640);
    assert_eq!(p.x, 266);
    p.update(&InputAction::Stay, 640);
    assert_eq!(p.x, 266);
    for _ in 0..100 {
        p.update(&InputAction::MoveLeft, 640);
        assert!(p.x >= 0 && p.x <= 640 - p.w);
    }
    assert_eq!(p.x, 0);
    for _ in 0..100 {
        p.update(&InputAction::MoveRight, 640);
        assert!(p.x >= 0 && p.x <= 640 - p.w);
    }
    assert_eq!(p.x, 512);
}

#[test]
fn paddle_centers_on_pointer_within_screen() {
    let mut p = Paddle::new(640, 480);
    p.update(&InputAction::PosX(300), 640);
    assert_eq!(p.x, 236);
    p.update(&InputAction::PosX(10), 640);
    assert_eq!(p.x, 0);
    p.update(&InputAction::PosX(i64::MAX), 640);
    assert_eq!(p.x, 512);
    p.update(&InputAction::PosX(i64::MIN), 640);
    assert_eq!(p.x, 0);
}

#[test]
fn paddle_reset_restores_start() {
    let mut p = Paddle::new(640, 480);
    p.update(&InputAction::PosX(600), 640);
    p.reset(640, 480);
    assert_eq!(p, Paddle::new(640, 480));
}

#[test]
fn ball_flies_reflects_and_resets() {
    let mut b = Ball::new(320, 407);
    assert_eq!((b.x, b.y, b.r, b.vel_x, b.vel_y), (320, 389, BALL_RADIUS, 1, -1));
    b.update();
    assert_eq!((b.x, b.y), (330, 379));
    b.reflect_x();
    b.reflect_y();
    assert_eq!((b.vel_x, b.vel_y), (-1, 1));
    b.update();
    assert_eq!((b.x, b.y), (320, 389));
    b.reset();
    assert_eq!((b.x, b.y, b.vel_x, b.vel_y), (320, 389, 1, -1));
    b.set_position((100, 200));
    assert_eq!((b.x, b.y), (100, 182));
    assert_eq!(b.circle(), Circle { x: 100, y: 182, r: 18 });
}

#[test]
fn field_for_640_is_one_centered_row() {
    let quads = generate_quads(640);
    let xs: Vec<i64> = quads.iter().map(|q| q.rect.x).collect();
    assert_eq!(xs, vec![80, 176, 272, 368, 464]);
    for q in &quads {
        assert_eq!((q.rect.y, q.rect.w, q.rect.h), (32, 92, 28));
    }
}

#[test]
fn field_generation_is_repeatable() {
    assert_eq!(generate_quads(640), generate_quads(640));
    assert_eq!(generate_quads(1000), generate_quads(1000));
}

#[test]
fn narrow_screens_get_no_blocks() {
    assert!(generate_quads(0).is_empty());
    assert!(generate_quads(95).is_empty());
    assert!(generate_quads(191).is_empty());
    assert_eq!(generate_quads(192).len(), 1);
    assert_eq!(generate_quads(192)[0].rect.x, 48);
}

#[test]
fn odd_margin_rounds_down() {
    // 641 wide: five blocks, margin (641 - 480) / 2 = 80.
    let quads = generate_quads(641);
    assert_eq!(quads.len(), 5);
    assert_eq!(quads[0].rect.x, 80);
}

#[test]
fn sweep_removes_every_touched_block_in_order() {
    let mut quads = vec![
        Quad::new(Rect { x: 100, y: 32, w: 92, h: 28 }),
        Quad::new(Rect { x: 400, y: 32, w: 92, h: 28 }),
        Quad::new(Rect { x: 160, y: 60, w: 20, h: 20 }),
        Quad::new(Rect { x: 600, y: 32, w: 92, h: 28 }),
    ];
    let ball = Circle { x: 150, y: 50, r: 18 };
    let removed = remove_hit_quads(&ball, &mut quads);
    assert_eq!(removed, 2);
    let xs: Vec<i64> = quads.iter().map(|q| q.rect.x).collect();
    assert_eq!(xs, vec![400, 600]);
    assert_eq!(remove_hit_quads(&ball, &mut quads), 0);
    assert_eq!(quads.len(), 2);
}
