use crate::ball::{
    advanced, reflected_x, reflected_y, relaunched, resting_on, Ball, BALL_RADIUS, BALL_SPEED,
};
use crate::geometry::{circle_rectangle_collision, collides, Circle, Rect, COORD_LIMIT};
use crate::paddle::{
    paddle_moved, paddle_start, screen_ok, InputAction, Paddle, PADDLE_HEIGHT, PADDLE_LIFT,
};
use crate::quads::{
    all_wf, generate_quads, hits, lemma_field_wf, lemma_sweep_partitions, quad_field,
    remove_hit_quads, survivors, Quad, QUAD_WIDTH,
};
use vstd::prelude::*;

verus! {

/// Points scored for each block destroyed.
pub const QUAD_SCORE: u64 = 100;

/// How the ball bounces off the paddle.
#[derive(Clone, Copy, Debug, PartialEq, Eq, Structural)]
pub enum PaddleBounce {
    /// Reflect vertically whenever the ball touches the paddle, from whatever side.
    Unconditional,
    /// Reflect vertically whenever the ball's lowest point is below the paddle's top
    /// and the ball lies strictly within the paddle's horizontal span, touching or not.
    Positional,
}

/// What the input backend reported for one frame.
#[derive(Clone, Copy, Debug, PartialEq, Eq, Structural)]
pub struct FrameInput {
    pub quit: bool,
    pub move_left: bool,
    pub move_right: bool,
    pub launch: bool,
    pub restart: bool,
    pub pointer_x: i64,
    pub pointer_y: i64,
}

/// The whole mutable world of the game.
pub struct GameState {
    pub screen_w: i64,
    pub screen_h: i64,
    pub paddle: Paddle,
    pub ball: Ball,
    pub quads: Vec<Quad>,
    /// The ball is in free flight rather than riding the paddle.
    pub launched: bool,
    pub score: u64,
    /// Pointer position seen on the previous frame.
    pub last_pointer: (i64, i64),
    pub bounce: PaddleBounce,
}

/// The game state as a mathematical value.
pub struct GameView {
    pub screen_w: int,
    pub screen_h: int,
    pub paddle: Paddle,
    pub ball: Ball,
    pub quads: Seq<Quad>,
    pub launched: bool,
    pub score: int,
    pub last_pointer: (i64, i64),
    pub bounce: PaddleBounce,
}

impl View for GameState {
    type V = GameView;

    open spec fn view(&self) -> GameView {
        GameView {
            screen_w: self.screen_w as int,
            screen_h: self.screen_h as int,
            paddle: self.paddle,
            ball: self.ball,
            quads: self.quads@,
            launched: self.launched,
            score: self.score as int,
            last_pointer: self.last_pointer,
            bounce: self.bounce,
        }
    }
}

pub open spec fn circle_of(b: Ball) -> Circle {
    Circle { x: b.x, y: b.y, r: b.r }
}

pub open spec fn rect_of(p: Paddle) -> Rect {
    Rect { x: p.x, y: p.y, w: p.w, h: p.h }
}

impl GameView {
    /// A playable screen, the paddle inside it at its row, a well-formed ball, and
    /// no more blocks than a full field holds.
    pub open spec fn wf(self) -> bool {
        &&& screen_ok(self.screen_w, self.screen_h)
        &&& self.paddle.wf()
        &&& self.paddle.inside(self.screen_w)
        &&& self.paddle.y == paddle_start(self.screen_w, self.screen_h).y
        &&& self.ball.wf()
        &&& all_wf(self.quads)
        &&& self.quads.len() <= self.screen_w / QUAD_WIDTH as int
        &&& 0 <= self.score
    }

    /// Room for one more frame in machine integers: the ball can take a step and the
    /// score can take a full field's worth of points.
    pub open spec fn has_headroom(self) -> bool {
        self.ball.has_room() && self.score_has_room()
    }

    /// The score can take a full field's worth of points.
    pub open spec fn score_has_room(self) -> bool {
        self.score + QUAD_SCORE * (self.screen_w / QUAD_WIDTH as int) <= u64::MAX
    }
}

/// The world at the start of a game: paddle centered, ball riding it, full field.
pub open spec fn initial_view(
    screen_w: int,
    screen_h: int,
    pointer: (i64, i64),
    bounce: PaddleBounce,
) -> GameView {
    let p = paddle_start(screen_w, screen_h);
    GameView {
        screen_w,
        screen_h,
        paddle: p,
        ball: Ball {
            x: (p.x + p.w / 2) as i64,
            y: (p.y - BALL_RADIUS) as i64,
            r: BALL_RADIUS,
            vel_x: 1,
            vel_y: -1i64,
        },
        quads: quad_field(screen_w),
        launched: false,
        score: 0,
        last_pointer: pointer,
        bounce,
    }
}

/// A new round: ball back on the paddle with its launch direction, paddle back at
/// its start, fresh field; the score stays.
pub open spec fn round_reset(v: GameView) -> GameView {
    GameView {
        launched: false,
        paddle: paddle_start(v.screen_w, v.screen_h),
        ball: relaunched(v.ball),
        quads: quad_field(v.screen_w),
        ..v
    }
}

pub open spec fn pointer_moved(v: GameView, input: FrameInput) -> bool {
    (input.pointer_x, input.pointer_y) != v.last_pointer
}

/// The movement for the frame: a held direction key, overridden by pointer motion.
pub open spec fn frame_action(v: GameView, input: FrameInput) -> InputAction {
    if pointer_moved(v, input) {
        InputAction::PosX(input.pointer_x)
    } else if input.move_left {
        InputAction::MoveLeft
    } else if input.move_right {
        InputAction::MoveRight
    } else {
        InputAction::Stay
    }
}

/// A launch is taken when no direction key is held and the ball rides the paddle.
pub open spec fn launches(v: GameView, input: FrameInput) -> bool {
    !input.move_left && !input.move_right && !v.launched && input.launch
}

/// A restart is taken when neither a direction key nor a launch came first.
pub open spec fn restarts(v: GameView, input: FrameInput) -> bool {
    !input.move_left && !input.move_right && !launches(v, input) && input.restart
}

/// Launch or restart as the input asks, remembering the pointer position.
pub open spec fn after_commands(v: GameView, input: FrameInput) -> GameView {
    let w = if launches(v, input) {
        GameView { launched: true, ..v }
    } else if restarts(v, input) {
        round_reset(v)
    } else {
        v
    };
    GameView { last_pointer: (input.pointer_x, input.pointer_y), ..w }
}

/// The paddle takes the action; the ball flies on, or rides the paddle's top center.
pub open spec fn after_move(v: GameView, action: InputAction) -> GameView {
    let p = paddle_moved(v.paddle, action, v.screen_w);
    let b = if v.launched {
        advanced(v.ball)
    } else {
        resting_on(v.ball, p.x + p.w / 2, p.y as int)
    };
    GameView { paddle: p, ball: b, ..v }
}

pub open spec fn at_side_wall(b: Ball, screen_w: int) -> bool {
    b.x <= 0 || screen_w <= b.x + b.r
}

pub open spec fn above_top(b: Ball) -> bool {
    b.y + b.r <= 0
}

pub open spec fn below_bottom(b: Ball, screen_h: int) -> bool {
    screen_h <= b.y
}

/// The first of: a side wall reflects horizontally, the top reflects vertically,
/// passing the bottom is a miss and starts a new round.
pub open spec fn after_walls(v: GameView) -> GameView {
    if at_side_wall(v.ball, v.screen_w) {
        GameView { ball: reflected_x(v.ball), ..v }
    } else if above_top(v.ball) {
        GameView { ball: reflected_y(v.ball), ..v }
    } else if below_bottom(v.ball, v.screen_h) {
        round_reset(v)
    } else {
        v
    }
}

pub open spec fn paddle_contact(bounce: PaddleBounce, b: Ball, p: Paddle) -> bool {
    match bounce {
        PaddleBounce::Unconditional => collides(circle_of(b), rect_of(p)),
        PaddleBounce::Positional => p.y < b.y + b.r && p.x < b.x && b.x + b.r < p.x + p.w,
    }
}

pub open spec fn after_paddle(v: GameView) -> GameView {
    if paddle_contact(v.bounce, v.ball, v.paddle) {
        GameView { ball: reflected_y(v.ball), ..v }
    } else {
        v
    }
}

/// Every block the ball touches goes, each scoring `QUAD_SCORE`.
pub open spec fn after_sweep(v: GameView) -> GameView {
    let c = circle_of(v.ball);
    GameView {
        quads: survivors(c, v.quads),
        score: v.score + QUAD_SCORE * hits(c, v.quads),
        ..v
    }
}

/// One frame: on quit nothing changes; otherwise commands, movement, walls, paddle,
/// blocks, in that order.
pub open spec fn next_frame(v: GameView, input: FrameInput) -> GameView {
    if input.quit {
        v
    } else {
        after_sweep(
            after_paddle(after_walls(after_move(after_commands(v, input), frame_action(v, input)))),
        )
    }
}

/// A sweep in which the ball touches exactly `k` blocks leaves exactly `k` fewer
/// blocks and adds exactly `QUAD_SCORE * k` to the score.
pub proof fn lemma_sweep_removes_and_scores(v: GameView, k: nat)
    requires
        hits(circle_of(v.ball), v.quads) == k,
    ensures
        after_sweep(v).quads.len() == v.quads.len() - k,
        after_sweep(v).score == v.score + QUAD_SCORE * k,
{
    lemma_sweep_partitions(circle_of(v.ball), v.quads);
}

/// A miss ends the flight: when the ball, after the frame's movement, has passed the
/// bottom of the screen away from the side walls, the frame ends with the ball riding
/// the paddle again, the paddle back at its centered start, and the ball heading
/// right and up. (This is for the unconditional paddle bounce.)
pub proof fn lemma_miss_resets(v: GameView, input: FrameInput)
    requires
        v.wf(),
        !input.quit,
        v.bounce == PaddleBounce::Unconditional,
        ({
            let m = after_move(after_commands(v, input), frame_action(v, input));
            below_bottom(m.ball, m.screen_h) && !at_side_wall(m.ball, m.screen_w)
        }),
    ensures
        ({
            let n = next_frame(v, input);
            &&& !n.launched
            &&& n.paddle == paddle_start(v.screen_w, v.screen_h)
            &&& n.ball.velocity() == (BALL_SPEED as int, -BALL_SPEED as int)
        }),
{
    let m = after_move(after_commands(v, input), frame_action(v, input));
    let w = after_walls(m);
    assert(w == round_reset(m));
    let p = w.paddle;
    let b = w.ball;
    let gy = b.y - (p.y + p.h);
    assert(gy >= PADDLE_LIFT - PADDLE_HEIGHT / 2);
    assert(gy * gy > b.r * b.r) by (nonlinear_arith)
        requires
            gy >= 55,
            b.r == 18,
    ;
    assert(!paddle_contact(w.bounce, b, p));
}

proof fn lemma_reset_wf(v: GameView)
    requires
        v.wf(),
    ensures
        round_reset(v).wf(),
{
    lemma_field_wf(v.screen_w);
}

impl GameState {
    pub fn new(screen_w: i64, screen_h: i64, pointer: (i64, i64), bounce: PaddleBounce) -> (s:
        GameState)
        requires
            screen_ok(screen_w as int, screen_h as int),
        ensures
            s@ == initial_view(screen_w as int, screen_h as int, pointer, bounce),
            s@.wf(),
    {
        let quads = generate_quads(screen_w);
        let paddle = Paddle::new(screen_w, screen_h);
        let ball = Ball::new(paddle.global_center_x(), paddle.y);
        proof {
            lemma_field_wf(screen_w as int);
        }
        GameState {
            screen_w,
            screen_h,
            paddle,
            ball,
            quads,
            launched: false,
            score: 0,
            last_pointer: pointer,
            bounce,
        }
    }

    /// Whether one more frame fits in machine integers.
    pub fn has_headroom(&self) -> (r: bool)
        requires
            self@.wf(),
        ensures
            r == self@.has_headroom(),
    {
        let b = &self.ball;
        let room = -COORD_LIMIT + BALL_SPEED <= b.x && b.x <= COORD_LIMIT - BALL_SPEED
            && -COORD_LIMIT + BALL_SPEED <= b.y && b.y <= COORD_LIMIT - BALL_SPEED;
        let cap = QUAD_SCORE * (self.screen_w / QUAD_WIDTH) as u64;
        room && self.score <= u64::MAX - cap
    }

    /// Starts a new round; the score is kept.
    pub fn reset_round(&mut self)
        requires
            old(self)@.wf(),
        ensures
            final(self)@ == round_reset(old(self)@),
            final(self)@.wf(),
    {
        self.launched = false;
        self.paddle.reset(self.screen_w, self.screen_h);
        self.ball.reset();
        self.quads = generate_quads(self.screen_w);
        proof {
            lemma_reset_wf(old(self)@);
        }
    }

    /// Takes a launch or restart, records the pointer, and returns the frame's movement.
    pub fn resolve_input(&mut self, input: &FrameInput) -> (action: InputAction)
        requires
            old(self)@.wf(),
        ensures
            action == frame_action(old(self)@, *input),
            final(self)@ == after_commands(old(self)@, *input),
            final(self)@.wf(),
    {
        let mut action = InputAction::Stay;
        if input.move_left {
            action = InputAction::MoveLeft;
        } else if input.move_right {
            action = InputAction::MoveRight;
        } else if !self.launched && input.launch {
            self.launched = true;
        } else if input.restart {
            self.reset_round();
        }
        if input.pointer_x != self.last_pointer.0 || input.pointer_y != self.last_pointer.1 {
            action = InputAction::PosX(input.pointer_x);
        }
        self.last_pointer = (input.pointer_x, input.pointer_y);
        action
    }

    /// Moves the paddle, then flies the ball or keeps it riding the paddle.
    pub fn move_entities(&mut self, action: &InputAction)
        requires
            old(self)@.wf(),
            old(self)@.has_headroom(),
        ensures
            final(self)@ == after_move(old(self)@, *action),
            final(self)@.wf(),
    {
        self.paddle.update(action, self.screen_w);
        if self.launched {
            self.ball.update();
        } else {
            let cx = self.paddle.global_center_x();
            self.ball.set_position((cx, self.paddle.y));
        }
    }

    /// Reflects off a side wall or the top, or starts a new round on a miss.
    pub fn check_walls(&mut self)
        requires
            old(self)@.wf(),
        ensures
            final(self)@ == after_walls(old(self)@),
            final(self)@.wf(),
    {
        if self.ball.x <= 0 || self.screen_w <= self.ball.x + self.ball.r {
            self.ball.reflect_x();
        } else if self.ball.y + self.ball.r <= 0 {
            self.ball.reflect_y();
        } else if self.screen_h <= self.ball.y {
            self.reset_round();
        }
    }

    /// Reflects the ball vertically on contact with the paddle.
    pub fn check_paddle(&mut self)
        requires
            old(self)@.wf(),
        ensures
            final(self)@ == after_paddle(old(self)@),
            final(self)@.wf(),
    {
        let contact = match self.bounce {
            PaddleBounce::Unconditional => circle_rectangle_collision(
                &self.ball.circle(),
                &self.paddle.rect(),
            ),
            PaddleBounce::Positional => self.paddle.y < self.ball.y + self.ball.r && self.paddle.x
                < self.ball.x && self.ball.x + self.ball.r < self.paddle.x + self.paddle.w,
        };
        if contact {
            self.ball.reflect_y();
        }
    }

    /// Removes every block the ball touches and scores each; returns how many went.
    pub fn clear_hit_quads(&mut self) -> (removed: usize)
        requires
            old(self)@.wf(),
            old(self)@.score_has_room(),
        ensures
            final(self)@ == after_sweep(old(self)@),
            removed == hits(circle_of(old(self).ball), old(self)@.quads),
            final(self)@.wf(),
    {
        let c = self.ball.circle();
        let removed = remove_hit_quads(&c, &mut self.quads);
        self.score = self.score + QUAD_SCORE * removed as u64;
        removed
    }

    /// Runs one frame. Returns `false`, changing nothing, when the input asks to quit.
    pub fn update(&mut self, input: &FrameInput) -> (running: bool)
        requires
            old(self)@.wf(),
            old(self)@.has_headroom(),
        ensures
            running == !input.quit,
            final(self)@ == next_frame(old(self)@, *input),
            final(self)@.wf(),
            final(self).paddle.inside(final(self).screen_w as int),
            final(self).ball.velocity().0 == BALL_SPEED || final(self).ball.velocity().0
                == -BALL_SPEED,
            final(self).ball.velocity().1 == BALL_SPEED || final(self).ball.velocity().1
                == -BALL_SPEED,
    {
        if input.quit {
            return false;
        }
        let action = self.resolve_input(input);
        self.move_entities(&action);
        self.check_walls();
        self.check_paddle();
        self.clear_hit_quads();
        true
    }
}

} // verus!
