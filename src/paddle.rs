use crate::geometry::{in_limit, Rect, MAX_SCREEN};
use vstd::prelude::*;

verus! {

pub const PADDLE_WIDTH: i64 = 128;

pub const PADDLE_HEIGHT: i64 = 18;

/// How far one discrete move shifts the paddle.
pub const PADDLE_STEP: i64 = 10;

/// Height of the paddle's center line above the bottom of the screen.
pub const PADDLE_LIFT: i64 = 64;

/// The one movement a frame applies to the paddle.
#[derive(Clone, Copy, Debug, PartialEq, Eq, Structural)]
pub enum InputAction {
    Stay,
    MoveLeft,
    MoveRight,
    /// Center the paddle on this horizontal position.
    PosX(i64),
}

/// The player's paddle: top-left corner `(x, y)`, width `w`, height `h`.
#[derive(Clone, Copy, Debug, PartialEq, Eq, Structural)]
pub struct Paddle {
    pub x: i64,
    pub y: i64,
    pub w: i64,
    pub h: i64,
}

/// A screen the game can be played on: wide enough for the paddle.
pub open spec fn screen_ok(screen_w: int, screen_h: int) -> bool {
    PADDLE_WIDTH <= screen_w <= MAX_SCREEN && 0 <= screen_h <= MAX_SCREEN
}

pub open spec fn clamp(v: int, lo: int, hi: int) -> int {
    if v < lo {
        lo
    } else if v > hi {
        hi
    } else {
        v
    }
}

/// The paddle at the start of a round: centered horizontally, its center line
/// `PADDLE_LIFT` above the bottom.
pub open spec fn paddle_start(screen_w: int, screen_h: int) -> Paddle {
    Paddle {
        x: (screen_w / 2 - PADDLE_WIDTH / 2) as i64,
        y: (screen_h - PADDLE_LIFT - PADDLE_HEIGHT / 2) as i64,
        w: PADDLE_WIDTH,
        h: PADDLE_HEIGHT,
    }
}

/// Where the action asks the paddle's left edge to go, before clamping.
pub open spec fn wanted_x(p: Paddle, action: InputAction) -> int {
    match action {
        InputAction::Stay => p.x as int,
        InputAction::MoveLeft => p.x - PADDLE_STEP,
        InputAction::MoveRight => p.x + PADDLE_STEP,
        InputAction::PosX(v) => v - p.w / 2,
    }
}

/// The paddle after one action: moved, then held inside the screen.
pub open spec fn paddle_moved(p: Paddle, action: InputAction, screen_w: int) -> Paddle {
    Paddle { x: clamp(wanted_x(p, action), 0, screen_w - p.w) as i64, ..p }
}

impl Paddle {
    /// Fixed size and a position within the coordinate limit.
    pub open spec fn wf(self) -> bool {
        self.w == PADDLE_WIDTH && self.h == PADDLE_HEIGHT && in_limit(self.x) && in_limit(self.y)
    }

    /// Lies inside the screen horizontally.
    pub open spec fn inside(self, screen_w: int) -> bool {
        0 <= self.x <= screen_w - self.w
    }

    pub fn new(screen_w: i64, screen_h: i64) -> (p: Paddle)
        requires
            screen_ok(screen_w as int, screen_h as int),
        ensures
            p == paddle_start(screen_w as int, screen_h as int),
            p.wf(),
            p.inside(screen_w as int),
    {
        Paddle {
            x: screen_w / 2 - PADDLE_WIDTH / 2,
            y: screen_h - PADDLE_LIFT - PADDLE_HEIGHT / 2,
            w: PADDLE_WIDTH,
            h: PADDLE_HEIGHT,
        }
    }

    /// The rectangle used for collision tests and drawing.
    pub fn rect(&self) -> (r: Rect)
        requires
            self.wf(),
        ensures
            r == (Rect { x: self.x, y: self.y, w: self.w, h: self.h }),
            r.wf(),
    {
        Rect { x: self.x, y: self.y, w: self.w, h: self.h }
    }

    pub fn global_center_x(&self) -> (c: i64)
        requires
            self.wf(),
        ensures
            c == self.x + self.w / 2,
    {
        self.x + self.center_x()
    }

    pub fn global_center_y(&self) -> (c: i64)
        requires
            self.wf(),
        ensures
            c == self.y + self.h / 2,
    {
        self.y + self.center_y()
    }

    /// Half the width: the center's offset from the left edge.
    pub fn center_x(&self) -> (c: i64)
        requires
            self.wf(),
        ensures
            c == self.w / 2,
    {
        self.w / 2
    }

    /// Half the height: the center's offset from the top edge.
    pub fn center_y(&self) -> (c: i64)
        requires
            self.wf(),
        ensures
            c == self.h / 2,
    {
        self.h / 2
    }

    /// Applies one action, then clamps the paddle into `[0, screen_w - w]`.
    pub fn update(&mut self, input_action: &InputAction, screen_w: i64)
        requires
            old(self).wf(),
            PADDLE_WIDTH <= screen_w <= MAX_SCREEN,
        ensures
            *final(self) == paddle_moved(*old(self), *input_action, screen_w as int),
            final(self).wf(),
            final(self).inside(screen_w as int),
    {
        let hi = screen_w - self.w;
        let wanted: i128 = match input_action {
            InputAction::Stay => self.x as i128,
            InputAction::MoveLeft => self.x as i128 - PADDLE_STEP as i128,
            InputAction::MoveRight => self.x as i128 + PADDLE_STEP as i128,
            InputAction::PosX(v) => *v as i128 - self.center_x() as i128,
        };
        self.x = if wanted < 0 {
            0
        } else if wanted > hi as i128 {
            hi
        } else {
            wanted as i64
        };
    }

    /// Puts the paddle back where a round starts; its size is left alone.
    pub fn reset(&mut self, screen_w: i64, screen_h: i64)
        requires
            old(self).wf(),
            screen_ok(screen_w as int, screen_h as int),
        ensures
            *final(self) == paddle_start(screen_w as int, screen_h as int),
            final(self).wf(),
    {
        self.x = screen_w / 2 - PADDLE_WIDTH / 2;
        self.y = screen_h - PADDLE_LIFT - PADDLE_HEIGHT / 2;
        self.w = PADDLE_WIDTH;
        self.h = PADDLE_HEIGHT;
    }
}

} // verus!
