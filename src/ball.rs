use crate::geometry::{in_limit, Circle, COORD_LIMIT};
use vstd::prelude::*;

verus! {

pub const BALL_RADIUS: i64 = 18;

/// Distance the ball covers along each axis in one frame.
pub const BALL_SPEED: i64 = 10;

/// The ball: center `(x, y)`, radius `r`, and a direction `(vel_x, vel_y)` whose
/// components are each `1` or `-1`; one frame moves it `BALL_SPEED` along each.
#[derive(Clone, Copy, Debug, PartialEq, Eq, Structural)]
pub struct Ball {
    pub x: i64,
    pub y: i64,
    pub r: i64,
    pub vel_x: i64,
    pub vel_y: i64,
}

pub open spec fn unit(v: i64) -> bool {
    v == 1 || v == -1
}

/// The ball resting on a point: centered on `x`, its lowest point at `y`.
pub open spec fn resting_on(b: Ball, x: int, y: int) -> Ball {
    Ball { x: x as i64, y: (y - BALL_RADIUS) as i64, ..b }
}

/// The ball one frame further along its direction.
pub open spec fn advanced(b: Ball) -> Ball {
    Ball { x: (b.x + b.vel_x * BALL_SPEED) as i64, y: (b.y + b.vel_y * BALL_SPEED) as i64, ..b }
}

pub open spec fn reflected_x(b: Ball) -> Ball {
    Ball { vel_x: -b.vel_x as i64, ..b }
}

pub open spec fn reflected_y(b: Ball) -> Ball {
    Ball { vel_y: -b.vel_y as i64, ..b }
}

/// The ball with its launch direction back: right and up.
pub open spec fn relaunched(b: Ball) -> Ball {
    Ball { vel_x: 1, vel_y: -1i64, ..b }
}

impl Ball {
    /// Fixed radius, unit direction components (so the speed along each axis is
    /// always exactly `BALL_SPEED`), and a position within the coordinate limit.
    pub open spec fn wf(self) -> bool {
        self.r == BALL_RADIUS && unit(self.vel_x) && unit(self.vel_y) && in_limit(self.x)
            && in_limit(self.y)
    }

    /// Far enough inside the coordinate limit to take one more step.
    pub open spec fn has_room(self) -> bool {
        -COORD_LIMIT + BALL_SPEED <= self.x <= COORD_LIMIT - BALL_SPEED && -COORD_LIMIT
            + BALL_SPEED <= self.y <= COORD_LIMIT - BALL_SPEED
    }

    /// The velocity along each axis, per frame.
    pub open spec fn velocity(self) -> (int, int) {
        (self.vel_x * BALL_SPEED, self.vel_y * BALL_SPEED)
    }

    /// A ball resting on `(x, y)`, heading right and up.
    pub fn new(x: i64, y: i64) -> (b: Ball)
        requires
            in_limit(x),
            -COORD_LIMIT + BALL_RADIUS <= y <= COORD_LIMIT,
        ensures
            b == (Ball { x, y: (y - BALL_RADIUS) as i64, r: BALL_RADIUS, vel_x: 1, vel_y: -1i64 }),
            b.wf(),
    {
        Ball { x, y: y - BALL_RADIUS, r: BALL_RADIUS, vel_x: 1, vel_y: -1 }
    }

    pub fn circle(&self) -> (c: Circle)
        requires
            self.wf(),
        ensures
            c == (Circle { x: self.x, y: self.y, r: self.r }),
            c.wf(),
    {
        Circle { x: self.x, y: self.y, r: self.r }
    }

    /// Rests the ball on `pos`: centered on `pos.0`, its lowest point at `pos.1`.
    pub fn set_position(&mut self, pos: (i64, i64))
        requires
            old(self).wf(),
            in_limit(pos.0),
            -COORD_LIMIT + BALL_RADIUS <= pos.1 <= COORD_LIMIT,
        ensures
            *final(self) == resting_on(*old(self), pos.0 as int, pos.1 as int),
            final(self).wf(),
    {
        self.x = pos.0;
        self.y = pos.1 - BALL_RADIUS;
    }

    /// One frame of free flight.
    pub fn update(&mut self)
        requires
            old(self).wf(),
            old(self).has_room(),
        ensures
            *final(self) == advanced(*old(self)),
            final(self).wf(),
    {
        self.x = self.x + self.vel_x * BALL_SPEED;
        self.y = self.y + self.vel_y * BALL_SPEED;
    }

    pub fn reflect_x(&mut self)
        requires
            old(self).wf(),
        ensures
            *final(self) == reflected_x(*old(self)),
            final(self).wf(),
    {
        self.vel_x = -self.vel_x;
    }

    pub fn reflect_y(&mut self)
        requires
            old(self).wf(),
        ensures
            *final(self) == reflected_y(*old(self)),
            final(self).wf(),
    {
        self.vel_y = -self.vel_y;
    }

    /// Restores the launch direction; the position is left alone.
    pub fn reset(&mut self)
        requires
            old(self).wf(),
        ensures
            *final(self) == relaunched(*old(self)),
            final(self).wf(),
    {
        self.vel_x = 1;
        self.vel_y = -1;
    }
}

} // verus!
