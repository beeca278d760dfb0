//! Paddle state and movement: input-driven vertical motion and the
//! clamp that keeps a paddle inside the arena after every move.

use vstd::prelude::*;

use crate::config::Rect;

verus! {

/// Mathematical value of a [`Paddle`]: the same fields over `int`.
pub ghost struct PaddleModel {
    pub x: int,
    pub y: int,
    pub speed: int,
    pub width: int,
    pub height: int,
}

impl PaddleModel {
    /// Bounds under which one frame of paddle arithmetic cannot
    /// overflow `i32`. Speed is never negative: a negative speed is a
    /// configuration error, not a runtime condition.
    pub open spec fn wf(self) -> bool {
        &&& 0 < self.width <= 100_000
        &&& 0 < self.height <= 1_000_000
        &&& 0 <= self.speed <= 10_000
        &&& -2_100_000 <= self.x <= 2_100_000
        &&& -2_100_000 <= self.y <= 2_100_000
    }
}

/// Vertical position after applying held keys: up subtracts the speed,
/// down adds it, both held cancel exactly.
pub open spec fn moved(p: PaddleModel, up: bool, down: bool) -> PaddleModel {
    PaddleModel {
        y: p.y - (if up {
            p.speed
        } else {
            0
        }) + (if down {
            p.speed
        } else {
            0
        }),
        ..p
    }
}

/// Vertical position clamped into `[0, screen_height - height]`.
pub open spec fn clamped(p: PaddleModel, screen_height: int) -> PaddleModel {
    PaddleModel {
        y: if p.y < 0 {
            0
        } else if p.y + p.height > screen_height {
            screen_height - p.height
        } else {
            p.y
        },
        ..p
    }
}

/// One frame of input-driven paddle movement: move, then clamp.
pub open spec fn updated(p: PaddleModel, screen_height: int, up: bool, down: bool) -> PaddleModel {
    clamped(moved(p, up, down), screen_height)
}

/// Paddle state: position of its top-left corner, vertical speed in
/// units per frame, and its box size. `x` never changes after
/// construction.
#[derive(Clone, Copy, PartialEq, Eq, Structural, Debug)]
pub struct Paddle {
    pub x: i32,
    pub y: i32,
    pub speed: i32,
    pub width: i32,
    pub height: i32,
}

impl View for Paddle {
    type V = PaddleModel;

    open spec fn view(&self) -> PaddleModel {
        PaddleModel {
            x: self.x as int,
            y: self.y as int,
            speed: self.speed as int,
            width: self.width as int,
            height: self.height as int,
        }
    }
}

impl Paddle {
    /// A paddle with every field given.
    pub fn new(x: i32, y: i32, speed: i32, width: i32, height: i32) -> (p: Paddle)
        ensures
            p@ == (PaddleModel {
                x: x as int,
                y: y as int,
                speed: speed as int,
                width: width as int,
                height: height as int,
            }),
    {
        Paddle { x, y, speed, width, height }
    }

    /// A paddle of the default size, 15 by 120 units.
    pub fn init(x: i32, y: i32, speed: i32) -> (p: Paddle)
        ensures
            p@ == (PaddleModel {
                x: x as int,
                y: y as int,
                speed: speed as int,
                width: 15,
                height: 120,
            }),
    {
        Paddle { x, y, speed, width: 15, height: 120 }
    }

    /// Applies held movement keys: up subtracts the speed, down adds
    /// it; both held in the same frame cancel to no net displacement.
    /// Must be followed by [`Paddle::clamp_to_arena`] before the frame
    /// ends.
    pub fn move_by_input(&mut self, up: bool, down: bool)
        requires
            old(self)@.wf(),
            -2_000_000 <= old(self)@.y <= 2_000_000,
        ensures
            final(self)@ == moved(old(self)@, up, down),
            final(self)@.wf(),
    {
        if up {
            self.y = self.y - self.speed;
        }
        if down {
            self.y = self.y + self.speed;
        }
    }

    /// Clamps the paddle back into the arena. Law: afterwards
    /// `0 <= y <= screen_height - height`, whatever the position was.
    pub fn clamp_to_arena(&mut self, screen_height: i32)
        requires
            old(self)@.wf(),
            old(self)@.height <= screen_height <= 1_000_000,
        ensures
            final(self)@ == clamped(old(self)@, screen_height as int),
            0 <= final(self)@.y,
            final(self)@.y + final(self)@.height <= screen_height,
            final(self)@.wf(),
    {
        if self.y < 0 {
            self.y = 0;
        }
        if self.y + self.height > screen_height {
            self.y = screen_height - self.height;
        }
    }

    /// One frame of input-driven movement: apply the held keys, then
    /// clamp into the arena.
    pub fn update(&mut self, screen_height: i32, up: bool, down: bool)
        requires
            old(self)@.wf(),
            -2_000_000 <= old(self)@.y <= 2_000_000,
            old(self)@.height <= screen_height <= 1_000_000,
        ensures
            final(self)@ == updated(old(self)@, screen_height as int, up, down),
            0 <= final(self)@.y,
            final(self)@.y + final(self)@.height <= screen_height,
            final(self)@.wf(),
    {
        self.move_by_input(up, down);
        self.clamp_to_arena(screen_height);
    }

    /// The axis-aligned bounding box of the paddle.
    pub fn get_bounds(&self) -> (r: Rect)
        ensures
            r == (Rect { x: self.x, y: self.y, width: self.width, height: self.height }),
    {
        Rect { x: self.x, y: self.y, width: self.width, height: self.height }
    }
}

} // verus!
