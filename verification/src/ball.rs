//! Ball state and per-frame motion: velocity integration and wall
//! bounces. Side edges either bounce or are left to the scoring step,
//! according to the configured [`SidePolicy`].
//!
//! The ball occupies the square box `[x, x + radius] x [y, y + radius]`.
//! A wall bounce negates the velocity component and leaves the position
//! alone, so the ball may sit past a wall for a frame; `in_band` below
//! captures exactly how far it can get and is preserved by every step.

use vstd::prelude::*;

use crate::config::Rect;
use crate::config::SidePolicy;

verus! {

/// Mathematical value of a [`Ball`]: the same fields over `int`.
pub ghost struct BallModel {
    pub x: int,
    pub y: int,
    pub vx: int,
    pub vy: int,
    pub radius: int,
}

impl BallModel {
    /// Bounds under which one frame of ball arithmetic cannot overflow
    /// `i32`.
    pub open spec fn wf(self) -> bool {
        &&& 0 < self.radius <= 100_000
        &&& -10_000 <= self.vx <= 10_000
        &&& -10_000 <= self.vy <= 10_000
        &&& -2_100_000 <= self.x <= 2_100_000
        &&& -2_100_000 <= self.y <= 2_100_000
    }
}

/// Position after one frame of motion: velocity added to position,
/// velocity unchanged.
pub open spec fn integrated(b: BallModel) -> BallModel {
    BallModel { x: b.x + b.vx, y: b.y + b.vy, ..b }
}

/// Whether the ball's box crosses the top or bottom wall.
pub open spec fn crosses_vertical(b: BallModel, h: int) -> bool {
    b.y <= 0 || b.y + b.radius >= h
}

/// Whether the ball's box crosses the left or right edge.
pub open spec fn crosses_side(b: BallModel, w: int) -> bool {
    b.x <= 0 || b.x + b.radius >= w
}

/// Wall resolution: the vertical velocity is negated on a top or bottom
/// crossing; the horizontal one on a side crossing only when the sides
/// bounce. Positions are never moved here.
pub open spec fn wall_bounced(b: BallModel, w: int, h: int, sides: SidePolicy) -> BallModel {
    BallModel {
        vx: if sides == SidePolicy::Bounce && crosses_side(b, w) {
            -b.vx
        } else {
            b.vx
        },
        vy: if crosses_vertical(b, h) {
            -b.vy
        } else {
            b.vy
        },
        ..b
    }
}

/// One full frame of ball motion: integration, then wall resolution.
pub open spec fn stepped(b: BallModel, w: int, h: int, sides: SidePolicy) -> BallModel {
    wall_bounced(integrated(b), w, h, sides)
}

/// Where a bouncing coordinate can be at a frame boundary: inside
/// `[0, limit - r]`, or just past an edge and then only with the
/// velocity that the last bounce left (an unconditional negate can
/// oscillate across an edge, but never drift further than one frame's
/// displacement out).
pub open spec fn in_band(pos: int, v: int, r: int, limit: int) -> bool {
    ||| (0 <= pos && pos + r <= limit)
    ||| (-v <= pos <= 0 && v > 0)
    ||| (limit - r <= pos && pos <= limit - r - v && v < 0)
}

/// Law: `in_band` is inductive under one frame of integration plus an
/// unconditional-negate bounce, as long as one frame's displacement is
/// at most half the free space between the walls.
pub proof fn lemma_in_band_step(pos: int, v: int, r: int, limit: int)
    requires
        in_band(pos, v, r, limit),
        0 < r,
        2 * (if v < 0 {
            -v
        } else {
            v
        }) <= limit - r,
    ensures
        ({
            let npos = pos + v;
            let nv = if npos <= 0 || npos + r >= limit {
                -v
            } else {
                v
            };
            in_band(npos, nv, r, limit)
        }),
{
}

/// Ball state: position of the top-left corner of its bounding box,
/// velocity in units per frame, and the side of that box.
#[derive(Clone, Copy, PartialEq, Eq, Structural, Debug)]
pub struct Ball {
    pub x: i32,
    pub y: i32,
    pub vx: i32,
    pub vy: i32,
    pub radius: i32,
}

impl View for Ball {
    type V = BallModel;

    open spec fn view(&self) -> BallModel {
        BallModel {
            x: self.x as int,
            y: self.y as int,
            vx: self.vx as int,
            vy: self.vy as int,
            radius: self.radius as int,
        }
    }
}

impl Ball {
    /// A ball with every field given.
    pub fn new(x: i32, y: i32, vx: i32, vy: i32, radius: i32) -> (b: Ball)
        ensures
            b@ == (BallModel {
                x: x as int,
                y: y as int,
                vx: vx as int,
                vy: vy as int,
                radius: radius as int,
            }),
    {
        Ball { x, y, vx, vy, radius }
    }

    /// A ball of the default size, 12 units.
    pub fn init(x: i32, y: i32, vx: i32, vy: i32) -> (b: Ball)
        ensures
            b@ == (BallModel {
                x: x as int,
                y: y as int,
                vx: vx as int,
                vy: vy as int,
                radius: 12,
            }),
    {
        Ball { x, y, vx, vy, radius: 12 }
    }

    /// Adds the velocity to the position; call at most once per frame.
    pub fn integrate(&mut self)
        requires
            old(self)@.wf(),
            -2_000_000 <= old(self)@.x <= 2_000_000,
            -2_000_000 <= old(self)@.y <= 2_000_000,
        ensures
            final(self)@ == integrated(old(self)@),
            final(self)@.wf(),
    {
        self.x = self.x + self.vx;
        self.y = self.y + self.vy;
    }

    /// Negates the velocity component of any wall the ball's box has
    /// crossed: top and bottom always, the sides only when they bounce.
    pub fn resolve_wall_bounce(&mut self, screen_width: i32, screen_height: i32, sides: SidePolicy)
        requires
            old(self)@.wf(),
            0 < screen_width <= 1_000_000,
            0 < screen_height <= 1_000_000,
        ensures
            final(self)@ == wall_bounced(
                old(self)@,
                screen_width as int,
                screen_height as int,
                sides,
            ),
            final(self)@.wf(),
    {
        if sides == SidePolicy::Bounce && (self.x <= 0 || self.x + self.radius >= screen_width) {
            self.vx = -self.vx;
        }
        if self.y <= 0 || self.y + self.radius >= screen_height {
            self.vy = -self.vy;
        }
    }

    /// One frame of motion under the given side policy.
    pub fn step(&mut self, screen_width: i32, screen_height: i32, sides: SidePolicy)
        requires
            old(self)@.wf(),
            -2_000_000 <= old(self)@.x <= 2_000_000,
            -2_000_000 <= old(self)@.y <= 2_000_000,
            0 < screen_width <= 1_000_000,
            0 < screen_height <= 1_000_000,
        ensures
            final(self)@ == stepped(old(self)@, screen_width as int, screen_height as int, sides),
            final(self)@.wf(),
    {
        self.integrate();
        self.resolve_wall_bounce(screen_width, screen_height, sides);
    }

    /// One frame of motion with scoring side edges: only the top and
    /// bottom walls bounce, side crossings are left to the scoring step.
    pub fn update(&mut self, screen_width: i32, screen_height: i32)
        requires
            old(self)@.wf(),
            -2_000_000 <= old(self)@.x <= 2_000_000,
            -2_000_000 <= old(self)@.y <= 2_000_000,
            0 < screen_width <= 1_000_000,
            0 < screen_height <= 1_000_000,
        ensures
            final(self)@ == stepped(
                old(self)@,
                screen_width as int,
                screen_height as int,
                SidePolicy::Goal,
            ),
            final(self)@.wf(),
    {
        self.step(screen_width, screen_height, SidePolicy::Goal);
    }

    /// One frame of motion with bouncing side edges: all four walls
    /// reflect the ball.
    pub fn change_dir(&mut self, screen_width: i32, screen_height: i32)
        requires
            old(self)@.wf(),
            -2_000_000 <= old(self)@.x <= 2_000_000,
            -2_000_000 <= old(self)@.y <= 2_000_000,
            0 < screen_width <= 1_000_000,
            0 < screen_height <= 1_000_000,
        ensures
            final(self)@ == stepped(
                old(self)@,
                screen_width as int,
                screen_height as int,
                SidePolicy::Bounce,
            ),
            final(self)@.wf(),
    {
        self.step(screen_width, screen_height, SidePolicy::Bounce);
    }

    /// The axis-aligned bounding box of the ball.
    pub fn get_bounds(&self) -> (r: Rect)
        ensures
            r == (Rect { x: self.x, y: self.y, width: self.radius, height: self.radius }),
    {
        Rect { x: self.x, y: self.y, width: self.radius, height: self.radius }
    }
}

/// Law: a ball on the top boundary moving upward at speed `k` comes out
/// of one frame of motion with its vertical velocity negated to `+k`,
/// and has penetrated the boundary by exactly one frame's displacement,
/// no more.
pub proof fn lemma_vertical_bounce(b: BallModel, w: int, h: int, sides: SidePolicy, k: int)
    requires
        b.y == 0,
        b.vy == -k,
        0 < k,
        0 < b.radius < h,
    ensures
        stepped(b, w, h, sides).vy == k,
        stepped(b, w, h, sides).y == -k,
{
}

} // verus!
