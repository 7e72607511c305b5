//! The player controller: movement from directional input, animation
//! selection, and the hit signal raised by a collision.

use vstd::prelude::*;

use crate::geom::isqrt;
use crate::geom::spec_clamp_int;
use crate::geom::Vec2;
use crate::geom::MAX_COORD;

verus! {

/// Highest strength of one directional input action, standing for a full
/// deflection of `1.0` (strengths are held in thousandths).
pub const AXIS_MAX: i64 = 1000;

/// Bound accepted for the player's movement speed, in pixels per second.
pub const MAX_SPEED: i64 = 100_000;

/// Movement speed the player controller is configured with by default,
/// in pixels per second.
pub const DEFAULT_SPEED: i64 = 400;

/// Bound accepted for one frame delta, in milliseconds.
pub const MAX_DELTA_MS: i64 = 1_000_000;

/// Strength of the four directional input actions over one frame, each in
/// `[0, AXIS_MAX]`.
#[derive(Clone, Copy, PartialEq, Eq, Structural, Debug)]
pub struct DirectionalInput {
    pub right: i64,
    pub left: i64,
    pub down: i64,
    pub up: i64,
}

impl DirectionalInput {
    pub open spec fn wf(self) -> bool {
        &&& 0 <= self.right <= AXIS_MAX
        &&& 0 <= self.left <= AXIS_MAX
        &&& 0 <= self.down <= AXIS_MAX
        &&& 0 <= self.up <= AXIS_MAX
    }

    /// Signed horizontal strength: right minus left.
    pub open spec fn axis_x(self) -> int {
        self.right - self.left
    }

    /// Signed vertical strength: down minus up (the vertical axis points
    /// down, as on screen).
    pub open spec fn axis_y(self) -> int {
        self.down - self.up
    }
}

/// The animation the player's sprite shows while moving.
#[derive(Clone, Copy, PartialEq, Eq, Structural, Debug)]
pub enum PlayerAnim {
    Walk,
    Up,
}

/// Movement along one axis over one frame: the axis strength `a` (signed,
/// thousandths), normalized by the input vector's length `len`, scaled by
/// `speed` pixels per second, integrated over `delta_ms` milliseconds.
pub open spec fn spec_disp(a: int, speed: int, delta_ms: int, len: int) -> int {
    if a >= 0 {
        (a * speed * delta_ms) / (len * 1000)
    } else {
        -(((-a) * speed * delta_ms) / (len * 1000))
    }
}

/// The player: a position on screen, a configured speed, visibility and
/// collision flags, and the sprite's animation state.
#[derive(Clone, Copy, PartialEq, Eq, Structural, Debug)]
pub struct Player {
    pub position: Vec2,
    pub speed: i64,
    pub screen_size: Vec2,
    pub visible: bool,
    pub collision_disabled: bool,
    /// A collision-disable request issued during a physics callback; it
    /// takes effect only after the current physics step completes.
    pub pending_collision_disable: bool,
    pub animation: PlayerAnim,
    pub flip_h: bool,
    pub flip_v: bool,
    pub animation_playing: bool,
}

impl Player {
    pub open spec fn wf(self) -> bool {
        &&& 0 < self.speed <= MAX_SPEED
        &&& 1 <= self.screen_size.x <= MAX_COORD
        &&& 1 <= self.screen_size.y <= MAX_COORD
        &&& self.position.in_box(Vec2 { x: 0, y: 0 }, self.screen_size)
    }

    /// The state after `start`: relocated, shown, collision re-enabled.
    pub open spec fn start_t(self, position: Vec2) -> Player {
        Player {
            position,
            visible: true,
            collision_disabled: false,
            pending_collision_disable: false,
            ..self
        }
    }

    /// The state after a collision: hidden, with the collision-disable
    /// request deferred to the end of the physics step.
    pub open spec fn hit_t(self) -> Player {
        Player { visible: false, pending_collision_disable: true, ..self }
    }

    /// The state after the physics step completes and a pending
    /// collision-disable request takes effect.
    pub open spec fn deferred_t(self) -> Player {
        Player {
            collision_disabled: self.collision_disabled || self.pending_collision_disable,
            pending_collision_disable: false,
            ..self
        }
    }

    pub fn new(speed: i64, screen_size: Vec2) -> (p: Player)
        requires
            0 < speed <= MAX_SPEED,
            1 <= screen_size.x <= MAX_COORD,
            1 <= screen_size.y <= MAX_COORD,
        ensures
            p == (Player {
                position: Vec2 { x: 0, y: 0 },
                speed,
                screen_size,
                visible: false,
                collision_disabled: false,
                pending_collision_disable: false,
                animation: PlayerAnim::Walk,
                flip_h: false,
                flip_v: false,
                animation_playing: false,
            }),
            p.wf(),
    {
        Player {
            position: Vec2 { x: 0, y: 0 },
            speed,
            screen_size,
            visible: false,
            collision_disabled: false,
            pending_collision_disable: false,
            animation: PlayerAnim::Walk,
            flip_h: false,
            flip_v: false,
            animation_playing: false,
        }
    }

    /// Begin a round: relocate to `position`, show the sprite, re-enable
    /// collision detection and drop any pending disable request.
    pub fn start(&mut self, position: Vec2)
        requires
            old(self).wf(),
            position.in_box(Vec2 { x: 0, y: 0 }, old(self).screen_size),
        ensures
            *final(self) == old(self).start_t(position),
            final(self).wf(),
    {
        self.position = position;
        self.visible = true;
        self.collision_disabled = false;
        self.pending_collision_disable = false;
    }

    /// A body entered the player's collision region. Hides the player,
    /// requests the deferred collision disable, and reports whether the hit
    /// signal is emitted; a player already hidden emits nothing, so the
    /// signal comes at most once per round.
    pub fn on_body_entered(&mut self) -> (emitted: bool)
        ensures
            emitted == old(self).visible,
            old(self).visible ==> *final(self) == old(self).hit_t(),
            !old(self).visible ==> *final(self) == *old(self),
    {
        if self.visible {
            self.visible = false;
            self.pending_collision_disable = true;
            true
        } else {
            false
        }
    }

    /// The physics step completed: a pending collision-disable request
    /// takes effect now.
    pub fn apply_deferred(&mut self)
        ensures
            *final(self) == old(self).deferred_t(),
    {
        if self.pending_collision_disable {
            self.collision_disabled = true;
            self.pending_collision_disable = false;
        }
    }

    /// One per-frame update: compose the four input strengths into a
    /// velocity, normalize it to `speed`, pick the animation, and integrate
    /// the position, clamped to the screen.
    #[verifier::rlimit(60)]
    pub fn process(&mut self, input: &DirectionalInput, delta_ms: i64)
        requires
            old(self).wf(),
            input.wf(),
            0 <= delta_ms <= MAX_DELTA_MS,
        ensures
            final(self).wf(),
            final(self).position.in_box(Vec2 { x: 0, y: 0 }, old(self).screen_size),
            final(self).speed == old(self).speed,
            final(self).screen_size == old(self).screen_size,
            final(self).visible == old(self).visible,
            final(self).collision_disabled == old(self).collision_disabled,
            final(self).pending_collision_disable == old(self).pending_collision_disable,
            input.axis_x() == 0 && input.axis_y() == 0 ==> {
                &&& final(self).position == old(self).position
                &&& !final(self).animation_playing
                &&& final(self).animation == old(self).animation
                &&& final(self).flip_h == old(self).flip_h
                &&& final(self).flip_v == old(self).flip_v
            },
            input.axis_x() != 0 || input.axis_y() != 0 ==> ({
                let vx = input.axis_x();
                let vy = input.axis_y();
                &&& exists|len: int|
                    #![trigger len * len]
                    0 < len && len * len <= vx * vx + vy * vy && vx * vx + vy * vy < (len + 1) * (
                    len + 1) && final(self).position.x == spec_clamp_int(
                        old(self).position.x + spec_disp(
                            vx,
                            old(self).speed as int,
                            delta_ms as int,
                            len,
                        ),
                        0,
                        old(self).screen_size.x as int,
                    ) && final(self).position.y == spec_clamp_int(
                        old(self).position.y + spec_disp(
                            vy,
                            old(self).speed as int,
                            delta_ms as int,
                            len,
                        ),
                        0,
                        old(self).screen_size.y as int,
                    )
                &&& final(self).animation_playing
                &&& vx != 0 ==> final(self).animation == PlayerAnim::Walk && !final(self).flip_v
                    && final(self).flip_h == (vx < 0)
                &&& vx == 0 ==> final(self).animation == PlayerAnim::Up && final(self).flip_v == (
                vy > 0) && final(self).flip_h == old(self).flip_h
            }),
    {
        let vx: i64 = input.right - input.left;
        let vy: i64 = input.down - input.up;
        if vx != 0 || vy != 0 {
            proof {
                assert(0 <= vx * vx <= 1_000_000 && 0 <= vy * vy <= 1_000_000 && 1 <= vx * vx + vy
                    * vy <= 4_000_000) by (nonlinear_arith)
                    requires
                        -1000 <= vx <= 1000,
                        -1000 <= vy <= 1000,
                        vx != 0 || vy != 0,
                ;
            }
            let n2: i64 = vx * vx + vy * vy;
            let len: i64 = isqrt(n2);
            proof {
                assert(len >= 1) by (nonlinear_arith)
                    requires
                        1 <= n2,
                        n2 < (len + 1) * (len + 1),
                        0 <= len,
                ;
            }
            let ax: i64 = if vx < 0 {
                -vx
            } else {
                vx
            };
            let ay: i64 = if vy < 0 {
                -vy
            } else {
                vy
            };
            proof {
                assert(0 <= ax * self.speed <= 100_000_000 && 0 <= ay * self.speed <= 100_000_000
                    && 0 <= ax * self.speed * delta_ms <= 100_000_000_000_000 && 0 <= ay
                    * self.speed * delta_ms <= 100_000_000_000_000) by (nonlinear_arith)
                    requires
                        0 <= ax <= 1000,
                        0 <= ay <= 1000,
                        0 < self.speed <= 100_000,
                        0 <= delta_ms <= 1_000_000,
                ;
                assert(len <= 2000) by (nonlinear_arith)
                    requires
                        0 <= len,
                        len * len <= 4_000_000,
                ;
            }
            let mag_x: i64 = ax * self.speed * delta_ms / (len * 1000);
            let mag_y: i64 = ay * self.speed * delta_ms / (len * 1000);
            proof {
                vstd::arithmetic::div_mod::lemma_div_is_ordered_by_denominator(
                    ax * self.speed * delta_ms,
                    1000,
                    len * 1000,
                );
                vstd::arithmetic::div_mod::lemma_div_is_ordered_by_denominator(
                    ay * self.speed * delta_ms,
                    1000,
                    len * 1000,
                );
            }
            let dx: i64 = if vx < 0 {
                -mag_x
            } else {
                mag_x
            };
            let dy: i64 = if vy < 0 {
                -mag_y
            } else {
                mag_y
            };
            if vx != 0 {
                self.animation = PlayerAnim::Walk;
                self.flip_v = false;
                self.flip_h = vx < 0;
            } else {
                self.animation = PlayerAnim::Up;
                self.flip_v = vy > 0;
            }
            self.animation_playing = true;
            let nx: i64 = self.position.x + dx;
            let ny: i64 = self.position.y + dy;
            let cx: i64 = if nx < 0 {
                0
            } else if nx > self.screen_size.x {
                self.screen_size.x
            } else {
                nx
            };
            let cy: i64 = if ny < 0 {
                0
            } else if ny > self.screen_size.y {
                self.screen_size.y
            } else {
                ny
            };
            self.position = Vec2 { x: cx, y: cy };
            proof {
                let leni = len as int;
                assert(0 < leni && leni * leni <= vx * vx + vy * vy && vx * vx + vy * vy < (leni
                    + 1) * (leni + 1) && self.position.x == spec_clamp_int(
                    old(self).position.x + spec_disp(
                        vx as int,
                        old(self).speed as int,
                        delta_ms as int,
                        leni,
                    ),
                    0,
                    old(self).screen_size.x as int,
                ) && self.position.y == spec_clamp_int(
                    old(self).position.y + spec_disp(
                        vy as int,
                        old(self).speed as int,
                        delta_ms as int,
                        leni,
                    ),
                    0,
                    old(self).screen_size.y as int,
                ));
            }
        } else {
            self.animation_playing = false;
        }
    }
}

} // verus!
