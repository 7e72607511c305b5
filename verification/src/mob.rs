//! The mob: an enemy spawned on the screen perimeter with a fixed velocity
//! and an animation variant chosen once, at spawn.

use vstd::prelude::*;

use crate::geom::Vec2;
use crate::geom::MAX_COORD;
use crate::rng::choose_name;
use vstd::pervasive::unreached;

verus! {

/// Lowest spawn speed, in pixels per second (inclusive).
pub const MOB_MIN_SPEED: i64 = 150;

/// Highest spawn speed, in pixels per second (exclusive for the draw, so
/// every sample lies in `[150, 250]`).
pub const MOB_MAX_SPEED: i64 = 250;

/// Half-width of the random cone around the inward perpendicular, in
/// degrees.
pub const SPAWN_JITTER_DEG: i64 = 45;

/// Length of the closed spawn path: the screen rectangle's perimeter.
pub open spec fn spec_perimeter(screen: Vec2) -> int {
    2 * (screen.x + screen.y)
}

/// The point of the spawn path at offset `off` from the top-left corner,
/// walking the rectangle clockwise: top, right, bottom, then left edge.
pub open spec fn spec_path_point(screen: Vec2, off: int) -> Vec2 {
    if off < screen.x {
        Vec2 { x: off as i64, y: 0 }
    } else if off < screen.x + screen.y {
        Vec2 { x: screen.x, y: (off - screen.x) as i64 }
    } else if off < 2 * screen.x + screen.y {
        Vec2 { x: (2 * screen.x + screen.y - off) as i64, y: screen.y }
    } else {
        Vec2 { x: 0, y: (2 * (screen.x + screen.y) - off) as i64 }
    }
}

/// The tangent angle of the spawn path at offset `off`, in degrees: angles
/// grow from the positive x axis toward the positive y axis (downwards on
/// screen), so the clockwise walk turns through 0, 90, 180 and 270.
pub open spec fn spec_path_tangent_deg(screen: Vec2, off: int) -> int {
    if off < screen.x {
        0
    } else if off < screen.x + screen.y {
        90
    } else if off < 2 * screen.x + screen.y {
        180
    } else {
        270
    }
}

/// Locate a spawn on the path: reduce a random `progress` to an offset
/// along the perimeter and return the path point there with the path's
/// tangent angle at that offset.
pub fn path_point_and_tangent(screen: Vec2, progress: i64) -> (r: (Vec2, i64))
    requires
        1 <= screen.x <= MAX_COORD,
        1 <= screen.y <= MAX_COORD,
        0 <= progress,
    ensures
        ({
            let off = progress as int % spec_perimeter(screen);
            &&& r.0 == spec_path_point(screen, off)
            &&& r.1 == spec_path_tangent_deg(screen, off)
            &&& r.0.in_box(Vec2 { x: 0, y: 0 }, screen)
        }),
{
    let perim: u64 = 2 * ((screen.x as u64) + (screen.y as u64));
    let off: i64 = ((progress as u64) % perim) as i64;
    if off < screen.x {
        (Vec2 { x: off, y: 0 }, 0)
    } else if off < screen.x + screen.y {
        (Vec2 { x: screen.x, y: off - screen.x }, 90)
    } else if off < 2 * screen.x + screen.y {
        (Vec2 { x: 2 * screen.x + screen.y - off, y: screen.y }, 180)
    } else {
        (Vec2 { x: 0, y: 2 * (screen.x + screen.y) - off }, 270)
    }
}

/// A mob's state, for contracts: its animation variant is a character
/// sequence, everything else is plain.
#[verifier::ext_equal]
pub ghost struct MobView {
    pub position: Vec2,
    /// The rotation applied at spawn, in degrees.
    pub direction_deg: i64,
    /// The magnitude of the linear velocity, in pixels per second; the
    /// velocity is `(speed, 0)` rotated by `direction_deg`.
    pub speed: i64,
    pub animation: Seq<char>,
}

/// A mob: position, velocity as direction and magnitude, and the animation
/// variant chosen at spawn. None of them changes after spawn; the physics
/// system the mob delegates to moves it until it leaves the screen.
pub struct Mob {
    pub position: Vec2,
    pub direction_deg: i64,
    pub speed: i64,
    pub animation: String,
}

impl View for Mob {
    type V = MobView;

    open spec fn view(&self) -> MobView {
        MobView {
            position: self.position,
            direction_deg: self.direction_deg,
            speed: self.speed,
            animation: self.animation@,
        }
    }
}

impl Mob {
    /// Create a mob at `position` with the given rotation and speed, with
    /// an animation variant drawn uniformly from `variants`. That at least
    /// one variant is configured is a startup precondition; there is no
    /// runtime recovery from an empty list.
    pub fn spawn(
        rng: &mut rand::rngs::StdRng,
        variants: &Vec<String>,
        position: Vec2,
        direction_deg: i64,
        speed: i64,
    ) -> (m: Mob)
        requires
            variants@.len() > 0,
        ensures
            m.position == position,
            m.direction_deg == direction_deg,
            m.speed == speed,
            exists|i: int| 0 <= i < variants@.len() && m@.animation == variants@[i]@,
    {
        let animation = match choose_name(rng, variants) {
            Some(name) => name,
            None => unreached(),
        };
        Mob { position, direction_deg, speed, animation }
    }
}

} // verus!
