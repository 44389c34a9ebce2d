//! Disc regions of the brain plane and the proximity predicate that
//! couples effector positions to motor intents.
use vstd::prelude::*;

use crate::frog::OutputZone;
use crate::rng::gen_range_i64;

verus! {

/// Zone coordinates and radii that the generators produce stay within
/// this bound, so the jitter arithmetic of apparatus materialization
/// cannot overflow an i64.
pub const COORD_LIMIT: i64 = 1_000_000_000;

/// A disc region: a center and a radius. Radii are never negative.
#[derive(Clone, Copy, Debug)]
pub struct Zone {
    pub x: i64,
    pub y: i64,
    pub radius: i64,
}

/// One axis of the proximity test: the distance between `a` and `b`
/// is strictly below `d`.
pub open spec fn axis_near(a: int, b: int, d: int) -> bool {
    -d < a - b && a - b < d
}

/// The proximity predicate: both axis distances are strictly below the
/// summed radii — an axis-aligned square neighborhood, not a Euclidean
/// disc.
pub open spec fn near(ax: int, ay: int, ar: int, bx: int, by: int, br: int) -> bool {
    axis_near(ax, bx, ar + br) && axis_near(ay, by, ar + br)
}

/// Proximity is symmetric in its two zones.
pub proof fn lemma_near_symmetric(a: Zone, b: Zone)
    ensures
        near(a.x as int, a.y as int, a.radius as int, b.x as int, b.y as int, b.radius as int)
            == near(b.x as int, b.y as int, b.radius as int, a.x as int, a.y as int, a.radius as int),
{
}

impl Zone {
    /// Draws a zone for a genome: center coordinates uniform in
    /// [0, bound) on each axis, radius uniform in [0, bound / 10)
    /// (zero when that range is empty).
    pub fn new(bound: i64, rng: &mut rand::rngs::StdRng) -> (z: Zone)
        requires
            1 <= bound <= COORD_LIMIT,
        ensures
            drawn_within(z, bound as int),
    {
        let x = gen_range_i64(rng, 0, bound);
        let y = gen_range_i64(rng, 0, bound);
        let rb = bound / 10;
        let radius = if rb >= 1 {
            gen_range_i64(rng, 0, rb)
        } else {
            0
        };
        Zone { x, y, radius }
    }

    /// True iff `other` lies within proximity of `self`.
    pub fn nearby(&self, other: &Zone) -> (r: bool)
        ensures
            r == near(
                self.x as int, self.y as int, self.radius as int,
                other.x as int, other.y as int, other.radius as int,
            ),
    {
        let dist: i128 = self.radius as i128 + other.radius as i128;
        let dx: i128 = self.x as i128 - other.x as i128;
        let dy: i128 = self.y as i128 - other.y as i128;
        -dist < dx && dx < dist && -dist < dy && dy < dist
    }

    /// The proximity test against an effector disc, with the effector's
    /// radius added to the threshold exactly as in `nearby`.
    pub fn nearby_output(&self, other: &OutputZone) -> (r: bool)
        ensures
            r == near(
                self.x as int, self.y as int, self.radius as int,
                other.x as int, other.y as int, other.radius as int,
            ),
    {
        let dist: i128 = self.radius as i128 + other.radius as i128;
        let dx: i128 = self.x as i128 - other.x as i128;
        let dy: i128 = self.y as i128 - other.y as i128;
        -dist < dx && dx < dist && -dist < dy && dy < dist
    }

    pub fn get_x(&self) -> (r: i64)
        ensures
            r == self.x,
    {
        self.x
    }

    pub fn set_x(&mut self, x: i64)
        ensures
            *final(self) == (Zone { x, ..*old(self) }),
    {
        self.x = x;
    }

    pub fn get_y(&self) -> (r: i64)
        ensures
            r == self.y,
    {
        self.y
    }

    pub fn set_y(&mut self, y: i64)
        ensures
            *final(self) == (Zone { y, ..*old(self) }),
    {
        self.y = y;
    }

    pub fn get_radius(&self) -> (r: i64)
        ensures
            r == self.radius,
    {
        self.radius
    }

    pub fn set_radius(&mut self, radius: i64)
        ensures
            *final(self) == (Zone { radius, ..*old(self) }),
    {
        self.radius = radius;
    }

    /// The center's horizontal coordinate rounded to the nearest
    /// integer; coordinates are integral, so this is the coordinate
    /// itself.
    pub fn round_x(&self) -> (r: i64)
        ensures
            r == self.x,
    {
        self.x
    }

    /// The center's vertical coordinate rounded to the nearest integer.
    pub fn round_y(&self) -> (r: i64)
        ensures
            r == self.y,
    {
        self.y
    }

    /// Copies the horizontal coordinate from another zone; the vertical
    /// coordinate and the radius keep their values.
    pub fn from(&mut self, other: &Zone)
        ensures
            *final(self) == (Zone { x: other.x, ..*old(self) }),
    {
        self.x = other.x;
    }
}

/// What `Zone::new` guarantees of a zone drawn with the given bound.
pub open spec fn drawn_within(z: Zone, bound: int) -> bool {
    &&& 0 <= z.x < bound
    &&& 0 <= z.y < bound
    &&& 0 <= z.radius
    &&& bound >= 10 ==> z.radius < bound / 10
    &&& bound < 10 ==> z.radius == 0
}

/// Builds a zone from explicit coordinates and radius.
pub fn new_zone(x: i64, y: i64, radius: i64) -> (z: Zone)
    ensures
        z == (Zone { x, y, radius }),
{
    Zone { x, y, radius }
}

} // verus!
