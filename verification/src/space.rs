//! Fixed-point plane geometry: positions, the screen rectangle, edge
//! wrap-around and the circle-versus-point overlap test.
//!
//! Every length is a whole number of units, a thousand units to the pixel, so
//! that all of the simulation is exact integer arithmetic.

use vstd::prelude::*;

verus! {

/// Length units in one pixel.
pub const UNITS_PER_PIXEL: i64 = 1000;

/// Largest magnitude a coordinate may take anywhere in the simulation.
pub const WORLD_LIMIT: i64 = 1_000_000_000_000;

/// Largest width or height of a screen. It leaves room, between the screen's
/// far edge and the world's limit, for the scatter of a splitting asteroid.
pub const SCREEN_LIMIT: i64 = 999_999_200_000;

/// How far from every edge of the screen a new asteroid is placed at least.
pub const SPAWN_INSET: i64 = 35_000;

/// A point of the plane, in units. `x` grows to the right and `y` downwards.
#[derive(Clone, Copy, Debug, PartialEq, Eq, Structural)]
pub struct Position {
    pub x: i64,
    pub y: i64,
}

/// The visible rectangle `[0, width) x [0, height)`, in units.
#[derive(Clone, Copy, Debug, PartialEq, Eq, Structural)]
pub struct Screen {
    pub width: i64,
    pub height: i64,
}

/// Where a coordinate `v` re-enters an axis of length `extent`: a coordinate at
/// or past the far edge comes back at the near edge, one before the near edge
/// comes back at the last unit before the far edge, and any other stays.
pub open spec fn wrapped(v: int, extent: int) -> int {
    if v >= extent {
        0
    } else if v < 0 {
        extent - 1
    } else {
        v
    }
}

/// Whether the point `(px, py)` lies strictly inside the circle of the given
/// radius around `(cx, cy)`: the Euclidean distance is less than the radius.
pub open spec fn inside_circle(cx: int, cy: int, radius: int, px: int, py: int) -> bool {
    (cx - px) * (cx - px) + (cy - py) * (cy - py) < radius * radius
}

impl Position {
    /// Both coordinates have a magnitude of at most `limit`.
    pub open spec fn within(self, limit: int) -> bool {
        &&& -limit <= self.x <= limit
        &&& -limit <= self.y <= limit
    }

    /// The position is one the simulation can hold.
    pub open spec fn in_world(self) -> bool {
        self.within(WORLD_LIMIT as int)
    }

    /// The position lies on the screen.
    pub open spec fn on_screen(self, screen: Screen) -> bool {
        &&& 0 <= self.x < screen.width
        &&& 0 <= self.y < screen.height
    }
}

impl Screen {
    /// A screen has a positive extent on both axes, within the limit.
    pub open spec fn valid(self) -> bool {
        &&& 0 < self.width <= SCREEN_LIMIT
        &&& 0 < self.height <= SCREEN_LIMIT
    }

    /// The screen is valid and has room, inside the inset from its edges, to
    /// place a new asteroid.
    pub open spec fn spawnable(self) -> bool {
        &&& self.valid()
        &&& self.width > 2 * SPAWN_INSET
        &&& self.height > 2 * SPAWN_INSET
    }

    /// The position in which `(x, y)` re-enters the screen.
    pub open spec fn wrap_spec(self, x: int, y: int) -> Position {
        Position { x: wrapped(x, self.width as int) as i64, y: wrapped(y, self.height as int) as i64 }
    }

    /// The middle of the screen.
    pub open spec fn center_spec(self) -> Position {
        Position { x: (self.width / 2) as i64, y: (self.height / 2) as i64 }
    }

    /// Builds a screen from its extent in units, or `None` where an extent is
    /// not positive or exceeds `SCREEN_LIMIT`.
    pub fn new(width: i64, height: i64) -> (r: Option<Screen>)
        ensures
            r == if 0 < width <= SCREEN_LIMIT && 0 < height <= SCREEN_LIMIT {
                Some(Screen { width, height })
            } else {
                None
            },
            r matches Some(s) ==> s.valid(),
    {
        if 0 < width && width <= SCREEN_LIMIT && 0 < height && height <= SCREEN_LIMIT {
            Some(Screen { width, height })
        } else {
            None
        }
    }

    /// Whether the screen has room to place a new asteroid.
    pub fn can_spawn(&self) -> (r: bool)
        requires
            self.valid(),
        ensures
            r == self.spawnable(),
    {
        self.width > 2 * SPAWN_INSET && self.height > 2 * SPAWN_INSET
    }

    /// The middle of the screen.
    pub fn center(&self) -> (r: Position)
        requires
            self.valid(),
        ensures
            r == self.center_spec(),
            r.on_screen(*self),
    {
        Position { x: self.width / 2, y: self.height / 2 }
    }

    /// Brings a point that has left the screen back onto it.
    pub fn wrap(&self, x: i64, y: i64) -> (r: Position)
        requires
            self.valid(),
        ensures
            r == self.wrap_spec(x as int, y as int),
            r.on_screen(*self),
            0 <= x < self.width ==> r.x == x,
            0 <= y < self.height ==> r.y == y,
    {
        Position { x: wrap_coordinate(x, self.width), y: wrap_coordinate(y, self.height) }
    }
}

/// Wraps one coordinate onto an axis of length `extent`.
pub fn wrap_coordinate(v: i64, extent: i64) -> (r: i64)
    requires
        0 < extent,
    ensures
        r == wrapped(v as int, extent as int),
        0 <= r < extent,
{
    if v >= extent {
        0
    } else if v < 0 {
        extent - 1
    } else {
        v
    }
}

/// Tests whether `point` lies strictly inside the circle of the given radius
/// around `center`.
pub fn overlaps(center: &Position, radius: i64, point: &Position) -> (r: bool)
    requires
        center.in_world(),
        point.in_world(),
        0 <= radius <= WORLD_LIMIT,
    ensures
        r == inside_circle(
            center.x as int,
            center.y as int,
            radius as int,
            point.x as int,
            point.y as int,
        ),
{
    let dx: i128 = center.x as i128 - point.x as i128;
    let dy: i128 = center.y as i128 - point.y as i128;
    let rad: i128 = radius as i128;
    proof {
        lemma_square_bound(dx as int, 2 * WORLD_LIMIT as int);
        lemma_square_bound(dy as int, 2 * WORLD_LIMIT as int);
        lemma_square_bound(rad as int, WORLD_LIMIT as int);
    }
    dx * dx + dy * dy < rad * rad
}

/// The square of a number of magnitude at most `bound` lies in `[0, bound * bound]`.
pub proof fn lemma_square_bound(v: int, bound: int)
    by (nonlinear_arith)
    requires
        -bound <= v <= bound,
    ensures
        0 <= v * v <= bound * bound,
{
}

} // verus!
