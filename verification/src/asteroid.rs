//! Asteroids: their four tiers, how they are spawned, struck, split and moved.

use crate::chance::draw_between;
use crate::heading::{displace, displaced, SPEED_LIMIT};
use crate::space::{inside_circle, overlaps, Position, Screen, SPAWN_INSET, WORLD_LIMIT};
use vstd::prelude::*;

verus! {

/// Radius of an asteroid of the largest tier, in units.
pub const LARGE_RADIUS: i64 = 100_000;

/// Bound on the magnitude of the heading of a new asteroid, in degrees.
pub const SPAWN_TURN: i64 = 360;

/// The size class of an asteroid, from the largest and slowest to the
/// smallest and fastest.
#[derive(Clone, Copy, Debug, PartialEq, Eq, Structural)]
pub enum Tier {
    Large,
    Medium,
    Small,
    Tiny,
}

impl Tier {
    /// The tier of an asteroid drawn with the given number of sides.
    pub open spec fn of_sides(sides: u8) -> Tier {
        if 12 <= sides <= 24 {
            Tier::Large
        } else if 9 <= sides <= 11 {
            Tier::Medium
        } else if 6 <= sides <= 8 {
            Tier::Small
        } else {
            Tier::Tiny
        }
    }

    /// The radius of every asteroid of the tier: each tier halves it.
    pub open spec fn spec_radius(self) -> i64 {
        match self {
            Tier::Large => 100_000,
            Tier::Medium => 50_000,
            Tier::Small => 25_000,
            Tier::Tiny => 12_500,
        }
    }

    /// The next tier down, if there is one.
    pub open spec fn spec_smaller(self) -> Option<Tier> {
        match self {
            Tier::Large => Some(Tier::Medium),
            Tier::Medium => Some(Tier::Small),
            Tier::Small => Some(Tier::Tiny),
            Tier::Tiny => None,
        }
    }

    /// The fewest and the most sides of an asteroid of the tier.
    pub open spec fn spec_sides_range(self) -> (u8, u8) {
        match self {
            Tier::Large => (12, 24),
            Tier::Medium => (9, 11),
            Tier::Small => (6, 8),
            Tier::Tiny => (3, 5),
        }
    }

    /// The slowest and the fastest speed of the tier, in units per frame.
    pub open spec fn spec_speed_range(self) -> (i64, i64) {
        match self {
            Tier::Large => (4_000, 5_000),
            Tier::Medium => (5_000, 6_000),
            Tier::Small => (6_000, 7_000),
            Tier::Tiny => (7_000, 8_000),
        }
    }

    /// The largest magnitude of a heading in the tier: each split doubles it.
    pub open spec fn turn_limit(self) -> int {
        match self {
            Tier::Large => 360,
            Tier::Medium => 720,
            Tier::Small => 1_440,
            Tier::Tiny => 2_880,
        }
    }

    /// Whether `sides` is a number of sides of this tier.
    pub open spec fn has_sides(self, sides: int) -> bool {
        self.spec_sides_range().0 <= sides <= self.spec_sides_range().1
    }

    /// Whether `speed` is a speed of this tier.
    pub open spec fn has_speed(self, speed: int) -> bool {
        self.spec_speed_range().0 <= speed <= self.spec_speed_range().1
    }

    /// The tier of an asteroid drawn with the given number of sides.
    pub fn from_sides(sides: u8) -> (r: Tier)
        ensures
            r == Tier::of_sides(sides),
    {
        if 12 <= sides && sides <= 24 {
            Tier::Large
        } else if 9 <= sides && sides <= 11 {
            Tier::Medium
        } else if 6 <= sides && sides <= 8 {
            Tier::Small
        } else {
            Tier::Tiny
        }
    }

    /// The radius of every asteroid of the tier.
    #[verifier::when_used_as_spec(spec_radius)]
    pub fn radius(self) -> (r: i64)
        ensures
            r == self.spec_radius(),
    {
        match self {
            Tier::Large => 100_000,
            Tier::Medium => 50_000,
            Tier::Small => 25_000,
            Tier::Tiny => 12_500,
        }
    }

    /// The next tier down, if there is one.
    #[verifier::when_used_as_spec(spec_smaller)]
    pub fn smaller(self) -> (r: Option<Tier>)
        ensures
            r == self.spec_smaller(),
    {
        match self {
            Tier::Large => Some(Tier::Medium),
            Tier::Medium => Some(Tier::Small),
            Tier::Small => Some(Tier::Tiny),
            Tier::Tiny => None,
        }
    }

    /// The fewest and the most sides of an asteroid of the tier.
    #[verifier::when_used_as_spec(spec_sides_range)]
    pub fn sides_range(self) -> (r: (u8, u8))
        ensures
            r == self.spec_sides_range(),
    {
        match self {
            Tier::Large => (12, 24),
            Tier::Medium => (9, 11),
            Tier::Small => (6, 8),
            Tier::Tiny => (3, 5),
        }
    }

    /// The slowest and the fastest speed of the tier, in units per frame.
    #[verifier::when_used_as_spec(spec_speed_range)]
    pub fn speed_range(self) -> (r: (i64, i64))
        ensures
            r == self.spec_speed_range(),
    {
        match self {
            Tier::Large => (4_000, 5_000),
            Tier::Medium => (5_000, 6_000),
            Tier::Small => (6_000, 7_000),
            Tier::Tiny => (7_000, 8_000),
        }
    }
}

/// An asteroid: a regular polygon whose number of sides tells its tier.
#[derive(Clone, Copy, Debug, PartialEq, Eq, Structural)]
pub struct Asteroid {
    pub position: Position,
    pub sides: u8,
    /// The radius, in units.
    pub size: i64,
    /// The heading, in degrees.
    pub rotation: i64,
}

/// The numbers that one split draws, in the order in which they are drawn.
#[derive(Clone, Copy, Debug, PartialEq, Eq, Structural)]
pub struct SplitDraws {
    /// The sides of the struck asteroid after the split.
    pub own_sides: u8,
    /// Where the new asteroid appears.
    pub child_x: i64,
    pub child_y: i64,
    /// The sides of the new asteroid.
    pub child_sides: u8,
    /// Where the struck asteroid goes.
    pub own_x: i64,
    pub own_y: i64,
}

impl SplitDraws {
    /// Whether these are numbers that a split of `asteroid` may draw: both
    /// numbers of sides are of the next tier down, the new asteroid appears
    /// within four old radii of the struck one on each axis, and the struck
    /// one moves by at most four new radii on each axis.
    pub open spec fn fit(self, asteroid: Asteroid) -> bool {
        let far = 4 * asteroid.size;
        let near = 4 * (asteroid.size / 2);
        &&& asteroid.tier().spec_smaller() matches Some(next)
        &&& next.has_sides(self.own_sides as int)
        &&& next.has_sides(self.child_sides as int)
        &&& asteroid.position.x - far <= self.child_x <= asteroid.position.x + far
        &&& asteroid.position.y - far <= self.child_y <= asteroid.position.y + far
        &&& asteroid.position.x - near <= self.own_x <= asteroid.position.x + near
        &&& asteroid.position.y - near <= self.own_y <= asteroid.position.y + near
    }
}

impl Asteroid {
    /// The tier, which the number of sides tells.
    pub open spec fn tier(self) -> Tier {
        Tier::of_sides(self.sides)
    }

    /// The asteroid is a polygon, its tier gives its radius and bounds its
    /// heading, and around it the world leaves room for every split that it
    /// can still undergo.
    pub open spec fn wf(self) -> bool {
        &&& 3 <= self.sides <= 24
        &&& self.size == self.tier().spec_radius()
        &&& -self.tier().turn_limit() <= self.rotation <= self.tier().turn_limit()
        &&& self.position.within(WORLD_LIMIT - 8 * self.size)
    }

    /// The asteroid that `spawn_at` builds.
    pub open spec fn spawned(position: Position, sides: u8, rotation: i64) -> Asteroid {
        Asteroid { position, sides, size: LARGE_RADIUS, rotation }
    }

    /// Whether `new` may return `asteroid` on `screen`.
    pub open spec fn may_spawn(asteroid: Asteroid, screen: Screen) -> bool {
        &&& SPAWN_INSET <= asteroid.position.x < screen.width - SPAWN_INSET
        &&& SPAWN_INSET <= asteroid.position.y < screen.height - SPAWN_INSET
        &&& Tier::Large.has_sides(asteroid.sides as int)
        &&& asteroid.size == LARGE_RADIUS
        &&& -SPAWN_TURN <= asteroid.rotation < SPAWN_TURN
    }

    /// Whether the centre of the asteroid is nearer to `point` than its radius.
    pub open spec fn covers(self, point: Position) -> bool {
        inside_circle(
            self.position.x as int,
            self.position.y as int,
            self.size as int,
            point.x as int,
            point.y as int,
        )
    }

    /// The struck asteroid after a split that drew `draws`: one tier down,
    /// with half the radius and twice the heading.
    pub open spec fn shrunk(self, draws: SplitDraws) -> Asteroid {
        Asteroid {
            position: Position { x: draws.own_x, y: draws.own_y },
            sides: draws.own_sides,
            size: (self.size / 2) as i64,
            rotation: (2 * self.rotation) as i64,
        }
    }

    /// The new asteroid of a split that drew `draws`: one tier down from the
    /// struck one, with half its radius and twice its heading.
    pub open spec fn child(self, draws: SplitDraws) -> Asteroid {
        Asteroid {
            position: Position { x: draws.child_x, y: draws.child_y },
            sides: draws.child_sides,
            size: (self.size / 2) as i64,
            rotation: (2 * self.rotation) as i64,
        }
    }

    /// Whether a split of this asteroid may leave `after` in its place.
    pub open spec fn may_shrink_to(self, after: Asteroid) -> bool {
        exists|draws: SplitDraws| draws.fit(self) && after == #[trigger] self.shrunk(draws)
    }

    /// Whether a split of this asteroid may add `born` to the field.
    pub open spec fn may_bear(self, born: Asteroid) -> bool {
        exists|draws: SplitDraws| draws.fit(self) && born == #[trigger] self.child(draws)
    }

    /// The asteroid after a frame in which it drew `speed`: moved along its
    /// heading and wrapped onto the screen.
    pub open spec fn advanced(self, speed: int, screen: Screen) -> Asteroid {
        let (x, y) = displaced(
            self.position.x as int,
            self.position.y as int,
            self.rotation as int,
            speed,
            -speed,
        );
        Asteroid { position: screen.wrap_spec(x, y), ..self }
    }

    /// Whether `after` is this asteroid one frame later, for some speed of
    /// its tier.
    pub open spec fn may_move_to(self, after: Asteroid, screen: Screen) -> bool {
        exists|speed: int|
            self.tier().has_speed(speed) && after == #[trigger] self.advanced(speed, screen)
    }

    /// An asteroid of the largest radius with the given place, sides and
    /// heading.
    pub fn spawn_at(position: Position, sides: u8, rotation: i64) -> (r: Asteroid)
        ensures
            r == Asteroid::spawned(position, sides, rotation),
    {
        Asteroid { position, sides, size: LARGE_RADIUS, rotation }
    }

    /// A new asteroid of the largest tier, somewhere on the screen at least
    /// `SPAWN_INSET` from every edge, with drawn sides and heading.
    pub fn new(screen: &Screen) -> (r: Asteroid)
        requires
            screen.spawnable(),
        ensures
            Asteroid::may_spawn(r, *screen),
            r.wf(),
            r.tier() == Tier::Large,
            r.position.on_screen(*screen),
    {
        let x: i64 = draw_between(SPAWN_INSET, screen.width - SPAWN_INSET - 1);
        let y: i64 = draw_between(SPAWN_INSET, screen.height - SPAWN_INSET - 1);
        let sides: i64 = draw_between(12, 24);
        let rotation: i64 = draw_between(-SPAWN_TURN, SPAWN_TURN - 1);
        Asteroid::spawn_at(Position { x, y }, sides as u8, rotation)
    }

    /// The tier of the asteroid.
    pub fn tier_of(&self) -> (r: Tier)
        ensures
            r == self.tier(),
    {
        Tier::from_sides(self.sides)
    }

    /// Whether `position` lies inside the asteroid: nearer to its centre than
    /// its radius.
    pub fn collided(&self, position: &Position) -> (r: bool)
        requires
            self.position.in_world(),
            0 <= self.size <= WORLD_LIMIT,
            position.in_world(),
        ensures
            r == self.covers(*position),
    {
        overlaps(&self.position, self.size, position)
    }

    /// Splits the asteroid with the given draws. An asteroid of the smallest
    /// tier stays as it is and `None` is returned: it is to be removed. Any
    /// other goes one tier down in place, and the new asteroid of the same
    /// tier is returned.
    pub fn resize_with(&mut self, draws: &SplitDraws) -> (r: Option<Asteroid>)
        requires
            old(self).wf(),
            old(self).tier() != Tier::Tiny ==> draws.fit(*old(self)),
        ensures
            old(self).tier() == Tier::Tiny ==> r.is_none() && *final(self) == *old(self),
            old(self).tier() != Tier::Tiny ==> r == Some(old(self).child(*draws)) && *final(self)
                == old(self).shrunk(*draws),
            final(self).wf(),
            r matches Some(born) ==> born.wf(),
    {
        match self.tier_of() {
            Tier::Tiny => None,
            _ => {
                let born = Asteroid {
                    position: Position { x: draws.child_x, y: draws.child_y },
                    sides: draws.child_sides,
                    size: self.size / 2,
                    rotation: self.rotation * 2,
                };
                self.sides = draws.own_sides;
                self.size = self.size / 2;
                self.rotation = self.rotation * 2;
                self.position = Position { x: draws.own_x, y: draws.own_y };
                Some(born)
            },
        }
    }

    /// Splits the asteroid as `resize_with` does, with numbers that it draws.
    pub fn resize(&mut self) -> (r: Option<Asteroid>)
        requires
            old(self).wf(),
        ensures
            old(self).tier() == Tier::Tiny ==> r.is_none() && *final(self) == *old(self),
            old(self).tier() != Tier::Tiny ==> r.is_some() && old(self).may_shrink_to(*final(self))
                && old(self).may_bear(r.unwrap()),
            final(self).wf(),
            r matches Some(born) ==> {
                &&& born.wf()
                &&& Some(born.tier()) == old(self).tier().spec_smaller()
                &&& Some(final(self).tier()) == old(self).tier().spec_smaller()
                &&& born.size * 2 == old(self).size
                &&& final(self).size * 2 == old(self).size
                &&& born.rotation == 2 * old(self).rotation
                &&& final(self).rotation == 2 * old(self).rotation
            },
    {
        match self.tier_of().smaller() {
            None => None,
            Some(next) => {
                let (fewest, most) = next.sides_range();
                let own_sides: i64 = draw_between(fewest as i64, most as i64);
                let reach: i64 = self.size * 4;
                let child_x: i64 = draw_between(self.position.x - reach, self.position.x + reach);
                let child_y: i64 = draw_between(self.position.y - reach, self.position.y + reach);
                let child_sides: i64 = draw_between(fewest as i64, most as i64);
                let near: i64 = (self.size / 2) * 4;
                let own_x: i64 = draw_between(self.position.x - near, self.position.x + near);
                let own_y: i64 = draw_between(self.position.y - near, self.position.y + near);
                let draws = SplitDraws {
                    own_sides: own_sides as u8,
                    child_x,
                    child_y,
                    child_sides: child_sides as u8,
                    own_x,
                    own_y,
                };
                self.resize_with(&draws)
            },
        }
    }

    /// Moves the asteroid by one frame at the given speed along its heading,
    /// then wraps it onto the screen.
    pub fn advance(&mut self, speed: i64, screen: &Screen)
        requires
            old(self).wf(),
            screen.valid(),
            0 <= speed <= SPEED_LIMIT,
        ensures
            *final(self) == old(self).advanced(speed as int, *screen),
            final(self).position.on_screen(*screen),
            final(self).wf(),
    {
        let (x, y) = displace(self.position.x, self.position.y, self.rotation, speed, -speed);
        self.position = screen.wrap(x, y);
    }

    /// Moves the asteroid by one frame at a speed drawn from its tier's range.
    pub fn mv(&mut self, screen: &Screen)
        requires
            old(self).wf(),
            screen.valid(),
        ensures
            old(self).may_move_to(*final(self), *screen),
            final(self).position.on_screen(*screen),
            final(self).wf(),
            final(self).sides == old(self).sides,
            final(self).size == old(self).size,
            final(self).rotation == old(self).rotation,
    {
        let (slowest, fastest) = self.tier_of().speed_range();
        let speed: i64 = draw_between(slowest, fastest);
        self.advance(speed, screen);
    }
}

} // verus!
