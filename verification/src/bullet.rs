//! Bullets: short-lived points that fly along the heading they were fired on,
//! with a speed that is drawn anew on each axis every frame.

use crate::chance::draw_between;
use crate::heading::{displace, displaced, SPEED_LIMIT};
use crate::space::{Position, Screen};
use vstd::prelude::*;

verus! {

/// How long a bullet lives, in time units (thousandths of a second).
pub const BULLET_LIFETIME: u64 = 250;

/// Smallest speed of a bullet along an axis, in units per frame.
pub const BULLET_SPEED_MIN: i64 = 25_000;

/// The bound that the speed of a bullet along an axis stays below.
pub const BULLET_SPEED_MAX: i64 = 30_000;

/// A bullet in flight.
#[derive(Clone, Copy, Debug, PartialEq, Eq, Structural)]
pub struct Bullet {
    pub position: Position,
    /// The heading of the ship when the bullet was fired, in degrees.
    pub rotation: i64,
    /// The time at which the bullet was fired.
    pub time_shot_out: u64,
    /// Whether the bullet has struck an asteroid.
    pub collided: bool,
}

/// The speeds a bullet may draw for its horizontal axis.
pub open spec fn bullet_speed_x(speed: int) -> bool {
    BULLET_SPEED_MIN <= speed < BULLET_SPEED_MAX
}

/// The speeds a bullet may draw for its vertical axis. They are negative: a
/// heading of 0 points towards smaller `y`.
pub open spec fn bullet_speed_y(speed: int) -> bool {
    -BULLET_SPEED_MAX <= speed < -BULLET_SPEED_MIN
}

impl Bullet {
    /// The bullet's position is one the simulation can hold.
    pub open spec fn wf(self) -> bool {
        self.position.in_world()
    }

    /// The bullet that `new` builds.
    pub open spec fn fired(position: Position, rotation: i64, now: u64) -> Bullet {
        Bullet { position, rotation, time_shot_out: now, collided: false }
    }

    /// Whether the bullet is kept at time `now`: it has struck nothing and
    /// less than `BULLET_LIFETIME` has passed since it was fired.
    pub open spec fn alive_at(self, now: u64) -> bool {
        !self.collided && now - self.time_shot_out < BULLET_LIFETIME
    }

    /// The bullet after a frame in which it drew the speeds `speed_x` and
    /// `speed_y`: moved along its heading and wrapped onto the screen.
    pub open spec fn advanced(self, speed_x: int, speed_y: int, screen: Screen) -> Bullet {
        let (x, y) = displaced(
            self.position.x as int,
            self.position.y as int,
            self.rotation as int,
            speed_x,
            speed_y,
        );
        Bullet { position: screen.wrap_spec(x, y), ..self }
    }

    /// Whether `after` is this bullet one frame later, for some speeds that
    /// the bullet may draw.
    pub open spec fn may_update_to(self, after: Bullet, screen: Screen) -> bool {
        exists|speed_x: int, speed_y: int|
            bullet_speed_x(speed_x) && bullet_speed_y(speed_y) && after == #[trigger] self.advanced(
                speed_x,
                speed_y,
                screen,
            )
    }

    /// A bullet fired at time `now` from `position` along `rotation`.
    pub fn new(position: Position, rotation: i64, now: u64) -> (r: Bullet)
        ensures
            r == Bullet::fired(position, rotation, now),
    {
        Bullet { position, rotation, time_shot_out: now, collided: false }
    }

    /// Whether the bullet is kept at time `now`.
    pub fn alive(&self, now: u64) -> (r: bool)
        ensures
            r == self.alive_at(now),
    {
        !self.collided && (now < self.time_shot_out || now - self.time_shot_out < BULLET_LIFETIME)
    }

    /// Moves the bullet by one frame with the given speeds: `speed_x` weighted
    /// by the sine of its heading, `speed_y` by the cosine. The bullet then
    /// wraps onto the screen.
    pub fn advance(&mut self, speed_x: i64, speed_y: i64, screen: &Screen)
        requires
            old(self).wf(),
            screen.valid(),
            -SPEED_LIMIT <= speed_x <= SPEED_LIMIT,
            -SPEED_LIMIT <= speed_y <= SPEED_LIMIT,
        ensures
            *final(self) == old(self).advanced(speed_x as int, speed_y as int, *screen),
            final(self).position.on_screen(*screen),
            final(self).wf(),
    {
        let (x, y) = displace(self.position.x, self.position.y, self.rotation, speed_x, speed_y);
        self.position = screen.wrap(x, y);
    }

    /// Moves the bullet by one frame, with a speed drawn for each axis.
    pub fn update(&mut self, screen: &Screen)
        requires
            old(self).wf(),
            screen.valid(),
        ensures
            old(self).may_update_to(*final(self), *screen),
            final(self).position.on_screen(*screen),
            final(self).wf(),
            final(self).rotation == old(self).rotation,
            final(self).time_shot_out == old(self).time_shot_out,
            final(self).collided == old(self).collided,
    {
        let speed_y: i64 = draw_between(-BULLET_SPEED_MAX, -BULLET_SPEED_MIN - 1);
        let speed_x: i64 = draw_between(BULLET_SPEED_MIN, BULLET_SPEED_MAX - 1);
        self.advance(speed_x, speed_y, screen);
    }
}

} // verus!
