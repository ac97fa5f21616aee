//! The ship: what one frame of input does to it, and the bullets it owns.

use crate::bullet::Bullet;
use crate::heading::{displace, displaced, normalize, normalized};
use crate::space::{Position, Screen, WORLD_LIMIT};
use vstd::prelude::*;

verus! {

/// Degrees by which the ship turns in a frame.
pub const SHIP_ROTATION_SPEED: i64 = 5;

/// Units by which the ship moves in a frame under thrust.
pub const SHIP_MOVING_SPEED: i64 = 4_000;

/// Largest magnitude of the ship's heading, in degrees: a whole number of
/// turns, so far out that no session reaches it.
pub const HEADING_LIMIT: i64 = 360_000_000_000;

/// The controls that are held during one frame.
#[derive(Clone, Copy, Debug, PartialEq, Eq, Structural)]
pub struct Input {
    pub forward: bool,
    pub left: bool,
    pub right: bool,
    pub fire: bool,
    pub shield: bool,
    pub confirm: bool,
    pub quit: bool,
}

/// The ship, with the bullets it has fired.
#[derive(Clone, Debug, PartialEq, Eq)]
pub struct Ship {
    pub position: Position,
    /// The heading, in degrees.
    pub rotation: i64,
    pub bullets: Vec<Bullet>,
    /// Whether the shield was up in the last frame.
    pub has_shield: bool,
}

/// The ship as a mathematical value.
pub struct ShipView {
    pub position: Position,
    pub rotation: i64,
    pub bullets: Seq<Bullet>,
    pub has_shield: bool,
}

impl View for Ship {
    type V = ShipView;

    open spec fn view(&self) -> ShipView {
        ShipView {
            position: self.position,
            rotation: self.rotation,
            bullets: self.bullets@,
            has_shield: self.has_shield,
        }
    }
}

/// The test that keeps the bullets alive at time `now`.
pub open spec fn alive_at(now: u64) -> spec_fn(Bullet) -> bool {
    |bullet: Bullet| bullet.alive_at(now)
}

/// Whether `after` holds the bullets of `before`, in order, each one frame
/// later.
pub open spec fn bullets_update_to(before: Seq<Bullet>, after: Seq<Bullet>, screen: Screen) -> bool {
    &&& after.len() == before.len()
    &&& forall|i: int| 0 <= i < before.len() ==> (#[trigger] before[i]).may_update_to(after[i], screen)
}

/// The heading `rotation` after a turn by `turn` degrees: their sum. Only
/// where the sum would pass `HEADING_LIMIT` it is replaced by the heading in
/// `[0, 360)` that points the same way.
pub open spec fn turned(rotation: int, turn: int) -> int {
    let sum = rotation + turn;
    if -HEADING_LIMIT <= sum <= HEADING_LIMIT {
        sum
    } else {
        normalized(sum)
    }
}

/// Every bullet of the sequence has a position the simulation can hold.
pub open spec fn bullets_wf(bullets: Seq<Bullet>) -> bool {
    forall|i: int| 0 <= i < bullets.len() ==> (#[trigger] bullets[i]).wf()
}

impl Input {
    /// No control is held.
    pub open spec fn idle() -> Input {
        Input {
            forward: false,
            left: false,
            right: false,
            fire: false,
            shield: false,
            confirm: false,
            quit: false,
        }
    }

    /// The degrees by which the held controls turn the ship: right is
    /// clockwise, left is counter-clockwise, and both together cancel.
    pub open spec fn turn(self) -> int {
        (if self.right {
            SHIP_ROTATION_SPEED as int
        } else {
            0
        }) - (if self.left {
            SHIP_ROTATION_SPEED as int
        } else {
            0
        })
    }

    /// Whether the shield is up in this frame: its control is held and fire
    /// is not.
    pub open spec fn shielding(self) -> bool {
        self.shield && !self.fire
    }

    /// The input of a frame in which no control is held.
    pub fn none() -> (r: Input)
        ensures
            r == Input::idle(),
    {
        Input {
            forward: false,
            left: false,
            right: false,
            fire: false,
            shield: false,
            confirm: false,
            quit: false,
        }
    }

    /// Whether the shield is up in this frame.
    pub fn shield_up(&self) -> (r: bool)
        ensures
            r == self.shielding(),
    {
        self.shield && !self.fire
    }
}

impl ShipView {
    /// The ship and its bullets are where the simulation can hold them, the
    /// ship has room for one frame of thrust, and its heading is within
    /// `HEADING_LIMIT`.
    pub open spec fn wf(self) -> bool {
        &&& self.position.within(WORLD_LIMIT - SHIP_MOVING_SPEED)
        &&& -HEADING_LIMIT <= self.rotation <= HEADING_LIMIT
        &&& bullets_wf(self.bullets)
    }

    /// A new ship: in the middle of the screen, heading up, without bullets
    /// or shield.
    pub open spec fn fresh(screen: Screen) -> ShipView {
        ShipView {
            position: screen.center_spec(),
            rotation: 0,
            bullets: Seq::empty(),
            has_shield: false,
        }
    }

    /// Where the thrust of this frame takes the ship, before it wraps.
    pub open spec fn thrust(self, input: Input) -> Position {
        if input.forward {
            let (x, y) = displaced(
                self.position.x as int,
                self.position.y as int,
                self.rotation as int,
                SHIP_MOVING_SPEED as int,
                -SHIP_MOVING_SPEED as int,
            );
            Position { x: x as i64, y: y as i64 }
        } else {
            self.position
        }
    }

    /// The ship with one more bullet, fired at time `now` from where the
    /// ship is, along its heading.
    pub open spec fn shot(self, now: u64) -> ShipView {
        ShipView {
            bullets: self.bullets.push(Bullet::fired(self.position, self.rotation, now)),
            ..self
        }
    }

    /// The ship after one frame of input at time `now`: thrust moves it along
    /// its heading; fire adds a bullet where the thrust took it, on the heading
    /// it had; the shield is up if held without fire; left takes
    /// `SHIP_ROTATION_SPEED` degrees from the heading and right adds as many;
    /// at the end it wraps onto the screen.
    pub open spec fn moved(self, input: Input, now: u64, screen: Screen) -> ShipView {
        let at = self.thrust(input);
        ShipView {
            position: screen.wrap_spec(at.x as int, at.y as int),
            rotation: turned(self.rotation as int, input.turn()) as i64,
            bullets: if input.fire {
                self.bullets.push(Bullet::fired(at, self.rotation, now))
            } else {
                self.bullets
            },
            has_shield: input.shielding(),
        }
    }

    /// The bullets that are kept at time `now`, in order.
    pub open spec fn survivors(self, now: u64) -> Seq<Bullet> {
        self.bullets.filter(alive_at(now))
    }
}

impl Ship {
    /// A new ship in the middle of the screen.
    pub fn new(screen: &Screen) -> (r: Ship)
        requires
            screen.valid(),
        ensures
            r@ == ShipView::fresh(*screen),
            r@.wf(),
            r.position.on_screen(*screen),
    {
        Ship { position: screen.center(), rotation: 0, bullets: Vec::new(), has_shield: false }
    }

    /// Fires a bullet at time `now` from where the ship is, along its heading.
    pub fn shoot(&mut self, now: u64)
        ensures
            final(self)@ == old(self)@.shot(now),
    {
        self.bullets.push(Bullet::new(self.position, self.rotation, now));
    }

    /// Applies one frame of input to the ship.
    pub fn mv(&mut self, input: &Input, now: u64, screen: &Screen)
        requires
            old(self)@.wf(),
            screen.valid(),
        ensures
            final(self)@ == old(self)@.moved(*input, now, *screen),
            final(self)@.wf(),
            final(self).position.on_screen(*screen),
    {
        let rotation: i64 = self.rotation;
        if input.forward {
            let (x, y) = displace(
                self.position.x,
                self.position.y,
                rotation,
                SHIP_MOVING_SPEED,
                -SHIP_MOVING_SPEED,
            );
            self.position = Position { x, y };
        }
        if input.fire {
            self.shoot(now);
        }
        self.has_shield = input.shield_up();
        let mut heading: i64 = rotation;
        if input.left {
            heading = heading - SHIP_ROTATION_SPEED;
        }
        if input.right {
            heading = heading + SHIP_ROTATION_SPEED;
        }
        if heading < -HEADING_LIMIT || heading > HEADING_LIMIT {
            heading = normalize(heading);
        }
        self.rotation = heading;
        self.position = screen.wrap(self.position.x, self.position.y);
    }

    /// Moves every bullet by one frame, then drops those that have struck an
    /// asteroid or have reached their lifetime at time `now`.
    pub fn advance_bullets(&mut self, now: u64, screen: &Screen)
        requires
            old(self)@.wf(),
            screen.valid(),
        ensures
            bullets_update_to(old(self)@.survivors(now), final(self)@.bullets, *screen),
            forall|i: int|
                0 <= i < final(self)@.bullets.len() ==> {
                    &&& (#[trigger] final(self)@.bullets[i]).alive_at(now)
                    &&& final(self)@.bullets[i].position.on_screen(*screen)
                },
            final(self).position == old(self).position,
            final(self).rotation == old(self).rotation,
            final(self).has_shield == old(self).has_shield,
            final(self)@.wf(),
    {
        let mut kept: Vec<Bullet> = Vec::new();
        let mut i: usize = 0;
        let ghost before = self.bullets@;
        proof {
            reveal(Seq::filter);
            assert(before.take(0).filter(alive_at(now)) =~= Seq::<Bullet>::empty());
        }
        while i < self.bullets.len()
            invariant
                i <= self.bullets.len(),
                self.bullets@ == before,
                bullets_wf(before),
                screen.valid(),
                bullets_update_to(before.take(i as int).filter(alive_at(now)), kept@, *screen),
                forall|k: int|
                    0 <= k < kept@.len() ==> {
                        &&& (#[trigger] kept@[k]).alive_at(now)
                        &&& kept@[k].position.on_screen(*screen)
                        &&& kept@[k].wf()
                    },
            decreases self.bullets.len() - i,
        {
            let mut bullet: Bullet = self.bullets[i];
            let ghost earlier = before.take(i as int);
            proof {
                assert(before[i as int].wf());
                assert(before.take(i + 1) =~= earlier.push(before[i as int]));
                earlier.lemma_filter_push(before[i as int], alive_at(now));
            }
            bullet.update(screen);
            if bullet.alive(now) {
                kept.push(bullet);
            }
            i = i + 1;
        }
        proof {
            assert(before.take(i as int) =~= before);
        }
        self.bullets = kept;
    }
}

} // verus!
