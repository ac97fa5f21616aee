//! The state of a session and its frame-by-frame advance.

use crate::asteroid::Asteroid;
use crate::bullet::Bullet;
use crate::field::{
    covered, field_moves_to, field_on_screen, field_wf, flag_struck, flagged, inside_any,
    may_open_with, move_all, settle, settles_to, spawn_field,
};
use crate::ship::{alive_at, bullets_update_to, Input, Ship, ShipView};
use crate::space::Screen;
use vstd::prelude::*;

verus! {

/// The number of asteroids that a session starts with.
pub const ASTEROID_COUNT: u8 = 10;

/// Where a session stands.
#[derive(Clone, Copy, Debug, PartialEq, Eq, Structural)]
pub enum Phase {
    /// Asteroids remain.
    Active,
    /// No asteroid remains and the ship was never struck.
    Won,
    /// The ship was struck without its shield.
    Lost,
}

/// What the loop around the simulation is to do after a frame.
#[derive(Clone, Copy, Debug, PartialEq, Eq, Structural)]
pub enum Signal {
    /// Show the state and go on with the next frame.
    Continue,
    /// A new session has begun: go on with the next frame.
    Restart,
    /// Stop.
    Quit,
}

/// The ship, its bullets and the asteroids of one session.
#[derive(Clone, Debug, PartialEq, Eq)]
pub struct GameState {
    pub ship: Ship,
    pub asteroids: Vec<Asteroid>,
    /// False from the frame on in which the ship is struck.
    pub did_win: bool,
}

/// The state of a session as a mathematical value.
pub struct GameView {
    pub ship: ShipView,
    pub asteroids: Seq<Asteroid>,
    pub did_win: bool,
}

impl View for GameState {
    type V = GameView;

    open spec fn view(&self) -> GameView {
        GameView { ship: self.ship@, asteroids: self.asteroids@, did_win: self.did_win }
    }
}

impl GameView {
    /// The ship and every asteroid are well formed, and a lost session has no
    /// asteroids.
    pub open spec fn wf(self) -> bool {
        &&& self.ship.wf()
        &&& field_wf(self.asteroids)
        &&& !self.did_win ==> self.asteroids.len() == 0
    }

    /// Where the session stands.
    pub open spec fn phase(self) -> Phase {
        if self.asteroids.len() > 0 {
            Phase::Active
        } else if self.did_win {
            Phase::Won
        } else {
            Phase::Lost
        }
    }

    /// The ship and every asteroid lie on the screen.
    pub open spec fn on_screen(self, screen: Screen) -> bool {
        &&& self.ship.position.on_screen(screen)
        &&& field_on_screen(self.asteroids, screen)
    }

    /// Whether a session may start in this state on `screen`: a new ship, the
    /// starting number of new asteroids, and nothing lost.
    pub open spec fn may_open(self, screen: Screen) -> bool {
        &&& self.ship == ShipView::fresh(screen)
        &&& may_open_with(self.asteroids, ASTEROID_COUNT as int, screen)
        &&& self.did_win
    }

    /// Whether the ship is struck in a frame with the given input: it lies
    /// inside some asteroid and its shield is not up.
    pub open spec fn crashed(self, input: Input) -> bool {
        inside_any(self.ship.position, self.asteroids) && !input.shielding()
    }

    /// The bullets that a frame at time `now` keeps, before they move: those
    /// that lie inside no asteroid, had struck nothing before, and are younger
    /// than their lifetime.
    pub open spec fn kept_bullets(self, now: u64) -> Seq<Bullet> {
        flagged(self.ship.bullets, self.asteroids).filter(alive_at(now))
    }

    /// Whether one frame with the given input at time `now` may lead from
    /// this state to `after`.
    ///
    /// Strikes are found on the state as the frame meets it. The ship is
    /// struck if it lies inside an asteroid without its shield up: then the
    /// session is lost and the field is emptied. Otherwise the field settles
    /// the strikes of the bullets and every asteroid moves. The bullets that
    /// are kept move, and then the ship obeys the input.
    pub open spec fn may_step_to(self, after: GameView, input: Input, now: u64, screen: Screen) -> bool {
        &&& after.did_win == (self.did_win && !self.crashed(input))
        &&& exists|shot: Seq<Bullet>|
            {
                &&& #[trigger] bullets_update_to(self.kept_bullets(now), shot, screen)
                &&& after.ship == (ShipView { bullets: shot, ..self.ship }).moved(
                    input,
                    now,
                    screen,
                )
            }
        &&& if self.crashed(input) {
            after.asteroids.len() == 0
        } else {
            exists|settled: Seq<Asteroid>|
                {
                    &&& settles_to(self.asteroids, self.ship.bullets, settled)
                    &&& #[trigger] field_moves_to(settled, after.asteroids, screen)
                }
        }
    }
}

impl GameState {
    /// A new session on `screen`: the ship in the middle, and the starting
    /// number of asteroids at drawn places.
    pub fn new(screen: &Screen) -> (r: GameState)
        requires
            screen.spawnable(),
        ensures
            r@.may_open(*screen),
            r@.wf(),
            r@.on_screen(*screen),
            r@.phase() == Phase::Active,
    {
        GameState {
            ship: Ship::new(screen),
            asteroids: spawn_field(ASTEROID_COUNT, screen),
            did_win: true,
        }
    }

    /// Where the session stands.
    pub fn phase(&self) -> (r: Phase)
        ensures
            r == self@.phase(),
    {
        if self.asteroids.len() > 0 {
            Phase::Active
        } else if self.did_win {
            Phase::Won
        } else {
            Phase::Lost
        }
    }

    /// Advances the session by one frame with the given input, at time `now`.
    ///
    /// The frame first finds the strikes on the state as it meets it, and
    /// loses the session or settles the field. Then the bullets move and those
    /// that struck or expired are dropped, the ship obeys the input, and the
    /// asteroids move.
    pub fn update(&mut self, input: &Input, now: u64, screen: &Screen)
        requires
            old(self)@.wf(),
            screen.valid(),
        ensures
            old(self)@.may_step_to(final(self)@, *input, now, *screen),
            final(self)@.wf(),
            final(self)@.on_screen(*screen),
            forall|i: int|
                0 <= i < final(self)@.ship.bullets.len() ==> (
                #[trigger] final(self)@.ship.bullets[i]).alive_at(now),
            old(self)@.crashed(*input) ==> final(self)@.phase() == Phase::Lost,
    {
        let ghost before = self@;
        let crashed: bool = !input.shield_up() && covered(&self.ship.position, &self.asteroids);
        let mut settled: Vec<Asteroid> = Vec::new();
        if crashed {
            self.did_win = false;
        } else {
            settled = settle(&self.asteroids, &self.ship.bullets);
        }
        let ghost mid = settled@;
        flag_struck(&mut self.ship.bullets, &self.asteroids);
        self.asteroids = settled;
        self.ship.advance_bullets(now, screen);
        let ghost shot = self.ship@.bullets;
        self.ship.mv(input, now, screen);
        move_all(&mut self.asteroids, screen);
        proof {
            assert(bullets_update_to(before.kept_bullets(now), shot, *screen));
            let flying = ShipView { bullets: shot, ..before.ship };
            assert(self@.ship == flying.moved(*input, now, *screen));
            if !crashed {
                assert(settles_to(before.asteroids, before.ship.bullets, mid));
                assert(field_moves_to(mid, self@.asteroids, *screen));
            }
        }
    }
}

/// Plays one frame of the loop around a session.
///
/// A held quit control stops the loop and leaves the session as it is. In a
/// session that is won or lost, a held confirm control begins a new session.
/// In every other case the session advances by one frame.
pub fn play(state: &mut GameState, input: &Input, now: u64, screen: &Screen) -> (r: Signal)
    requires
        old(state)@.wf(),
        screen.valid(),
        !input.quit && input.confirm && old(state)@.phase() != Phase::Active ==> screen.spawnable(),
    ensures
        r == if input.quit {
            Signal::Quit
        } else if input.confirm && old(state)@.phase() != Phase::Active {
            Signal::Restart
        } else {
            Signal::Continue
        },
        r == Signal::Quit ==> final(state)@ == old(state)@,
        r == Signal::Restart ==> final(state)@.may_open(*screen),
        r == Signal::Continue ==> old(state)@.may_step_to(final(state)@, *input, now, *screen),
        final(state)@.wf(),
        r != Signal::Quit ==> final(state)@.on_screen(*screen),
{
    if input.quit {
        return Signal::Quit;
    }
    match state.phase() {
        Phase::Active => {},
        _ => {
            if input.confirm {
                *state = GameState::new(screen);
                return Signal::Restart;
            }
        },
    }
    state.update(input, now, screen);
    Signal::Continue
}

} // verus!
