//! What holds of every frame and of every split, proved from the
//! definitions that the contracts of the simulation use.

use crate::asteroid::{Asteroid, SplitDraws, Tier};
use crate::bullet::{Bullet, BULLET_LIFETIME};
use crate::field::{
    field_moves_to, field_wf, flagged, inside_any, settles_to, splits, stays, struck,
};
use crate::game::{GameView, Phase, ASTEROID_COUNT};
use crate::heading::{cosine, lemma_scaled_bounds, lemma_sine_bounds, sine};
use crate::ship::{
    alive_at, bullets_update_to, Input, ShipView, HEADING_LIMIT, SHIP_MOVING_SPEED,
    SHIP_ROTATION_SPEED,
};
use crate::space::{Screen, SPAWN_INSET};
use vstd::prelude::*;

verus! {

/// After any frame the ship and every asteroid lie on the screen: both
/// coordinates are at least 0 and less than the screen's extent.
pub proof fn lemma_frame_ends_on_screen(
    before: GameView,
    after: GameView,
    input: Input,
    now: u64,
    screen: Screen,
)
    requires
        screen.valid(),
        before.may_step_to(after, input, now, screen),
    ensures
        after.on_screen(screen),
{
    assert forall|i: int| 0 <= i < after.asteroids.len() implies (
    #[trigger] after.asteroids[i]).position.on_screen(screen) by {
        let settled = choose|settled: Seq<Asteroid>|
            settles_to(before.asteroids, before.ship.bullets, settled)
                && #[trigger] field_moves_to(settled, after.asteroids, screen);
        assert(settled[i].may_move_to(after.asteroids[i], screen));
    }
}

/// A frame keeps a well-formed state well formed, so that frame can follow
/// frame.
pub proof fn lemma_frame_keeps_wf(
    before: GameView,
    after: GameView,
    input: Input,
    now: u64,
    screen: Screen,
)
    requires
        screen.valid(),
        before.wf(),
        before.may_step_to(after, input, now, screen),
    ensures
        after.wf(),
{
    lemma_frame_ends_on_screen(before, after, input, now, screen);
    let kept = before.kept_bullets(now);
    let shot = choose|shot: Seq<Bullet>|
        {
            &&& #[trigger] bullets_update_to(kept, shot, screen)
            &&& after.ship == (ShipView { bullets: shot, ..before.ship }).moved(
                input,
                now,
                screen,
            )
        };
    assert forall|i: int| 0 <= i < after.ship.bullets.len() implies (
    #[trigger] after.ship.bullets[i]).wf() by {
        if i < shot.len() {
            assert(after.ship.bullets[i] == shot[i]);
            assert(kept[i].may_update_to(shot[i], screen));
        } else {
            lemma_sine_bounds(before.ship.rotation as int);
            lemma_scaled_bounds(
                SHIP_MOVING_SPEED as int,
                sine(before.ship.rotation as int),
            );
            lemma_scaled_bounds(
                -SHIP_MOVING_SPEED as int,
                cosine(before.ship.rotation as int),
            );
        }
    }
    if !before.crashed(input) {
        let settled = choose|settled: Seq<Asteroid>|
            settles_to(before.asteroids, before.ship.bullets, settled)
                && #[trigger] field_moves_to(settled, after.asteroids, screen);
        assert forall|i: int| 0 <= i < after.asteroids.len() implies (
        #[trigger] after.asteroids[i]).wf() by {
            lemma_settled_wf(before.asteroids, before.ship.bullets, settled, i);
            assert(settled[i].may_move_to(after.asteroids[i], screen));
        }
    }
}

/// Every asteroid of a field that has settled its strikes is well formed, if
/// those before were.
pub proof fn lemma_settled_wf(
    before: Seq<Asteroid>,
    bullets: Seq<Bullet>,
    after: Seq<Asteroid>,
    i: int,
)
    requires
        field_wf(before),
        settles_to(before, bullets, after),
        0 <= i < after.len(),
    ensures
        after[i].wf(),
{
    let kept = before.filter(stays(bullets));
    let split = before.filter(splits(bullets));
    if i < kept.len() {
        before.lemma_filter_contains_rev(stays(bullets), kept[i]);
        assert(kept.contains(kept[i]));
        assert(kept[i].wf());
        if struck(kept[i], bullets) {
            let draws = choose|draws: SplitDraws|
                draws.fit(kept[i]) && after[i] == #[trigger] kept[i].shrunk(draws);
            lemma_split_goes_one_tier_down(kept[i], draws);
        }
    } else {
        let s = i - kept.len();
        before.lemma_filter_contains_rev(splits(bullets), split[s]);
        assert(split.contains(split[s]));
        assert(split[s].wf());
        let draws = choose|draws: SplitDraws|
            draws.fit(split[s]) && after[i] == #[trigger] split[s].child(draws);
        lemma_split_goes_one_tier_down(split[s], draws);
    }
}

/// Each tier below the largest has half the radius of the tier above it, may
/// hold twice the heading, and moves faster.
pub proof fn lemma_next_tier_halves(tier: Tier)
    requires
        tier != Tier::Tiny,
    ensures
        tier.spec_smaller() matches Some(next) && {
            &&& next.spec_radius() * 2 == tier.spec_radius()
            &&& next.turn_limit() == 2 * tier.turn_limit()
            &&& next.spec_speed_range().0 == tier.spec_speed_range().1
            &&& next.spec_sides_range().1 < tier.spec_sides_range().0
        },
{
}

/// A split takes an asteroid exactly one tier down. Both the struck asteroid
/// and the new one are of the next tier, have half the radius and twice the
/// heading of the asteroid that was struck, and are well formed.
pub proof fn lemma_split_goes_one_tier_down(asteroid: Asteroid, draws: SplitDraws)
    requires
        asteroid.wf(),
        draws.fit(asteroid),
    ensures
        asteroid.tier() != Tier::Tiny,
        Some(asteroid.shrunk(draws).tier()) == asteroid.tier().spec_smaller(),
        Some(asteroid.child(draws).tier()) == asteroid.tier().spec_smaller(),
        asteroid.shrunk(draws).size * 2 == asteroid.size,
        asteroid.child(draws).size * 2 == asteroid.size,
        asteroid.shrunk(draws).rotation == 2 * asteroid.rotation,
        asteroid.child(draws).rotation == 2 * asteroid.rotation,
        asteroid.shrunk(draws).wf(),
        asteroid.child(draws).wf(),
{
}

/// What one struck asteroid leaves in the field. Of the smallest tier:
/// nothing. Of any other tier, such as the largest: itself and exactly one new
/// asteroid, both of the next tier down, each with half the radius and twice
/// the heading.
pub proof fn lemma_strike_on_one(asteroid: Asteroid, bullets: Seq<Bullet>, after: Seq<Asteroid>)
    requires
        asteroid.wf(),
        struck(asteroid, bullets),
        settles_to(seq![asteroid], bullets, after),
    ensures
        asteroid.tier() == Tier::Tiny ==> after.len() == 0,
        asteroid.tier() != Tier::Tiny ==> {
            &&& after.len() == 2
            &&& Some(after[0].tier()) == asteroid.tier().spec_smaller()
            &&& Some(after[1].tier()) == asteroid.tier().spec_smaller()
            &&& after[0].size * 2 == asteroid.size
            &&& after[1].size * 2 == asteroid.size
            &&& after[0].rotation == 2 * asteroid.rotation
            &&& after[1].rotation == 2 * asteroid.rotation
        },
        asteroid.tier() == Tier::Large ==> after[0].tier() == Tier::Medium && after[1].tier()
            == Tier::Medium,
{
    reveal_with_fuel(Seq::filter, 2);
    let field = seq![asteroid];
    assert(field.drop_last() =~= Seq::<Asteroid>::empty());
    assert(field.last() == asteroid);
    let kept = field.filter(stays(bullets));
    let split = field.filter(splits(bullets));
    if asteroid.tier() == Tier::Tiny {
        assert(kept =~= Seq::<Asteroid>::empty());
        assert(split =~= Seq::<Asteroid>::empty());
    } else {
        assert(kept =~= seq![asteroid]);
        assert(split =~= seq![asteroid]);
        assert(kept[0] == asteroid);
        assert(split[0] == asteroid);
        let own = choose|draws: SplitDraws|
            draws.fit(asteroid) && after[0] == #[trigger] asteroid.shrunk(draws);
        let new = choose|draws: SplitDraws|
            draws.fit(asteroid) && after[1] == #[trigger] asteroid.child(draws);
        lemma_split_goes_one_tier_down(asteroid, own);
        lemma_split_goes_one_tier_down(asteroid, new);
    }
}

/// How a frame moves the session between its phases. A ship struck without
/// its shield loses the session in that very frame and empties the field. A
/// session that is lost stays lost. In a session in which the ship was never
/// struck, the frame that leaves no asteroid wins, and while asteroids remain
/// the session is active.
pub proof fn lemma_phase_after_frame(
    before: GameView,
    after: GameView,
    input: Input,
    now: u64,
    screen: Screen,
)
    requires
        before.wf(),
        before.may_step_to(after, input, now, screen),
    ensures
        before.crashed(input) ==> after.phase() == Phase::Lost && after.asteroids.len() == 0,
        before.phase() == Phase::Lost ==> after.phase() == Phase::Lost,
        before.did_win && !before.crashed(input) ==> after.phase() == if after.asteroids.len()
            == 0 {
            Phase::Won
        } else {
            Phase::Active
        },
        before.phase() == Phase::Won ==> after.phase() == Phase::Won,
{
    reveal(Seq::filter);
    if before.asteroids.len() == 0 {
        assert(!inside_any(before.ship.position, before.asteroids));
        let settled = choose|settled: Seq<Asteroid>|
            settles_to(before.asteroids, before.ship.bullets, settled)
                && #[trigger] field_moves_to(settled, after.asteroids, screen);
        assert(before.asteroids.filter(stays(before.ship.bullets)).len() == 0);
        assert(before.asteroids.filter(splits(before.ship.bullets)).len() == 0);
    }
}

/// No bullet outlives its lifetime: every bullet that a frame at time `now`
/// leaves was fired less than `BULLET_LIFETIME` before `now`, wherever it
/// has moved, and has struck nothing.
pub proof fn lemma_bullets_expire(
    before: GameView,
    after: GameView,
    input: Input,
    now: u64,
    screen: Screen,
    i: int,
)
    requires
        before.may_step_to(after, input, now, screen),
        0 <= i < after.ship.bullets.len(),
    ensures
        now - after.ship.bullets[i].time_shot_out < BULLET_LIFETIME,
        !after.ship.bullets[i].collided,
        after.ship.bullets[i].alive_at(now),
{
    let kept = before.kept_bullets(now);
    let shot = choose|shot: Seq<Bullet>|
        {
            &&& #[trigger] bullets_update_to(kept, shot, screen)
            &&& after.ship == (ShipView { bullets: shot, ..before.ship }).moved(
                input,
                now,
                screen,
            )
        };
    if i < shot.len() {
        assert(after.ship.bullets[i] == shot[i]);
        assert(kept[i].may_update_to(shot[i], screen));
        flagged(before.ship.bullets, before.asteroids).lemma_filter_pred(
            alive_at(now),
            i,
        );
        assert(alive_at(now)(kept[i]));
    }
}

/// The shield decides the frame in which the ship lies inside an asteroid:
/// the session survives that frame exactly if the shield control is held and
/// the fire control is not.
pub proof fn lemma_shield_suppresses_loss(
    before: GameView,
    after: GameView,
    input: Input,
    now: u64,
    screen: Screen,
)
    requires
        before.did_win,
        inside_any(before.ship.position, before.asteroids),
        before.may_step_to(after, input, now, screen),
    ensures
        after.did_win <==> (input.shield && !input.fire),
        after.phase() == Phase::Lost <==> !(input.shield && !input.fire),
{
    if input.shield && !input.fire {
    } else {
        assert(before.crashed(input));
    }
}

/// A frame turns the ship by what is held and by nothing else: left takes
/// `SHIP_ROTATION_SPEED` degrees from the heading, right adds as many, and
/// both together or neither leave the heading as it is. The heading is kept
/// as a number: it is not brought into one turn.
pub proof fn lemma_turn_adds_to_heading(ship: ShipView, input: Input, now: u64, screen: Screen)
    requires
        ship.wf(),
        -HEADING_LIMIT <= ship.rotation + input.turn() <= HEADING_LIMIT,
    ensures
        ship.moved(input, now, screen).rotation == ship.rotation + input.turn(),
        input.left && !input.right ==> ship.moved(input, now, screen).rotation == ship.rotation
            - SHIP_ROTATION_SPEED,
        input.right && !input.left ==> ship.moved(input, now, screen).rotation == ship.rotation
            + SHIP_ROTATION_SPEED,
        input.left == input.right ==> ship.moved(input, now, screen).rotation == ship.rotation,
{
}

/// With no control held, the ship's part of a frame leaves a ship that is on
/// the screen as it is: its position, its heading and its bullets.
pub proof fn lemma_idle_ship_stays(ship: ShipView, now: u64, screen: Screen)
    requires
        screen.valid(),
        ship.wf(),
        ship.position.on_screen(screen),
    ensures
        ship.moved(Input::idle(), now, screen).position == ship.position,
        ship.moved(Input::idle(), now, screen).rotation == ship.rotation,
        ship.moved(Input::idle(), now, screen).bullets == ship.bullets,
        ship.moved(Input::idle(), now, screen).has_shield == false,
{
}

/// With no control held and no asteroid left, a frame leaves a ship that is
/// on the screen where it is and on the heading it has, and leaves the field
/// empty and the session in its phase.
pub proof fn lemma_idle_frame_keeps_ship(
    before: GameView,
    after: GameView,
    now: u64,
    screen: Screen,
)
    requires
        screen.valid(),
        before.wf(),
        before.asteroids.len() == 0,
        before.ship.position.on_screen(screen),
        before.may_step_to(after, Input::idle(), now, screen),
    ensures
        after.ship.position == before.ship.position,
        after.ship.rotation == before.ship.rotation,
        after.ship.has_shield == false,
        after.asteroids.len() == 0,
        after.did_win == before.did_win,
        after.phase() == before.phase(),
{
    reveal(Seq::filter);
    assert(!inside_any(before.ship.position, before.asteroids));
    let settled = choose|settled: Seq<Asteroid>|
        settles_to(before.asteroids, before.ship.bullets, settled)
            && #[trigger] field_moves_to(settled, after.asteroids, screen);
    assert(before.asteroids.filter(stays(before.ship.bullets)).len() == 0);
    assert(before.asteroids.filter(splits(before.ship.bullets)).len() == 0);
}

/// A session opens with the ship in the middle of the screen, heading up,
/// without bullets, and with the starting number of asteroids of the largest
/// tier, each at least `SPAWN_INSET` from every edge of the screen.
pub proof fn lemma_opening(state: GameView, screen: Screen)
    requires
        screen.spawnable(),
        state.may_open(screen),
    ensures
        state.ship.position == screen.center_spec(),
        state.ship.rotation == 0,
        state.ship.bullets.len() == 0,
        state.asteroids.len() == ASTEROID_COUNT,
        forall|i: int|
            0 <= i < state.asteroids.len() ==> {
                &&& SPAWN_INSET <= (#[trigger] state.asteroids[i]).position.x < screen.width
                    - SPAWN_INSET
                &&& SPAWN_INSET <= state.asteroids[i].position.y < screen.height - SPAWN_INSET
                &&& state.asteroids[i].tier() == Tier::Large
                &&& state.asteroids[i].wf()
            },
        state.wf(),
        state.on_screen(screen),
        state.phase() == Phase::Active,
{
}

} // verus!
