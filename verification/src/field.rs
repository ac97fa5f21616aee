//! The asteroid field: which asteroids the bullets strike, what becomes of
//! the struck ones, and how the whole field moves.

use crate::asteroid::{Asteroid, Tier};
use crate::bullet::Bullet;
use crate::ship::bullets_wf;
use crate::space::{Position, Screen};
use vstd::prelude::*;

verus! {

/// Every asteroid of the sequence is well formed.
pub open spec fn field_wf(asteroids: Seq<Asteroid>) -> bool {
    forall|i: int| 0 <= i < asteroids.len() ==> (#[trigger] asteroids[i]).wf()
}

/// Every asteroid of the sequence lies on the screen.
pub open spec fn field_on_screen(asteroids: Seq<Asteroid>, screen: Screen) -> bool {
    forall|i: int| 0 <= i < asteroids.len() ==> (#[trigger] asteroids[i]).position.on_screen(screen)
}

/// Whether some bullet lies inside the asteroid.
pub open spec fn struck(asteroid: Asteroid, bullets: Seq<Bullet>) -> bool {
    exists|j: int| 0 <= j < bullets.len() && asteroid.covers((#[trigger] bullets[j]).position)
}

/// Whether the point lies inside some asteroid.
pub open spec fn inside_any(point: Position, asteroids: Seq<Asteroid>) -> bool {
    exists|i: int| 0 <= i < asteroids.len() && (#[trigger] asteroids[i]).covers(point)
}

/// The bullets, each marked as collided if it lies inside some asteroid.
pub open spec fn flagged(bullets: Seq<Bullet>, asteroids: Seq<Asteroid>) -> Seq<Bullet> {
    Seq::new(
        bullets.len(),
        |j: int|
            Bullet {
                collided: bullets[j].collided || inside_any(bullets[j].position, asteroids),
                ..bullets[j]
            },
    )
}

/// The test for the asteroids that stay in the field: all but those of the
/// smallest tier that a bullet strikes.
pub open spec fn stays(bullets: Seq<Bullet>) -> spec_fn(Asteroid) -> bool {
    |asteroid: Asteroid| !(struck(asteroid, bullets) && asteroid.tier() == Tier::Tiny)
}

/// The test for the asteroids that split: those above the smallest tier that
/// a bullet strikes.
pub open spec fn splits(bullets: Seq<Bullet>) -> spec_fn(Asteroid) -> bool {
    |asteroid: Asteroid| struck(asteroid, bullets) && asteroid.tier() != Tier::Tiny
}

/// Whether `after` is a field that the strikes of `bullets` may leave of
/// `before`. First come, in order, the asteroids that stay: an unstruck one
/// as it was, a struck one shrunk. Then come, in the order of their parents,
/// the new asteroids, one for each asteroid that split.
pub open spec fn settles_to(before: Seq<Asteroid>, bullets: Seq<Bullet>, after: Seq<Asteroid>) -> bool {
    let kept = before.filter(stays(bullets));
    let split = before.filter(splits(bullets));
    &&& after.len() == kept.len() + split.len()
    &&& forall|k: int|
        0 <= k < kept.len() ==> if struck(#[trigger] kept[k], bullets) {
            kept[k].may_shrink_to(after[k])
        } else {
            after[k] == kept[k]
        }
    &&& forall|s: int| 0 <= s < split.len() ==> (#[trigger] split[s]).may_bear(after[kept.len() + s])
}

/// Whether `after` holds the asteroids of `before`, in order, each one frame
/// later.
pub open spec fn field_moves_to(before: Seq<Asteroid>, after: Seq<Asteroid>, screen: Screen) -> bool {
    &&& after.len() == before.len()
    &&& forall|i: int| 0 <= i < before.len() ==> (#[trigger] before[i]).may_move_to(after[i], screen)
}

/// Whether `asteroids` is a field that a new session may start with: `count`
/// asteroids, each one that `Asteroid::new` may return.
pub open spec fn may_open_with(asteroids: Seq<Asteroid>, count: int, screen: Screen) -> bool {
    &&& asteroids.len() == count
    &&& forall|i: int| 0 <= i < asteroids.len() ==> Asteroid::may_spawn(#[trigger] asteroids[i], screen)
}

/// Tests whether some bullet lies inside the asteroid.
pub fn struck_by(asteroid: &Asteroid, bullets: &Vec<Bullet>) -> (r: bool)
    requires
        asteroid.wf(),
        bullets_wf(bullets@),
    ensures
        r == struck(*asteroid, bullets@),
{
    let mut j: usize = 0;
    while j < bullets.len()
        invariant
            j <= bullets.len(),
            asteroid.wf(),
            bullets_wf(bullets@),
            forall|k: int| 0 <= k < j ==> !asteroid.covers((#[trigger] bullets@[k]).position),
        decreases bullets.len() - j,
    {
        assert(bullets@[j as int].wf());
        if asteroid.collided(&bullets[j].position) {
            return true;
        }
        j = j + 1;
    }
    false
}

/// Tests whether the point lies inside some asteroid.
pub fn covered(point: &Position, asteroids: &Vec<Asteroid>) -> (r: bool)
    requires
        point.in_world(),
        field_wf(asteroids@),
    ensures
        r == inside_any(*point, asteroids@),
{
    let mut i: usize = 0;
    while i < asteroids.len()
        invariant
            i <= asteroids.len(),
            point.in_world(),
            field_wf(asteroids@),
            forall|k: int| 0 <= k < i ==> !(#[trigger] asteroids@[k]).covers(*point),
        decreases asteroids.len() - i,
    {
        assert(asteroids@[i as int].wf());
        if asteroids[i].collided(point) {
            return true;
        }
        i = i + 1;
    }
    false
}

/// Marks as collided every bullet that lies inside some asteroid.
pub fn flag_struck(bullets: &mut Vec<Bullet>, asteroids: &Vec<Asteroid>)
    requires
        bullets_wf(old(bullets)@),
        field_wf(asteroids@),
    ensures
        final(bullets)@ == flagged(old(bullets)@, asteroids@),
        bullets_wf(final(bullets)@),
{
    let mut marked: Vec<Bullet> = Vec::new();
    let mut j: usize = 0;
    while j < bullets.len()
        invariant
            j <= bullets.len(),
            bullets@ == old(bullets)@,
            bullets_wf(bullets@),
            field_wf(asteroids@),
            marked@ == flagged(bullets@, asteroids@).take(j as int),
        decreases bullets.len() - j,
    {
        let mut bullet: Bullet = bullets[j];
        assert(bullets@[j as int].wf());
        if covered(&bullet.position, asteroids) {
            bullet.collided = true;
        }
        marked.push(bullet);
        assert(marked@ == flagged(bullets@, asteroids@).take(j + 1));
        j = j + 1;
    }
    assert(marked@ == flagged(bullets@, asteroids@));
    *bullets = marked;
}

/// Resolves the strikes of one frame. An asteroid that no bullet strikes stays
/// as it is. A struck asteroid of the smallest tier is removed. Any other
/// struck asteroid is split once, however many bullets strike it: it goes one
/// tier down in place, and its new asteroid joins the end of the field.
pub fn settle(asteroids: &Vec<Asteroid>, bullets: &Vec<Bullet>) -> (r: Vec<Asteroid>)
    requires
        field_wf(asteroids@),
        bullets_wf(bullets@),
    ensures
        settles_to(asteroids@, bullets@, r@),
        field_wf(r@),
{
    let mut kept: Vec<Asteroid> = Vec::new();
    let mut born: Vec<Asteroid> = Vec::new();
    let mut i: usize = 0;
    let ghost before = asteroids@;
    let ghost shots = bullets@;
    proof {
        reveal(Seq::filter);
        assert(before.take(0).filter(stays(shots)) =~= Seq::<Asteroid>::empty());
        assert(before.take(0).filter(splits(shots)) =~= Seq::<Asteroid>::empty());
    }
    while i < asteroids.len()
        invariant
            i <= asteroids.len(),
            before == asteroids@,
            shots == bullets@,
            field_wf(before),
            bullets_wf(shots),
            field_wf(kept@),
            field_wf(born@),
            kept@.len() == before.take(i as int).filter(stays(shots)).len(),
            born@.len() == before.take(i as int).filter(splits(shots)).len(),
            forall|k: int|
                0 <= k < kept@.len() ==> if struck(
                    #[trigger] before.take(i as int).filter(stays(shots))[k],
                    shots,
                ) {
                    before.take(i as int).filter(stays(shots))[k].may_shrink_to(kept@[k])
                } else {
                    kept@[k] == before.take(i as int).filter(stays(shots))[k]
                },
            forall|s: int|
                0 <= s < born@.len() ==> (#[trigger] before.take(i as int).filter(
                    splits(shots),
                )[s]).may_bear(born@[s]),
        decreases asteroids.len() - i,
    {
        let mut asteroid: Asteroid = asteroids[i];
        let ghost earlier = before.take(i as int);
        proof {
            assert(before[i as int].wf());
            assert(before.take(i + 1) =~= earlier.push(before[i as int]));
            earlier.lemma_filter_push(before[i as int], stays(shots));
            earlier.lemma_filter_push(before[i as int], splits(shots));
        }
        if struck_by(&asteroid, bullets) {
            match asteroid.resize() {
                Some(child) => {
                    kept.push(asteroid);
                    born.push(child);
                },
                None => {},
            }
        } else {
            kept.push(asteroid);
        }
        i = i + 1;
    }
    proof {
        assert(before.take(i as int) =~= before);
    }
    let ghost stayed = kept@;
    let ghost added = born@;
    kept.append(&mut born);
    proof {
        assert(kept@ =~= stayed + added);
    }
    kept
}

/// Moves every asteroid of the field by one frame.
pub fn move_all(asteroids: &mut Vec<Asteroid>, screen: &Screen)
    requires
        field_wf(old(asteroids)@),
        screen.valid(),
    ensures
        field_moves_to(old(asteroids)@, final(asteroids)@, *screen),
        field_wf(final(asteroids)@),
        field_on_screen(final(asteroids)@, *screen),
{
    let mut moved: Vec<Asteroid> = Vec::new();
    let mut i: usize = 0;
    while i < asteroids.len()
        invariant
            i <= asteroids.len(),
            asteroids@ == old(asteroids)@,
            field_wf(asteroids@),
            screen.valid(),
            field_moves_to(asteroids@.take(i as int), moved@, *screen),
            field_wf(moved@),
            field_on_screen(moved@, *screen),
        decreases asteroids.len() - i,
    {
        let mut asteroid: Asteroid = asteroids[i];
        assert(asteroids@[i as int].wf());
        asteroid.mv(screen);
        moved.push(asteroid);
        i = i + 1;
    }
    assert(asteroids@.take(i as int) =~= asteroids@);
    *asteroids = moved;
}

/// A field of `count` new asteroids on the screen.
pub fn spawn_field(count: u8, screen: &Screen) -> (r: Vec<Asteroid>)
    requires
        screen.spawnable(),
    ensures
        may_open_with(r@, count as int, *screen),
        field_wf(r@),
        field_on_screen(r@, *screen),
{
    let mut asteroids: Vec<Asteroid> = Vec::new();
    let mut i: u8 = 0;
    while i < count
        invariant
            i <= count,
            screen.spawnable(),
            may_open_with(asteroids@, i as int, *screen),
            field_wf(asteroids@),
            field_on_screen(asteroids@, *screen),
        decreases count - i,
    {
        asteroids.push(Asteroid::new(screen));
        i = i + 1;
    }
    asteroids
}

} // verus!
