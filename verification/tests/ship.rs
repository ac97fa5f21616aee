use asteroids::bullet::Bullet;
use asteroids::ship::{Input, Ship, HEADING_LIMIT, SHIP_MOVING_SPEED, SHIP_ROTATION_SPEED};
use asteroids::space::{Position, Screen};

fn screen() -> Screen {
    Screen::new(800_000, 600_000).unwrap()
}

fn idle() -> Input {
    Input::none()
}

fn ship_at(x: i64, y: i64, rotation: i64) -> Ship {
    Ship { position: Position { x, y }, rotation, bullets: Vec::new(), has_shield: false }
}

#[test]
fn ship_constants() {
    assert_eq!(SHIP_ROTATION_SPEED, 5);
    assert_eq!(SHIP_MOVING_SPEED, 4_000);
}

#[test]
fn input_none_holds_nothing() {
    let i = Input::none();
    assert_eq!(
        i,
        Input { forward: false, left: false, right: false, fire: false, shield: false, confirm: false, quit: false }
    );
    assert!(!i.shield_up());
}

#[test]
fn shield_is_up_only_without_fire() {
    assert!(Input { shield: true, ..idle() }.shield_up());
    assert!(!Input { shield: true, fire: true, ..idle() }.shield_up());
    assert!(!Input { fire: true, ..idle() }.shield_up());
    assert!(!idle().shield_up());
}

#[test]
fn new_ship_is_in_the_middle_without_bullets() {
    let ship = Ship::new(&screen());
    assert_eq!(ship, ship_at(400_000, 300_000, 0));
}

#[test]
fn shoot_adds_a_bullet_at_the_ship() {
    let mut ship = ship_at(10, 20, 35);
    ship.shoot(99);
    ship.shoot(100);
    assert_eq!(
        ship.bullets,
        vec![
            Bullet { position: Position { x: 10, y: 20 }, rotation: 35, time_shot_out: 99, collided: false },
            Bullet { position: Position { x: 10, y: 20 }, rotation: 35, time_shot_out: 100, collided: false },
        ]
    );
    assert_eq!(ship.position, Position { x: 10, y: 20 });
    assert_eq!(ship.rotation, 35);
}

#[test]
fn mv_without_input_leaves_the_ship() {
    let mut ship = ship_at(123_000, 456_000, 35);
    ship.mv(&idle(), 0, &screen());
    assert_eq!(ship, ship_at(123_000, 456_000, 35));
}

#[test]
fn mv_forward_moves_along_the_heading() {
    let mut up = ship_at(100_000, 100_000, 0);
    up.mv(&Input { forward: true, ..idle() }, 0, &screen());
    assert_eq!(up.position, Position { x: 100_000, y: 96_000 });
    let mut right = ship_at(100_000, 100_000, 90);
    right.mv(&Input { forward: true, ..idle() }, 0, &screen());
    assert_eq!(right.position, Position { x: 104_000, y: 100_000 });
    let mut slanted = ship_at(100_000, 100_000, 30);
    slanted.mv(&Input { forward: true, ..idle() }, 0, &screen());
    assert_eq!(slanted.position, Position { x: 102_000, y: 96_536 });
}

#[test]
fn mv_turns_by_five_degrees() {
    let mut ship = ship_at(0, 0, 0);
    ship.mv(&Input { right: true, ..idle() }, 0, &screen());
    assert_eq!(ship.rotation, 5);
    ship.mv(&Input { left: true, ..idle() }, 0, &screen());
    assert_eq!(ship.rotation, 0);
    ship.mv(&Input { left: true, ..idle() }, 0, &screen());
    assert_eq!(ship.rotation, -5);
    ship.mv(&Input { left: true, right: true, ..idle() }, 0, &screen());
    assert_eq!(ship.rotation, -5);
    ship.mv(&Input { right: true, ..idle() }, 0, &screen());
    assert_eq!(ship.rotation, 0);
}

#[test]
fn mv_keeps_the_heading_as_a_number() {
    let mut ship = ship_at(0, 0, 355);
    ship.mv(&Input { right: true, ..idle() }, 0, &screen());
    assert_eq!(ship.rotation, 360);
    ship.mv(&Input { right: true, ..idle() }, 0, &screen());
    assert_eq!(ship.rotation, 365);
    let mut back = ship_at(0, 0, -355);
    back.mv(&Input { left: true, ..idle() }, 0, &screen());
    assert_eq!(back.rotation, -360);
    let mut far = ship_at(0, 0, -725);
    far.mv(&idle(), 0, &screen());
    assert_eq!(far.rotation, -725);
}

#[test]
fn mv_without_input_leaves_any_heading() {
    for &rotation in [-5i64, 0, 359, 360, -360, 1_000_003, -HEADING_LIMIT, HEADING_LIMIT].iter() {
        let mut ship = ship_at(10_000, 20_000, rotation);
        ship.mv(&idle(), 0, &screen());
        assert_eq!(ship, ship_at(10_000, 20_000, rotation));
    }
}

#[test]
fn mv_turns_up_to_the_limit_of_the_heading() {
    let mut ship = ship_at(0, 0, HEADING_LIMIT - 5);
    ship.mv(&Input { right: true, ..idle() }, 0, &screen());
    assert_eq!(ship.rotation, HEADING_LIMIT);
    ship.mv(&Input { left: true, ..idle() }, 0, &screen());
    assert_eq!(ship.rotation, HEADING_LIMIT - 5);
    let mut back = ship_at(0, 0, 5 - HEADING_LIMIT);
    back.mv(&Input { left: true, ..idle() }, 0, &screen());
    assert_eq!(back.rotation, -HEADING_LIMIT);
}

#[test]
fn mv_past_the_limit_of_the_heading_keeps_the_direction() {
    assert_eq!(HEADING_LIMIT % 360, 0);
    let mut ship = ship_at(0, 0, HEADING_LIMIT);
    ship.mv(&Input { right: true, ..idle() }, 0, &screen());
    assert_eq!(ship.rotation, 5);
    let mut back = ship_at(0, 0, -HEADING_LIMIT);
    back.mv(&Input { left: true, ..idle() }, 0, &screen());
    assert_eq!(back.rotation, 355);
    let mut odd = ship_at(0, 0, HEADING_LIMIT - 3);
    odd.mv(&Input { right: true, ..idle() }, 0, &screen());
    assert_eq!(odd.rotation, 2);
}

#[test]
fn mv_thrusts_on_the_heading_it_had_before_the_turn() {
    let mut ship = ship_at(100_000, 100_000, 85);
    ship.mv(&Input { forward: true, right: true, ..idle() }, 0, &screen());
    assert_eq!(ship.rotation, 90);
    // sine of 85 degrees is 0.996195, cosine 0.087156
    assert_eq!(ship.position, Position { x: 103_984, y: 99_652 });
}

#[test]
fn mv_fire_adds_a_bullet_where_the_thrust_took_the_ship() {
    let mut ship = ship_at(100_000, 100_000, 90);
    ship.mv(&Input { forward: true, fire: true, left: true, ..idle() }, 42, &screen());
    assert_eq!(
        ship.bullets,
        vec![Bullet { position: Position { x: 104_000, y: 100_000 }, rotation: 90, time_shot_out: 42, collided: false }]
    );
    assert_eq!(ship.rotation, 85);
    assert_eq!(ship.position, Position { x: 104_000, y: 100_000 });
}

#[test]
fn mv_fires_one_bullet_in_every_frame_that_holds_fire() {
    let mut ship = ship_at(100_000, 100_000, 0);
    for now in 0..5u64 {
        ship.mv(&Input { fire: true, ..idle() }, now, &screen());
    }
    assert_eq!(ship.bullets.len(), 5);
    assert_eq!(ship.bullets[4].time_shot_out, 4);
}

#[test]
fn mv_fired_bullet_starts_before_the_wrap() {
    let mut ship = ship_at(100_000, 1_000, 0);
    ship.mv(&Input { forward: true, fire: true, ..idle() }, 0, &screen());
    assert_eq!(ship.bullets[0].position, Position { x: 100_000, y: -3_000 });
    assert_eq!(ship.position, Position { x: 100_000, y: 599_999 });
}

#[test]
fn mv_sets_the_shield_for_this_frame_only() {
    let mut ship = ship_at(0, 0, 0);
    ship.mv(&Input { shield: true, ..idle() }, 0, &screen());
    assert!(ship.has_shield);
    ship.mv(&idle(), 0, &screen());
    assert!(!ship.has_shield);
    ship.mv(&Input { shield: true, fire: true, ..idle() }, 0, &screen());
    assert!(!ship.has_shield);
    assert_eq!(ship.bullets.len(), 1);
}

#[test]
fn mv_wraps_the_ship_at_every_edge() {
    let s = screen();
    let forward = Input { forward: true, ..idle() };
    let mut up = ship_at(5_000, 1_000, 0);
    up.mv(&forward, 0, &s);
    assert_eq!(up.position, Position { x: 5_000, y: 599_999 });
    let mut down = ship_at(5_000, 597_000, 180);
    down.mv(&forward, 0, &s);
    assert_eq!(down.position, Position { x: 5_000, y: 0 });
    let mut right = ship_at(796_000, 5_000, 90);
    right.mv(&forward, 0, &s);
    assert_eq!(right.position, Position { x: 0, y: 5_000 });
    let mut left = ship_at(3_999, 5_000, 270);
    left.mv(&forward, 0, &s);
    assert_eq!(left.position, Position { x: 799_999, y: 5_000 });
    let mut stays = ship_at(4_000, 5_000, 270);
    stays.mv(&forward, 0, &s);
    assert_eq!(stays.position, Position { x: 0, y: 5_000 });
}

#[test]
fn mv_without_input_wraps_a_ship_that_is_off_the_screen() {
    let mut ship = ship_at(800_000, -1, 10);
    ship.mv(&idle(), 0, &screen());
    assert_eq!(ship.position, Position { x: 0, y: 599_999 });
}

#[test]
fn advance_bullets_drops_the_old_and_the_collided() {
    let mut ship = ship_at(0, 0, 0);
    let at = Position { x: 100_000, y: 100_000 };
    ship.bullets = vec![
        Bullet { position: at, rotation: 90, time_shot_out: 1_000, collided: false },
        Bullet { position: at, rotation: 90, time_shot_out: 750, collided: false },
        Bullet { position: at, rotation: 90, time_shot_out: 751, collided: false },
        Bullet { position: at, rotation: 90, time_shot_out: 990, collided: true },
        Bullet { position: at, rotation: 0, time_shot_out: 2_000, collided: false },
    ];
    ship.advance_bullets(1_000, &screen());
    assert_eq!(ship.bullets.len(), 3);
    assert_eq!(ship.bullets[0].time_shot_out, 1_000);
    assert_eq!(ship.bullets[1].time_shot_out, 751);
    assert_eq!(ship.bullets[2].time_shot_out, 2_000);
    for b in ship.bullets.iter() {
        assert!(!b.collided);
        assert!(b.alive(1_000));
    }
    assert_eq!(ship.position, Position { x: 0, y: 0 });
}

#[test]
fn advance_bullets_moves_every_bullet_that_it_keeps() {
    let mut ship = ship_at(0, 0, 0);
    let at = Position { x: 100_000, y: 100_000 };
    ship.bullets = vec![
        Bullet { position: at, rotation: 90, time_shot_out: 0, collided: false },
        Bullet { position: at, rotation: 180, time_shot_out: 0, collided: false },
    ];
    ship.advance_bullets(10, &screen());
    let dx = ship.bullets[0].position.x - at.x;
    assert!(25_000 <= dx && dx < 30_000);
    assert_eq!(ship.bullets[0].position.y, at.y);
    let dy = ship.bullets[1].position.y - at.y;
    assert!(25_000 < dy && dy <= 30_000);
    assert_eq!(ship.bullets[1].position.x, at.x);
    assert_eq!(ship.bullets[0].rotation, 90);
    assert_eq!(ship.bullets[1].rotation, 180);
}

#[test]
fn no_bullet_is_kept_past_its_lifetime() {
    let mut ship = ship_at(400_000, 300_000, 0);
    let s = screen();
    let mut now: u64 = 0;
    for frame in 0..200u64 {
        now = frame * 16;
        ship.advance_bullets(now, &s);
        ship.mv(&Input { fire: true, right: true, ..idle() }, now, &s);
        for b in ship.bullets.iter() {
            assert!(now - b.time_shot_out < 250);
        }
    }
    ship.advance_bullets(now + 250, &s);
    assert!(ship.bullets.is_empty());
}
