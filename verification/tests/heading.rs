use asteroids::heading::{
    cosine_of, displace, normalize, scale, sine_of, QUARTER_SINE, SPEED_LIMIT, TRIG_ONE,
};

#[test]
fn normalize_brings_headings_into_one_turn() {
    assert_eq!(normalize(0), 0);
    assert_eq!(normalize(359), 359);
    assert_eq!(normalize(360), 0);
    assert_eq!(normalize(725), 5);
    assert_eq!(normalize(-5), 355);
    assert_eq!(normalize(-360), 0);
    assert_eq!(normalize(-2_880), 0);
    assert_eq!(normalize(-361), 359);
    assert_eq!(normalize(i64::MAX), i64::MAX % 360);
    assert_eq!(normalize(i64::MIN), (i64::MIN % 360) + 360);
}

#[test]
fn sine_table_holds_the_rounded_sines() {
    assert_eq!(QUARTER_SINE.len(), 91);
    for d in 0..=90usize {
        let exact = (d as f64).to_radians().sin() * 1_000_000.0;
        assert_eq!(QUARTER_SINE[d], exact.round() as i64, "at {} degrees", d);
    }
}

#[test]
fn sine_of_matches_the_sine_of_every_whole_degree() {
    for d in -1_440..=1_440i64 {
        let exact = (d as f64).to_radians().sin() * 1_000_000.0;
        assert!((sine_of(d) as f64 - exact).abs() <= 0.5001, "at {} degrees", d);
    }
}

#[test]
fn cosine_of_matches_the_cosine_of_every_whole_degree() {
    for d in -1_440..=1_440i64 {
        let exact = (d as f64).to_radians().cos() * 1_000_000.0;
        assert!((cosine_of(d) as f64 - exact).abs() <= 0.5001, "at {} degrees", d);
    }
}

#[test]
fn sine_and_cosine_at_the_quarter_turns() {
    assert_eq!(sine_of(0), 0);
    assert_eq!(sine_of(90), TRIG_ONE);
    assert_eq!(sine_of(180), 0);
    assert_eq!(sine_of(270), -TRIG_ONE);
    assert_eq!(cosine_of(0), TRIG_ONE);
    assert_eq!(cosine_of(90), 0);
    assert_eq!(cosine_of(180), -TRIG_ONE);
    assert_eq!(cosine_of(270), 0);
    assert_eq!(sine_of(30), 500_000);
    assert_eq!(sine_of(-30), -500_000);
    assert_eq!(cosine_of(60), 500_000);
    assert_eq!(cosine_of(i64::MAX), cosine_of(i64::MAX % 360));
}

#[test]
fn scale_rounds_towards_zero() {
    assert_eq!(scale(4_000, 500_000), 2_000);
    assert_eq!(scale(4_001, 500_000), 2_000);
    assert_eq!(scale(-4_001, 500_000), -2_000);
    assert_eq!(scale(4_001, -500_000), -2_000);
    assert_eq!(scale(-4_001, -500_000), 2_000);
    assert_eq!(scale(1, 999_999), 0);
    assert_eq!(scale(-1, 999_999), 0);
    assert_eq!(scale(0, TRIG_ONE), 0);
    assert_eq!(scale(7, 0), 0);
}

#[test]
fn scale_by_one_keeps_the_speed() {
    assert_eq!(scale(SPEED_LIMIT, TRIG_ONE), SPEED_LIMIT);
    assert_eq!(scale(-SPEED_LIMIT, TRIG_ONE), -SPEED_LIMIT);
    assert_eq!(scale(SPEED_LIMIT, -TRIG_ONE), -SPEED_LIMIT);
    assert_eq!(scale(4_000, TRIG_ONE), 4_000);
}

#[test]
fn displace_moves_along_the_heading() {
    // Heading 0 points up the screen: a negative vertical speed moves up.
    assert_eq!(displace(100, 200, 0, 4_000, -4_000), (100, -3_800));
    // Heading 90 points right.
    assert_eq!(displace(100, 200, 90, 4_000, -4_000), (4_100, 200));
    // Heading 180 points down.
    assert_eq!(displace(100, 200, 180, 4_000, -4_000), (100, 4_200));
    // Heading 270 points left.
    assert_eq!(displace(100, 200, 270, 4_000, -4_000), (-3_900, 200));
    // At 30 degrees: sine one half, cosine 0.866025.
    assert_eq!(displace(0, 0, 30, 4_000, -4_000), (2_000, -3_464));
}

#[test]
fn displace_weights_each_axis_by_its_own_speed() {
    assert_eq!(displace(0, 0, 30, 25_000, -30_000), (12_500, -25_980));
    assert_eq!(displace(10, 10, 45, 0, 0), (10, 10));
}
