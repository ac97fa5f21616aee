//! Headings in whole degrees and the displacement they give to a speed.
//!
//! A heading of 0 points up the screen (towards smaller `y`) and grows
//! clockwise. Sines and cosines are whole numbers of millionths, read from a
//! table of the first quadrant.

use crate::space::WORLD_LIMIT;
use vstd::prelude::*;

verus! {

/// The fixed-point value of 1 for sines and cosines.
pub const TRIG_ONE: i64 = 1_000_000;

/// Largest magnitude of a speed, in units per frame, that `scale` accepts.
pub const SPEED_LIMIT: i64 = 1_000_000;

/// The sine of 0, 1, ..., 90 degrees in millionths, rounded to the nearest.
pub const QUARTER_SINE: [i64; 91] = [
    0, 17452, 34899, 52336, 69756, 87156, 104528,
    121869, 139173, 156434, 173648, 190809, 207912, 224951,
    241922, 258819, 275637, 292372, 309017, 325568, 342020,
    358368, 374607, 390731, 406737, 422618, 438371, 453990,
    469472, 484810, 500000, 515038, 529919, 544639, 559193,
    573576, 587785, 601815, 615661, 629320, 642788, 656059,
    669131, 681998, 694658, 707107, 719340, 731354, 743145,
    754710, 766044, 777146, 788011, 798636, 809017, 819152,
    829038, 838671, 848048, 857167, 866025, 874620, 882948,
    891007, 898794, 906308, 913545, 920505, 927184, 933580,
    939693, 945519, 951057, 956305, 961262, 965926, 970296,
    974370, 978148, 981627, 984808, 987688, 990268, 992546,
    994522, 996195, 997564, 998630, 999391, 999848, 1000000,
];

/// The heading in `[0, 360)` that points the same way as `degrees`.
pub open spec fn normalized(degrees: int) -> int {
    degrees % 360
}

/// The sine of a whole number of degrees, in millionths.
#[verifier::opaque]
pub open spec fn sine(degrees: int) -> int {
    let d = normalized(degrees);
    if d <= 90 {
        QUARTER_SINE[d] as int
    } else if d <= 180 {
        QUARTER_SINE[180 - d] as int
    } else if d <= 270 {
        -(QUARTER_SINE[d - 180] as int)
    } else {
        -(QUARTER_SINE[360 - d] as int)
    }
}

/// The cosine of a whole number of degrees, in millionths.
pub open spec fn cosine(degrees: int) -> int {
    sine(degrees + 90)
}

/// The part `unit / TRIG_ONE` of `speed`, rounded towards zero.
#[verifier::opaque]
pub open spec fn scaled(speed: int, unit: int) -> int {
    let product = speed * unit;
    if product >= 0 {
        product / (TRIG_ONE as int)
    } else {
        -((-product) / (TRIG_ONE as int))
    }
}

/// Where a point at `(x, y)` arrives when it moves along `degrees` with the
/// signed speeds `speed_x` and `speed_y`: the first is weighted by the sine
/// and added to `x`, the second by the cosine and added to `y`.
pub open spec fn displaced(x: int, y: int, degrees: int, speed_x: int, speed_y: int) -> (int, int) {
    (x + scaled(speed_x, sine(degrees)), y + scaled(speed_y, cosine(degrees)))
}

/// The first `n` entries of the table lie in `[0, TRIG_ONE]`.
spec fn table_bounded_to(n: nat) -> bool
    decreases n,
{
    if n == 0 {
        true
    } else {
        table_bounded_to((n - 1) as nat) && 0 <= QUARTER_SINE[n - 1] <= TRIG_ONE
    }
}

proof fn lemma_table_bounded_below(n: nat, d: int)
    requires
        table_bounded_to(n),
        n <= 91,
        0 <= d < n,
    ensures
        0 <= QUARTER_SINE[d] <= TRIG_ONE,
    decreases n,
{
    if d < n - 1 {
        lemma_table_bounded_below((n - 1) as nat, d);
    }
}

/// Every entry of the table lies in `[0, TRIG_ONE]`.
pub proof fn lemma_quarter_sine_bounds(d: int)
    requires
        0 <= d <= 90,
    ensures
        0 <= QUARTER_SINE[d] <= TRIG_ONE,
{
    assert(table_bounded_to(91)) by {
        reveal_with_fuel(table_bounded_to, 92);
    }
    lemma_table_bounded_below(91, d);
}

/// Sines and cosines have a magnitude of at most `TRIG_ONE`.
pub proof fn lemma_sine_bounds(degrees: int)
    ensures
        -TRIG_ONE <= sine(degrees) <= TRIG_ONE,
        -TRIG_ONE <= cosine(degrees) <= TRIG_ONE,
{
    lemma_sine_bounds_one(degrees);
    lemma_sine_bounds_one(degrees + 90);
}

proof fn lemma_sine_bounds_one(degrees: int)
    ensures
        -TRIG_ONE <= sine(degrees) <= TRIG_ONE,
{
    reveal(sine);
    let d = normalized(degrees);
    if d <= 90 {
        lemma_quarter_sine_bounds(d);
    } else if d <= 180 {
        lemma_quarter_sine_bounds(180 - d);
    } else if d <= 270 {
        lemma_quarter_sine_bounds(d - 180);
    } else {
        lemma_quarter_sine_bounds(360 - d);
    }
}

/// A speed scaled by a sine or cosine is no larger in magnitude than the speed.
pub proof fn lemma_scaled_bounds(speed: int, unit: int)
    requires
        -TRIG_ONE <= unit <= TRIG_ONE,
    ensures
        speed >= 0 ==> -speed <= scaled(speed, unit) <= speed,
        speed <= 0 ==> speed <= scaled(speed, unit) <= -speed,
        scaled(speed, 0) == 0,
        scaled(0, unit) == 0,
{
    reveal(scaled);
    let one = TRIG_ONE as int;
    let product = speed * unit;
    assert(speed >= 0 ==> -speed * one <= product <= speed * one) by (nonlinear_arith)
        requires
            product == speed * unit,
            -one <= unit <= one,
    ;
    assert(speed <= 0 ==> speed * one <= product <= -speed * one) by (nonlinear_arith)
        requires
            product == speed * unit,
            -one <= unit <= one,
    ;
    assert(speed * 0 == 0) by (nonlinear_arith);
    assert(0 * unit == 0) by (nonlinear_arith);
}

/// Brings a heading into `[0, 360)`.
pub fn normalize(degrees: i64) -> (r: i64)
    ensures
        r == normalized(degrees as int),
        0 <= r < 360,
{
    let m: i64 = degrees % 360;
    if m < 0 {
        m + 360
    } else {
        m
    }
}

/// The sine of `degrees`, in millionths.
pub fn sine_of(degrees: i64) -> (r: i64)
    ensures
        r == sine(degrees as int),
        -TRIG_ONE <= r <= TRIG_ONE,
{
    let d: i64 = normalize(degrees);
    proof {
        reveal(sine);
        lemma_sine_bounds(degrees as int);
    }
    if d <= 90 {
        QUARTER_SINE[d as usize]
    } else if d <= 180 {
        QUARTER_SINE[(180 - d) as usize]
    } else if d <= 270 {
        -QUARTER_SINE[(d - 180) as usize]
    } else {
        -QUARTER_SINE[(360 - d) as usize]
    }
}

/// The cosine of `degrees`, in millionths.
pub fn cosine_of(degrees: i64) -> (r: i64)
    ensures
        r == cosine(degrees as int),
        -TRIG_ONE <= r <= TRIG_ONE,
{
    let d: i64 = normalize(degrees);
    proof {
        reveal(sine);
        lemma_sine_bounds(degrees as int);
        assert(normalized(d + 90) == normalized(degrees + 90));
    }
    sine_of(d + 90)
}

/// Scales a speed by a sine or cosine, rounding towards zero.
pub fn scale(speed: i64, unit: i64) -> (r: i64)
    requires
        -SPEED_LIMIT <= speed <= SPEED_LIMIT,
        -TRIG_ONE <= unit <= TRIG_ONE,
    ensures
        r == scaled(speed as int, unit as int),
        speed >= 0 ==> -speed <= r <= speed,
        speed <= 0 ==> speed <= r <= -speed,
{
    proof {
        reveal(scaled);
        lemma_scaled_bounds(speed as int, unit as int);
        let limit = SPEED_LIMIT as int;
        let one = TRIG_ONE as int;
        assert(-limit * one <= speed * unit <= limit * one) by (nonlinear_arith)
            requires
                -limit <= speed <= limit,
                -one <= unit <= one,
        ;
    }
    let product: i64 = speed * unit;
    product / TRIG_ONE
}

/// Moves the point `(x, y)` along `degrees` with the signed speeds `speed_x`
/// and `speed_y`, and returns where it arrives.
pub fn displace(x: i64, y: i64, degrees: i64, speed_x: i64, speed_y: i64) -> (r: (i64, i64))
    requires
        -WORLD_LIMIT <= x <= WORLD_LIMIT,
        -WORLD_LIMIT <= y <= WORLD_LIMIT,
        -SPEED_LIMIT <= speed_x <= SPEED_LIMIT,
        -SPEED_LIMIT <= speed_y <= SPEED_LIMIT,
    ensures
        (r.0 as int, r.1 as int) == displaced(
            x as int,
            y as int,
            degrees as int,
            speed_x as int,
            speed_y as int,
        ),
        speed_x >= 0 ==> x - speed_x <= r.0 <= x + speed_x,
        speed_x <= 0 ==> x + speed_x <= r.0 <= x - speed_x,
        speed_y >= 0 ==> y - speed_y <= r.1 <= y + speed_y,
        speed_y <= 0 ==> y + speed_y <= r.1 <= y - speed_y,
{
    let dx: i64 = scale(speed_x, sine_of(degrees));
    let dy: i64 = scale(speed_y, cosine_of(degrees));
    (x + dx, y + dy)
}

} // verus!
