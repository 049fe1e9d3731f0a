//! Fixed-point angles and the goniometric functions the navigation needs.
//!
//! An angle is an integer number of microdegrees. A heading is kept in the
//! half-open range `(-HALF_TURN, HALF_TURN]`. Sines and cosines are scaled by
//! `TRIG_ONE`.
use vstd::prelude::*;
use vstd::arithmetic::div_mod::{lemma_fundamental_div_mod, lemma_fundamental_div_mod_converse,
    lemma_mod_multiples_vanish};

verus! {

/// Half a turn (pi radians), in microdegrees.
pub const HALF_TURN: i64 = 180000000;

/// A quarter turn, in microdegrees.
pub const QUARTER_TURN: i64 = 90000000;

/// A full turn, in microdegrees.
pub const FULL_TURN: i64 = 360000000;

/// The fixed-point one of sines, cosines and ratios.
pub const TRIG_ONE: i64 = 1000000;

/// Numerator of the rational approximation 355/113 of pi.
pub const PI_NUM: i64 = 355;

/// Denominator of the rational approximation 355/113 of pi.
pub const PI_DEN: i64 = 113;

/// Denominator constant of Bhaskara's sine formula over millidegrees:
/// five quarters of the square of a half turn.
pub const BHASKARA_DEN: i64 = 40500000000;

/// Division rounding toward zero, as integer division does in Rust.
pub open spec fn trunc_div(a: int, b: int) -> int {
    if a >= 0 { a / b } else { -((-a) / b) }
}

/// A quotient rounded toward zero is no larger in magnitude than the dividend.
pub proof fn lemma_trunc_div_bound(a: int, b: int)
    requires
        b >= 1,
    ensures
        a >= 0 ==> 0 <= trunc_div(a, b) <= a,
        a < 0 ==> a <= trunc_div(a, b) <= 0,
{
    if a >= 0 {
        assert(0 <= a / b <= a) by (nonlinear_arith)
            requires
                a >= 0,
                b >= 1,
        ;
    } else {
        let n = -a;
        assert(0 <= n / b <= n) by (nonlinear_arith)
            requires
                n >= 0,
                b >= 1,
        ;
    }
}

/// Rounding toward zero is symmetric: negating the dividend negates the
/// quotient.
pub proof fn lemma_trunc_div_odd(a: int, b: int)
    requires
        b >= 1,
    ensures
        trunc_div(-a, b) == -trunc_div(a, b),
{
    if a == 0 {
        assert(0int / b == 0);
    }
}

/// Divides rounding toward zero.
pub fn div_toward_zero(a: i128, b: i128) -> (r: i128)
    requires
        b >= 1,
        a > i128::MIN,
    ensures
        r == trunc_div(a as int, b as int),
{
    proof {
        lemma_trunc_div_bound(a as int, b as int);
    }
    if a >= 0 {
        ((a as u128) / (b as u128)) as i128
    } else {
        -((((-a) as u128) / (b as u128)) as i128)
    }
}

/// Whether an angle lies in the heading range `(-HALF_TURN, HALF_TURN]`.
pub open spec fn is_heading(a: int) -> bool {
    -HALF_TURN < a <= HALF_TURN
}

/// The angle equal to `a` modulo a full turn that lies in the heading range.
pub open spec fn normalize(a: int) -> int {
    let r = a % (FULL_TURN as int);
    if r > HALF_TURN { r - FULL_TURN } else { r }
}

/// Bhaskara's approximation of the sine of `x` millidegrees, `0 <= x <= 180000`,
/// scaled by `TRIG_ONE`.
pub open spec fn bhaskara(x: int) -> int {
    let p = x * (180000 - x);
    4 * p * TRIG_ONE / (BHASKARA_DEN - p)
}

/// The sine of a heading, scaled by `TRIG_ONE`, odd by construction.
pub open spec fn sine_spec(a: int) -> int {
    if a >= 0 { bhaskara(a / 1000) } else { -bhaskara((-a) / 1000) }
}

/// The cosine of a heading: the sine a quarter turn further on.
pub open spec fn cosine_spec(a: int) -> int {
    sine_spec(normalize(a + QUARTER_TURN))
}

/// The arctangent of `n / m` for `0 <= n <= m`, between 0 and 45 degrees:
/// `45 z + 15.64 z (1 - z)` degrees with `z = n / m` in millionths.
pub open spec fn octant_spec(n: int, m: int) -> int {
    let z = n * TRIG_ONE / m;
    45 * z + 1564 * z * (TRIG_ONE - z) / 100000000
}

/// The bearing of the vector `(dx, dy)` from the x axis, counter-clockwise
/// positive, in `[-HALF_TURN, HALF_TURN]`; zero for the null vector.
pub open spec fn bearing_spec(dx: int, dy: int) -> int {
    if dx == 0 && dy == 0 {
        0
    } else {
        let ax = if dx < 0 { -dx } else { dx };
        let ay = if dy < 0 { -dy } else { dy };
        let t = if ay <= ax { octant_spec(ay, ax) } else { QUARTER_TURN - octant_spec(ax, ay) };
        let t2 = if dx < 0 { HALF_TURN - t } else { t };
        if dy < 0 { -t2 } else { t2 }
    }
}

proof fn lemma_normalize_range(a: int)
    ensures
        is_heading(normalize(a)),
{
    lemma_fundamental_div_mod(a, FULL_TURN as int);
}

/// Normalizing a heading that is already in range leaves it unchanged.
pub proof fn lemma_normalize_idempotent(a: int)
    ensures
        normalize(normalize(a)) == normalize(a),
        is_heading(a) ==> normalize(a) == a,
{
    lemma_normalize_range(a);
    let f = FULL_TURN as int;
    assert forall|h: int| is_heading(h) implies normalize(h) == h by {
        if h >= 0 {
            lemma_fundamental_div_mod_converse(h, f, 0, h);
        } else {
            lemma_fundamental_div_mod_converse(h, f, -1, h + f);
        }
    }
}

/// Adding whole turns to an angle does not change its normalization.
pub proof fn lemma_normalize_periodic(a: int, k: int)
    ensures
        normalize(a + FULL_TURN * k) == normalize(a),
{
    lemma_mod_multiples_vanish(k, a, FULL_TURN as int);
    assert(FULL_TURN * k + a == a + FULL_TURN * k);
}

/// Folds an angle into the heading range `(-HALF_TURN, HALF_TURN]`.
pub fn normalize_heading(a: i128) -> (r: i64)
    ensures
        r == normalize(a as int),
        is_heading(r as int),
{
    proof {
        lemma_normalize_range(a as int);
    }
    let f: u128 = 360000000;
    let m: i64 = if a >= 0 {
        ((a as u128) % f) as i64
    } else {
        let b: u128 = (-(a + 1)) as u128;
        let k: u128 = b % f;
        proof {
            let q = (b as int) / (f as int);
            lemma_fundamental_div_mod(b as int, f as int);
            lemma_fundamental_div_mod_converse(a as int, f as int, -q - 1, f - 1 - k);
        }
        (359999999u128 - k) as i64
    };
    if m > HALF_TURN {
        m - FULL_TURN
    } else {
        m
    }
}

proof fn lemma_bhaskara_range(x: int)
    requires
        0 <= x <= 180000,
    ensures
        0 <= bhaskara(x) <= TRIG_ONE,
        0 <= x * (180000 - x) <= 8100000000,
{
    let p = x * (180000 - x);
    assert(0 <= p <= 8100000000) by (nonlinear_arith)
        requires
            0 <= x <= 180000,
            p == x * (180000 - x),
    ;
    let d = BHASKARA_DEN - p;
    assert(0 <= 4 * p * TRIG_ONE / d <= TRIG_ONE) by (nonlinear_arith)
        requires
            0 <= p <= 8100000000,
            d == BHASKARA_DEN - p,
    ;
}

fn bhaskara_exec(x: i64) -> (r: i64)
    requires
        0 <= x <= 180000,
    ensures
        r == bhaskara(x as int),
        0 <= r <= TRIG_ONE,
{
    proof {
        lemma_bhaskara_range(x as int);
    }
    let p: i64 = x * (180000 - x);
    let num: u64 = (4 * p * TRIG_ONE) as u64;
    let den: u64 = (BHASKARA_DEN - p) as u64;
    (num / den) as i64
}

/// The sine of a heading, scaled by `TRIG_ONE`.
pub fn sine(a: i64) -> (r: i64)
    requires
        is_heading(a as int),
    ensures
        r == sine_spec(a as int),
        -TRIG_ONE <= r <= TRIG_ONE,
{
    if a >= 0 {
        bhaskara_exec(((a as u64) / 1000) as i64)
    } else {
        -bhaskara_exec((((-a) as u64) / 1000) as i64)
    }
}

/// The cosine of a heading, scaled by `TRIG_ONE`.
pub fn cosine(a: i64) -> (r: i64)
    requires
        is_heading(a as int),
    ensures
        r == cosine_spec(a as int),
        -TRIG_ONE <= r <= TRIG_ONE,
{
    let b = normalize_heading(a as i128 + QUARTER_TURN as i128);
    sine(b)
}

/// The sine and cosine of a zero heading are exactly zero and one.
pub proof fn lemma_trig_at_zero()
    ensures
        sine_spec(0) == 0,
        cosine_spec(0) == TRIG_ONE,
{
    lemma_normalize_idempotent(QUARTER_TURN as int);
    assert(bhaskara(90000) == TRIG_ONE) by (nonlinear_arith);
    assert(bhaskara(0) == 0) by (nonlinear_arith);
}

/// Values of the sine and cosine at whole multiples of 30 and 90 degrees
/// are exact.
pub proof fn lemma_trig_values()
    ensures
        sine_spec(30000000) == TRIG_ONE / 2,
        sine_spec(-30000000) == -TRIG_ONE / 2,
        sine_spec(90000000) == TRIG_ONE,
        sine_spec(-90000000) == -TRIG_ONE,
        sine_spec(HALF_TURN as int) == 0,
        cosine_spec(90000000) == 0,
        cosine_spec(-90000000) == 0,
        cosine_spec(HALF_TURN as int) == -TRIG_ONE,
        cosine_spec(60000000) == TRIG_ONE / 2,
{
    lemma_trig_at_zero();
    assert(bhaskara(30000) == 500000) by (nonlinear_arith);
    assert(bhaskara(90000) == 1000000) by (nonlinear_arith);
    assert(bhaskara(180000) == 0) by (nonlinear_arith);
    lemma_normalize_idempotent(180000000);
    lemma_normalize_idempotent(0);
    lemma_normalize_idempotent(150000000);
    lemma_normalize_periodic(-90000000, 1);
    lemma_normalize_idempotent(-90000000);
    assert(-90000000 + FULL_TURN * 1 == 270000000);
    assert(150000000int / 1000 == 150000);
    assert(bhaskara(150000) == 500000) by (nonlinear_arith);
}

/// The bearing along the axes and the diagonals, at any distance.
pub proof fn lemma_bearing_values(d: int)
    requires
        d > 0,
    ensures
        bearing_spec(d, 0) == 0,
        bearing_spec(0, d) == QUARTER_TURN,
        bearing_spec(-d, 0) == HALF_TURN,
        bearing_spec(0, -d) == -QUARTER_TURN,
        bearing_spec(d, d) == 45000000,
        bearing_spec(-d, d) == 135000000,
        bearing_spec(-d, -d) == -135000000,
        bearing_spec(d, -d) == -45000000,
{
    assert(0 * TRIG_ONE / d == 0) by (nonlinear_arith)
        requires
            d > 0,
    ;
    assert(d * TRIG_ONE / d == TRIG_ONE) by (nonlinear_arith)
        requires
            d > 0,
    ;
}

proof fn lemma_octant_range(n: int, m: int)
    requires
        0 <= n <= m,
        m > 0,
    ensures
        0 <= octant_spec(n, m) <= 45000000,
{
    let z = n * TRIG_ONE / m;
    assert(0 <= z <= TRIG_ONE) by (nonlinear_arith)
        requires
            0 <= n <= m,
            m > 0,
            z == n * TRIG_ONE / m,
    ;
    let w = 1564 * z * (TRIG_ONE - z) / 100000000;
    assert(0 <= w <= 45 * (TRIG_ONE - z)) by (nonlinear_arith)
        requires
            0 <= z <= TRIG_ONE,
            w == 1564 * z * (TRIG_ONE - z) / 100000000,
    ;
}

fn octant(n: u128, m: u128) -> (r: i64)
    requires
        n <= m,
        m > 0,
        m <= 0x1_0000_0000_0000_0000,
    ensures
        r == octant_spec(n as int, m as int),
        0 <= r <= 45000000,
{
    proof {
        lemma_octant_range(n as int, m as int);
        let (ni, mi) = (n as int, m as int);
        assert(ni * 1000000 <= 0x1_0000_0000_0000_0000 * 1000000) by (nonlinear_arith)
            requires
                ni <= 0x1_0000_0000_0000_0000,
        ;
        assert(ni * 1000000 / mi <= 1000000) by (nonlinear_arith)
            requires
                0 <= ni <= mi,
                mi > 0,
        ;
    }
    let z: u128 = n * 1000000 / m;
    let w: u128 = 1564 * z * (1000000 - z) / 100000000;
    (45 * z + w) as i64
}

/// The bearing of the vector `(dx, dy)`, counter-clockwise from the x axis.
pub fn bearing(dx: i128, dy: i128) -> (r: i64)
    requires
        -0x1_0000_0000_0000_0000 <= dx <= 0x1_0000_0000_0000_0000,
        -0x1_0000_0000_0000_0000 <= dy <= 0x1_0000_0000_0000_0000,
    ensures
        r == bearing_spec(dx as int, dy as int),
        -HALF_TURN <= r <= HALF_TURN,
{
    if dx == 0 && dy == 0 {
        return 0;
    }
    let ax: u128 = if dx < 0 { (-dx) as u128 } else { dx as u128 };
    let ay: u128 = if dy < 0 { (-dy) as u128 } else { dy as u128 };
    let t: i64 = if ay <= ax { octant(ay, ax) } else { QUARTER_TURN - octant(ax, ay) };
    let t2: i64 = if dx < 0 { HALF_TURN - t } else { t };
    if dy < 0 { -t2 } else { t2 }
}

} // verus!
