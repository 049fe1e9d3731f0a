//! The robot's estimated pose and its goal: odometry and goal seeking.
use vstd::prelude::*;
use crate::angle::{
    HALF_TURN, TRIG_ONE, PI_NUM, PI_DEN, is_heading, normalize, normalize_heading, trunc_div,
    div_toward_zero, lemma_trunc_div_bound, sine, cosine, sine_spec, cosine_spec, bearing,
    bearing_spec, lemma_trig_at_zero, lemma_normalize_idempotent,
};

verus! {

/// Distance on either axis within which the goal counts as reached, in
/// micrometres.
pub const GOAL_AREA: i64 = 10000;

/// Base duty of the goal-seeking policy, in parts per million.
pub const BASE_SPEED: i64 = 50000;

/// Largest magnitude of the travel of one wheel in one step, in micrometres.
pub const MAX_TRAVEL: i128 = 1237940039285380274899124224;

/// The value of `v` limited to the range of `i64`.
pub open spec fn saturate(v: int) -> int {
    if v > i64::MAX {
        i64::MAX as int
    } else if v < i64::MIN {
        i64::MIN as int
    } else {
        v
    }
}

/// Position of the robot in the world and its heading, and the goal to reach.
///
/// Coordinates are in micrometres, the heading in microdegrees,
/// counter-clockwise from the x axis.
#[derive(Clone, Copy, Debug, PartialEq, Eq, Structural)]
pub struct Position {
    pub x: i64,
    pub y: i64,
    pub goal_x: i64,
    pub goal_y: i64,
    pub phi: i64,
}

/// The pose after the left and right wheels travelled `left` and `right`: the
/// centre moves along the heading held at the start of the step, and the
/// heading turns by the difference of the travels over the axle track.
pub open spec fn integrate_spec(p: Position, left: int, right: int, wheel_distance: int) -> Position {
    let center = trunc_div(left + right, 2);
    let dx = trunc_div(cosine_spec(p.phi as int) * center, TRIG_ONE as int);
    let dy = trunc_div(sine_spec(p.phi as int) * center, TRIG_ONE as int);
    let dphi = trunc_div((right - left) * HALF_TURN * PI_DEN, PI_NUM * wheel_distance);
    Position {
        x: saturate(p.x + dx) as i64,
        y: saturate(p.y + dy) as i64,
        phi: normalize(p.phi + dphi) as i64,
        ..p
    }
}

/// The goal is reached when the pose lies within `GOAL_AREA` of it on both
/// axes: a square around the goal, not a circle.
pub open spec fn goal_reached_spec(p: Position) -> bool {
    &&& -GOAL_AREA <= p.x - p.goal_x <= GOAL_AREA
    &&& -GOAL_AREA <= p.y - p.goal_y <= GOAL_AREA
}

/// Heading error: bearing of the goal minus the heading.
pub open spec fn heading_error(p: Position) -> int {
    bearing_spec(p.goal_x - p.x, p.goal_y - p.y) - p.phi
}

/// The (left, right) duties toward the goal. The turn factor is the heading
/// error as a fraction of a half turn; one wheel runs at the base speed times
/// two plus the factor, the other at the base speed times one minus the
/// factor. A negative heading error speeds up the right wheel, any other the
/// left one.
pub open spec fn velocities_spec(p: Position) -> (int, int) {
    let e = heading_error(p);
    let fact = (if e < 0 { -e } else { e }) * TRIG_ONE / (HALF_TURN as int);
    let fast = BASE_SPEED * (2 * TRIG_ONE + fact) / (TRIG_ONE as int);
    let slow = trunc_div(BASE_SPEED * (TRIG_ONE - fact), TRIG_ONE as int);
    if e < 0 { (slow, fast) } else { (fast, slow) }
}

fn saturate_exec(v: i128) -> (r: i64)
    ensures
        r == saturate(v as int),
{
    if v > i64::MAX as i128 {
        i64::MAX
    } else if v < i64::MIN as i128 {
        i64::MIN
    } else {
        v as i64
    }
}

impl Position {
    /// The pose `new` returns.
    pub open spec fn new_spec() -> Position {
        Position { x: 0, y: 0, goal_x: 0, goal_y: 0, phi: 0 }
    }

    pub open spec fn wf(&self) -> bool {
        is_heading(self.phi as int)
    }

    /// A robot at the origin, heading along the x axis, with its goal there.
    pub fn new() -> (r: Position)
        ensures
            r.wf(),
            r == Position::new_spec(),
    {
        Position { x: 0, y: 0, goal_x: 0, goal_y: 0, phi: 0 }
    }

    /// Sets the robot's current position; the heading is folded into
    /// `(-HALF_TURN, HALF_TURN]`.
    pub fn set_position(&mut self, x: i64, y: i64, phi: i128)
        ensures
            final(self).wf(),
            *final(self) == (Position { x, y, phi: normalize(phi as int) as i64, ..*old(self) }),
    {
        self.x = x;
        self.y = y;
        self.phi = normalize_heading(phi);
    }

    /// Sets the goal which should be reached.
    pub fn set_goal(&mut self, x: i64, y: i64)
        ensures
            *final(self) == (Position { goal_x: x, goal_y: y, ..*old(self) }),
    {
        self.goal_x = x;
        self.goal_y = y;
    }

    /// Updates the pose from the distances the left and right wheels
    /// travelled and the distance between the wheels, all in micrometres.
    pub fn calculate_position(&mut self, left: i128, right: i128, wheel_distance: u32)
        requires
            old(self).wf(),
            wheel_distance > 0,
            -MAX_TRAVEL <= left <= MAX_TRAVEL,
            -MAX_TRAVEL <= right <= MAX_TRAVEL,
        ensures
            final(self).wf(),
            *final(self) == integrate_spec(*old(self), left as int, right as int, wheel_distance as int),
    {
        let ghost (l, r) = (left as int, right as int);
        let sum: i128 = left + right;
        proof {
            lemma_trunc_div_bound(sum as int, 2);
        }
        let center: i128 = div_toward_zero(sum, 2);
        let c: i64 = cosine(self.phi);
        let s: i64 = sine(self.phi);
        proof {
            let ce = center as int;
            assert(-TRIG_ONE * MAX_TRAVEL <= (c as int) * ce <= TRIG_ONE * MAX_TRAVEL)
                by (nonlinear_arith)
                requires
                    -TRIG_ONE <= c <= TRIG_ONE,
                    -MAX_TRAVEL <= ce <= MAX_TRAVEL,
            ;
            assert(-TRIG_ONE * MAX_TRAVEL <= (s as int) * ce <= TRIG_ONE * MAX_TRAVEL)
                by (nonlinear_arith)
                requires
                    -TRIG_ONE <= s <= TRIG_ONE,
                    -MAX_TRAVEL <= ce <= MAX_TRAVEL,
            ;
            lemma_trunc_div_bound((c as int) * ce, TRIG_ONE as int);
            lemma_trunc_div_bound((s as int) * ce, TRIG_ONE as int);
        }
        let dx: i128 = div_toward_zero(c as i128 * center, 1000000);
        let dy: i128 = div_toward_zero(s as i128 * center, 1000000);
        let diff: i128 = right - left;
        let den: i128 = 355 * (wheel_distance as i128);
        proof {
            let de = diff as int;
            assert(-2 * MAX_TRAVEL * HALF_TURN * PI_DEN <= de * HALF_TURN * PI_DEN
                <= 2 * MAX_TRAVEL * HALF_TURN * PI_DEN) by (nonlinear_arith)
                requires
                    -2 * MAX_TRAVEL <= de <= 2 * MAX_TRAVEL,
            ;
            lemma_trunc_div_bound(de * HALF_TURN * PI_DEN, den as int);
        }
        let dphi: i128 = div_toward_zero(diff * 180000000 * 113, den);
        self.x = saturate_exec(self.x as i128 + dx);
        self.y = saturate_exec(self.y as i128 + dy);
        self.phi = normalize_heading(self.phi as i128 + dphi);
    }

    /// The (left, right) duties that steer toward the goal, in parts per
    /// million. The axle track does not enter the policy.
    pub fn get_goal_velocities(&self, _wheel_distance: u32) -> (r: (i64, i64))
        requires
            self.wf(),
        ensures
            r.0 == velocities_spec(*self).0,
            r.1 == velocities_spec(*self).1,
            -TRIG_ONE <= r.0 <= TRIG_ONE,
            -TRIG_ONE <= r.1 <= TRIG_ONE,
    {
        let dx: i128 = self.goal_x as i128 - self.x as i128;
        let dy: i128 = self.goal_y as i128 - self.y as i128;
        let b: i64 = bearing(dx, dy);
        let e: i64 = b - self.phi;
        let mag: i64 = if e < 0 { -e } else { e };
        proof {
            assert(0 <= (mag as int) * 1000000 / 180000000 <= 2000000) by (nonlinear_arith)
                requires
                    0 <= mag <= 2 * HALF_TURN,
            ;
        }
        let fact: i64 = mag * 1000000 / 180000000;
        let fast: i64 = 50000 * (2000000 + fact) / 1000000;
        let slow_num: i128 = 50000 * (1000000 - fact as i128);
        proof {
            lemma_trunc_div_bound(slow_num as int, TRIG_ONE as int);
            assert(fast <= TRIG_ONE) by (nonlinear_arith)
                requires
                    0 <= fact <= 2 * TRIG_ONE,
                    fast == 50000 * (2000000 + fact) / 1000000,
            ;
            assert(-TRIG_ONE <= trunc_div(slow_num as int, TRIG_ONE as int) <= TRIG_ONE)
                by (nonlinear_arith)
                requires
                    -50000 * TRIG_ONE <= slow_num <= 50000 * TRIG_ONE,
                    slow_num >= 0 ==> 0 <= trunc_div(slow_num as int, TRIG_ONE as int) <= slow_num,
                    slow_num < 0 ==> slow_num <= trunc_div(slow_num as int, TRIG_ONE as int) <= 0,
            ;
        }
        let slow: i64 = div_toward_zero(slow_num, 1000000) as i64;
        if e < 0 {
            (slow, fast)
        } else {
            (fast, slow)
        }
    }

    /// Whether the goal is reached: within `GOAL_AREA` of it on both axes.
    pub fn goal_reached(&self) -> (r: bool)
        ensures
            r == goal_reached_spec(*self),
    {
        let dx: i128 = self.x as i128 - self.goal_x as i128;
        let dy: i128 = self.y as i128 - self.goal_y as i128;
        -10000 <= dx && dx <= 10000 && -10000 <= dy && dy <= 10000
    }

    /// Whole degrees of an angle given in microdegrees, rounded toward zero.
    pub fn degree(angle: i64) -> (r: i64)
        ensures
            r == trunc_div(angle as int, 1000000),
    {
        div_toward_zero(angle as i128, 1000000) as i64
    }

    /// The angle of `deg` whole degrees, in microdegrees.
    pub fn radian(deg: i64) -> (r: i64)
        requires
            -9223372036854 <= deg <= 9223372036854,
        ensures
            r == deg * 1000000,
    {
        deg * 1000000
    }
}

/// Dead reckoning from a zero heading: the step moves the robot along the
/// x axis only, by the mean of the two travels, whatever the travels are;
/// equal travels leave the heading at zero.
pub proof fn lemma_travel_from_zero_heading(p: Position, left: int, right: int, wheel_distance: int)
    requires
        p.phi == 0,
        wheel_distance > 0,
    ensures
        integrate_spec(p, left, right, wheel_distance).y == p.y,
        integrate_spec(p, left, right, wheel_distance).x == saturate(p.x + trunc_div(left + right, 2)),
        left == right ==> integrate_spec(p, left, right, wheel_distance).phi == 0,
        left == right ==> integrate_spec(p, left, right, wheel_distance).x == saturate(p.x + left),
{
    lemma_trig_at_zero();
    let center = trunc_div(left + right, 2);
    assert(trunc_div(0 * center, TRIG_ONE as int) == 0);
    assert(trunc_div(TRIG_ONE * center, TRIG_ONE as int) == center) by (nonlinear_arith)
        requires
            TRIG_ONE == 1000000,
    ;
    if left == right {
        assert(trunc_div(left + right, 2) == left);
        assert(trunc_div((right - left) * HALF_TURN * PI_DEN, PI_NUM * wheel_distance) == 0) by (nonlinear_arith)
            requires
                right == left,
                wheel_distance > 0,
        ;
        lemma_normalize_idempotent(0);
    }
}

} // verus!
