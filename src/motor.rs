//! A motor with its wheel: integrates encoder counts into the wheel's angle
//! and travel, and turns speed requests into motor commands.
use vstd::prelude::*;
use crate::angle::{trunc_div, div_toward_zero, lemma_trunc_div_bound, lemma_trunc_div_odd, HALF_TURN, PI_NUM, PI_DEN};
use crate::hal::{MotorCommand, clamp_duty, clamp_duty_spec};
use crate::wheel::{Wheel, Orientation, ConfigError};

verus! {

/// Largest magnitude of the running tick total of a wheel.
pub const MAX_TICKS: i64 = 4294967296;

/// Largest magnitude of the travel of a wheel, in micrometres.
pub const MAX_DISTANCE: i128 = 618970019642690137449562112;

/// The number of ticks an encoder moved from `last` to `counter`, for a
/// 32-bit counter that may wrap around.
pub open spec fn wrap_delta(counter: int, last: int) -> int {
    let d = counter - last;
    if d > i32::MAX {
        d - 0x1_0000_0000
    } else if d < i32::MIN {
        d + 0x1_0000_0000
    } else {
        d
    }
}

/// Ticks as the wheel sees them: negated where the motor is mounted reversed.
pub open spec fn oriented(reversed: bool, d: int) -> int {
    if reversed { -d } else { d }
}

/// Travel of a wheel after `t` ticks, in micrometres: turns of the wheel times
/// its radius times pi.
pub open spec fn distance_of(w: Wheel, t: int) -> int {
    trunc_div(
        t * w.gear_den * w.radius * PI_NUM,
        w.encoder_resolution * w.gear_num * PI_DEN,
    )
}

/// Angle of a wheel after `t` ticks: the ticks over the encoder resolution
/// and the gear ratio, in radians, expressed in microdegrees (one radian is
/// `HALF_TURN / pi` of them).
pub open spec fn angle_of(w: Wheel, t: int) -> int {
    trunc_div(
        t * w.gear_den * HALF_TURN * PI_DEN,
        w.encoder_resolution * w.gear_num * PI_NUM,
    )
}

/// Implementation of a motor with an attached wheel.
#[derive(Clone, Copy, Debug)]
pub struct Motor {
    pub wheel: Wheel,
    pub reversed: bool,
    /// Running total of the oriented encoder ticks since the wheel was attached.
    pub ticks: i64,
    /// The encoder counter at the previous step.
    pub last_encoder: i32,
}

/// The motor after one step that read `counter`; a step that would carry the
/// tick total out of range is dropped.
pub open spec fn motor_step_spec(m: Motor, counter: int) -> Motor {
    if m.wheel.orientation == Orientation::UNDEFINED {
        m
    } else {
        let t = m.ticks + oriented(m.reversed, wrap_delta(counter, m.last_encoder as int));
        if -MAX_TICKS <= t <= MAX_TICKS {
            Motor { ticks: t as i64, last_encoder: counter as i32, ..m }
        } else {
            Motor { last_encoder: counter as i32, ..m }
        }
    }
}

/// The command `set_speed` gives for `speed`.
pub open spec fn run_command(m: Motor, speed: int) -> MotorCommand {
    MotorCommand::Run { motor: m.wheel.motor, duty: oriented(m.reversed, clamp_duty_spec(speed)) as i64 }
}

/// The command `stop` gives.
pub open spec fn brake_command(m: Motor) -> MotorCommand {
    MotorCommand::Brake { motor: m.wheel.motor }
}

impl Motor {
    pub open spec fn wf(&self) -> bool {
        &&& self.wheel.wf()
        &&& -MAX_TICKS <= self.ticks <= MAX_TICKS
    }

    /// Total angle the wheel turned, in microdegrees.
    pub open spec fn angle_spec(&self) -> int {
        angle_of(self.wheel, self.ticks as int)
    }

    /// Total travel of the wheel, in micrometres.
    pub open spec fn distance_spec(&self) -> int {
        if self.wheel.orientation == Orientation::UNDEFINED {
            0
        } else {
            distance_of(self.wheel, self.ticks as int)
        }
    }

    /// A motor for `wheel` that has not moved yet.
    pub fn new(wheel: Wheel, reversed: bool) -> (r: Motor)
        requires
            wheel.wf(),
        ensures
            r.wf(),
            r == (Motor { wheel, reversed, ticks: 0, last_encoder: 0 }),
    {
        Motor { wheel, reversed, ticks: 0, last_encoder: 0 }
    }

    fn distance_for(&self, t: i64) -> (r: i128)
        requires
            self.wheel.wf(),
            self.wheel.orientation != Orientation::UNDEFINED,
            -MAX_TICKS <= t <= MAX_TICKS,
        ensures
            r == distance_of(self.wheel, t as int),
            -MAX_DISTANCE <= r <= MAX_DISTANCE,
    {
        let w = self.wheel;
        let ghost (ti, gd, rr, res, gn) = (
            t as int,
            w.gear_den as int,
            w.radius as int,
            w.encoder_resolution as int,
            w.gear_num as int,
        );
        proof {
            assert(-0x1_0000_0000_0000 <= ti * gd <= 0x1_0000_0000_0000) by (nonlinear_arith)
                requires
                    -0x1_0000_0000 <= ti <= 0x1_0000_0000,
                    0 <= gd < 0x1_0000,
            ;
            assert(-0x1_0000_0000_0000_0000_0000 <= (ti * gd) * rr
                <= 0x1_0000_0000_0000_0000_0000) by (nonlinear_arith)
                requires
                    -0x1_0000_0000_0000 <= ti * gd <= 0x1_0000_0000_0000,
                    0 <= rr < 0x1_0000_0000,
            ;
            assert(1 <= res * gn < 0x1_0000_0000) by (nonlinear_arith)
                requires
                    1 <= res < 0x1_0000,
                    1 <= gn < 0x1_0000,
            ;
        }
        let a: i128 = t as i128 * (w.gear_den as i128);
        let b: i128 = a * (w.radius as i128);
        let num: i128 = b * 355;
        let den: i128 = (w.encoder_resolution as i128) * (w.gear_num as i128) * 113;
        proof {
            lemma_trunc_div_bound(num as int, den as int);
        }
        div_toward_zero(num, den)
    }

    fn angle_for(&self, t: i64) -> (r: i128)
        requires
            self.wheel.wf(),
            self.wheel.orientation != Orientation::UNDEFINED,
            -MAX_TICKS <= t <= MAX_TICKS,
        ensures
            r == angle_of(self.wheel, t as int),
    {
        let w = self.wheel;
        let ghost (ti, gd, res, gn) = (
            t as int,
            w.gear_den as int,
            w.encoder_resolution as int,
            w.gear_num as int,
        );
        proof {
            assert(-0x1_0000_0000_0000 <= ti * gd <= 0x1_0000_0000_0000) by (nonlinear_arith)
                requires
                    -0x1_0000_0000 <= ti <= 0x1_0000_0000,
                    0 <= gd < 0x1_0000,
            ;
            let a = ti * gd;
            assert(-0x1_0000_0000_0000_0000_0000_0000 <= (a * 180000000) * 113
                <= 0x1_0000_0000_0000_0000_0000_0000);
            assert(1 <= res * gn < 0x1_0000_0000) by (nonlinear_arith)
                requires
                    1 <= res < 0x1_0000,
                    1 <= gn < 0x1_0000,
            ;
        }
        let num: i128 = t as i128 * (w.gear_den as i128) * 180000000 * 113;
        let den: i128 = (w.encoder_resolution as i128) * (w.gear_num as i128) * 355;
        div_toward_zero(num, den)
    }

    /// Called on every calculation step with the encoder counter just read.
    ///
    /// Returns the travel since the previous step and the total angle the
    /// wheel turned. The travel is the difference of the total travel before
    /// and after, so rounding never accumulates over steps. `_elapsed_ns` is
    /// the time since the previous step; the integration does not use it.
    pub fn step(&mut self, _elapsed_ns: u64, counter: i32) -> (r: Result<(i128, i128), ConfigError>)
        requires
            old(self).wf(),
        ensures
            final(self).wf(),
            *final(self) == motor_step_spec(*old(self), counter as int),
            old(self).wheel.orientation == Orientation::UNDEFINED <==> r is Err,
            r is Err ==> r == Err::<(i128, i128), ConfigError>(ConfigError::UndefinedOrientation),
            r matches Ok((dist, angle)) ==> {
                &&& dist == final(self).distance_spec() - old(self).distance_spec()
                &&& angle == final(self).angle_spec()
                &&& -2 * MAX_DISTANCE <= dist <= 2 * MAX_DISTANCE
            },
    {
        if let Orientation::UNDEFINED = self.wheel.orientation {
            return Err(ConfigError::UndefinedOrientation);
        }
        let d0: i64 = counter as i64 - self.last_encoder as i64;
        let d: i64 = if d0 > i32::MAX as i64 {
            d0 - 0x1_0000_0000
        } else if d0 < i32::MIN as i64 {
            d0 + 0x1_0000_0000
        } else {
            d0
        };
        let signed: i64 = if self.reversed { -d } else { d };
        self.last_encoder = counter;
        let before = self.distance_for(self.ticks);
        let t: i64 = self.ticks + signed;
        if -MAX_TICKS <= t && t <= MAX_TICKS {
            self.ticks = t;
        }
        let after = self.distance_for(self.ticks);
        let angle = self.angle_for(self.ticks);
        Ok((after - before, angle))
    }

    /// Total travel of the wheel, in micrometres.
    pub fn total_distance(&self) -> (r: i128)
        requires
            self.wf(),
        ensures
            r == self.distance_spec(),
    {
        if let Orientation::UNDEFINED = self.wheel.orientation {
            return 0;
        }
        self.distance_for(self.ticks)
    }

    /// The command that drives the motor at `speed`, limited to full drive in
    /// either direction and negated where the motor is mounted reversed.
    pub fn set_speed(&self, speed: i64) -> (r: MotorCommand)
        ensures
            r == run_command(*self, speed as int),
    {
        let duty = clamp_duty(speed);
        MotorCommand::Run { motor: self.wheel.motor, duty: if self.reversed { -duty } else { duty } }
    }

    /// The command that stops the motor and brakes.
    pub fn stop(&self) -> (r: MotorCommand)
        ensures
            r == brake_command(*self),
    {
        MotorCommand::Brake { motor: self.wheel.motor }
    }
}

/// The motor after one step for each counter reading of `counters`, in order.
pub open spec fn motor_run(m: Motor, counters: Seq<i32>) -> Motor
    decreases counters.len(),
{
    if counters.len() == 0 {
        m
    } else {
        motor_run(motor_step_spec(m, counters[0] as int), counters.drop_first())
    }
}

/// Sum of the oriented encoder deltas of a run of counter readings that starts
/// after the reading `last`.
pub open spec fn tick_sum(reversed: bool, last: int, counters: Seq<i32>) -> int
    decreases counters.len(),
{
    if counters.len() == 0 {
        0
    } else {
        oriented(reversed, wrap_delta(counters[0] as int, last))
            + tick_sum(reversed, counters[0] as int, counters.drop_first())
    }
}

/// Whether no reading of the run carries the tick total out of range.
pub open spec fn run_in_range(reversed: bool, last: int, ticks: int, counters: Seq<i32>) -> bool
    decreases counters.len(),
{
    counters.len() == 0 || {
        let t = ticks + oriented(reversed, wrap_delta(counters[0] as int, last));
        &&& -MAX_TICKS <= t <= MAX_TICKS
        &&& run_in_range(reversed, counters[0] as int, t, counters.drop_first())
    }
}

/// Integration is linear: after any run of encoder readings, the tick total
/// of an attached wheel is its start plus the sum of the per-step deltas,
/// each negated for a reversed motor, and the wheel's angle is the angle of
/// that total.
pub proof fn lemma_integration_linear(m: Motor, counters: Seq<i32>)
    requires
        m.wf(),
        m.wheel.orientation != Orientation::UNDEFINED,
        run_in_range(m.reversed, m.last_encoder as int, m.ticks as int, counters),
    ensures
        motor_run(m, counters).ticks == m.ticks + tick_sum(m.reversed, m.last_encoder as int, counters),
        motor_run(m, counters).angle_spec()
            == angle_of(m.wheel, m.ticks + tick_sum(m.reversed, m.last_encoder as int, counters)),
    decreases counters.len(),
{
    if counters.len() > 0 {
        let m2 = motor_step_spec(m, counters[0] as int);
        lemma_integration_linear(m2, counters.drop_first());
    }
}

/// The same motor mounted the other way round, with the negated tick total.
pub open spec fn mirrored(m: Motor) -> Motor {
    Motor { reversed: !m.reversed, ticks: (-m.ticks) as i64, ..m }
}

/// Negating the tick total negates the travel and the angle of the wheel.
pub proof fn lemma_mirrored_totals(m: Motor)
    requires
        m.wf(),
        m.wheel.orientation != Orientation::UNDEFINED,
    ensures
        mirrored(m).distance_spec() == -m.distance_spec(),
        mirrored(m).angle_spec() == -m.angle_spec(),
{
    let w = m.wheel;
    let t = m.ticks as int;
    assert(w.encoder_resolution * w.gear_num * PI_DEN >= 1) by (nonlinear_arith)
        requires
            w.encoder_resolution >= 1,
            w.gear_num >= 1,
    ;
    assert(w.encoder_resolution * w.gear_num * PI_NUM >= 1) by (nonlinear_arith)
        requires
            w.encoder_resolution >= 1,
            w.gear_num >= 1,
    ;
    assert((-t) * w.gear_den * w.radius * PI_NUM == -(t * w.gear_den * w.radius * PI_NUM))
        by (nonlinear_arith);
    assert((-t) * w.gear_den * HALF_TURN * PI_DEN == -(t * w.gear_den * HALF_TURN * PI_DEN))
        by (nonlinear_arith);
    lemma_trunc_div_odd(t * w.gear_den * w.radius * PI_NUM, w.encoder_resolution * w.gear_num * PI_DEN);
    lemma_trunc_div_odd(t * w.gear_den * HALF_TURN * PI_DEN, w.encoder_resolution * w.gear_num * PI_NUM);
}

/// Reversing a motor flips the sign of every step: stepped through the same
/// encoder readings, a motor mounted the other way round, starting from the
/// negated tick total, stays the mirror image of the first after each step.
/// So its tick total, travel and angle are the negations, after any run, and
/// each step's travel increment (a difference of totals) is negated too.
pub proof fn lemma_reversed_negates(m: Motor, counters: Seq<i32>)
    requires
        m.wf(),
        m.wheel.orientation != Orientation::UNDEFINED,
    ensures
        motor_run(mirrored(m), counters) == mirrored(motor_run(m, counters)),
        motor_run(m, counters).wf(),
        motor_run(mirrored(m), counters).distance_spec() == -motor_run(m, counters).distance_spec(),
        motor_run(mirrored(m), counters).angle_spec() == -motor_run(m, counters).angle_spec(),
    decreases counters.len(),
{
    if counters.len() == 0 {
        lemma_mirrored_totals(m);
    } else {
        let c = counters[0] as int;
        assert(motor_step_spec(mirrored(m), c) == mirrored(motor_step_spec(m, c)));
        lemma_reversed_negates(motor_step_spec(m, c), counters.drop_first());
    }
}

} // verus!
