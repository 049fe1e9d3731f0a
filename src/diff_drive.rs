//! The differential-drive robot: composes the motors, the pose and the
//! planner into one periodic step, and owns the run/halt state.
use vstd::prelude::*;
use crate::hal::{self, MotorCommand};
use crate::motor::{Motor, motor_step_spec, run_command, brake_command};
use crate::planner::Planner;
use crate::position::{Position, integrate_spec, goal_reached_spec, velocities_spec};
use crate::wheel::{Wheel, Orientation, ConfigError, unattached_wheel};

verus! {

/// Creates a differential-drive robot, idle, with no wheels attached.
///
/// `wheel_distance` is the distance between the middles of the wheels and
/// `caster_distance` the distance from the main axle to the caster wheel,
/// both in micrometres. An axle track of zero is refused.
pub fn new(wheel_distance: u32, caster_distance: u32) -> (r: Result<DifferentialDrive, ConfigError>)
    ensures
        wheel_distance == 0 <==> r is Err,
        r is Err ==> r == Err::<DifferentialDrive, ConfigError>(ConfigError::ZeroWheelDistance),
        r matches Ok(d) ==> {
            &&& d.wf()
            &&& d.wheel_distance == wheel_distance
            &&& d.caster_distance == caster_distance
            &&& d.left == (Motor { wheel: unattached_wheel(), reversed: false, ticks: 0, last_encoder: 0 })
            &&& d.right == (Motor { wheel: unattached_wheel(), reversed: false, ticks: 0, last_encoder: 0 })
            &&& d.last_step == 0
            &&& d.position == Position::new_spec()
            &&& d.planner is None
            &&& !d.running
            &&& !d.loop_run
        },
{
    if wheel_distance == 0 {
        return Err(ConfigError::ZeroWheelDistance);
    }
    Ok(DifferentialDrive {
        wheel_distance,
        caster_distance,
        left: Motor::new(Wheel::unattached(), false),
        right: Motor::new(Wheel::unattached(), false),
        position: Position::new(),
        planner: None,
        running: false,
        loop_run: false,
        last_step: 0,
    })
}

/// The robot.
#[derive(Debug)]
pub struct DifferentialDrive {
    /// Axle track, in micrometres.
    pub wheel_distance: u32,
    /// Distance from the main axle to the caster wheel, in micrometres.
    pub caster_distance: u32,
    pub left: Motor,
    pub right: Motor,
    pub position: Position,
    pub planner: Option<Planner>,
    pub running: bool,
    /// Whether the planner restarts once its waypoints are exhausted.
    pub loop_run: bool,
    /// Time of the previous step, in nanoseconds.
    pub last_step: u64,
}

/// The robot after asking the planner, if any, for the next goal. When the
/// planner is exhausted and looping is on, it is restarted and the goal is
/// set to its start point; otherwise the last goal stands.
pub open spec fn advance_spec(d: DifferentialDrive) -> DifferentialDrive {
    match d.planner {
        None => d,
        Some(p) => if p.pos < p.points@.len() {
            let g = p.points@[p.pos as int];
            DifferentialDrive {
                planner: Some(Planner { pos: (p.pos + 1) as usize, ..p }),
                position: Position { goal_x: g.0, goal_y: g.1, ..d.position },
                ..d
            }
        } else if d.loop_run {
            DifferentialDrive {
                planner: Some(Planner { pos: 0, ..p }),
                position: Position { goal_x: p.start.0, goal_y: p.start.1, ..d.position },
                ..d
            }
        } else {
            d
        },
    }
}

/// The robot after a step at time `now` that read the encoder counters
/// `lc` and `rc`, and the motor commands of that step. An idle robot does
/// nothing and commands nothing.
pub open spec fn step_spec(d: DifferentialDrive, now: u64, lc: i32, rc: i32) -> (
    DifferentialDrive,
    Option<(MotorCommand, MotorCommand)>,
) {
    if !d.running {
        (d, None)
    } else {
        let l2 = motor_step_spec(d.left, lc as int);
        let r2 = motor_step_spec(d.right, rc as int);
        let dl = l2.distance_spec() - d.left.distance_spec();
        let dr = r2.distance_spec() - d.right.distance_spec();
        let p2 = integrate_spec(d.position, dl, dr, d.wheel_distance as int);
        let d2 = DifferentialDrive { left: l2, right: r2, position: p2, last_step: now, ..d };
        let d3 = if d2.planner is Some && goal_reached_spec(p2) { advance_spec(d2) } else { d2 };
        let cmds = if !goal_reached_spec(d3.position) {
            let v = velocities_spec(d3.position);
            (run_command(d3.left, v.0), run_command(d3.right, v.1))
        } else {
            (brake_command(d3.left), brake_command(d3.right))
        };
        (d3, Some(cmds))
    }
}

/// The robot after `halt`.
pub open spec fn halt_spec(d: DifferentialDrive) -> DifferentialDrive {
    DifferentialDrive { running: false, ..d }
}

/// The robot after one step for each `(time, left counter, right counter)`
/// of `events`, in order.
pub open spec fn run_steps(d: DifferentialDrive, events: Seq<(u64, i32, i32)>) -> DifferentialDrive
    decreases events.len(),
{
    if events.len() == 0 {
        d
    } else {
        let e = events[0];
        run_steps(step_spec(d, e.0, e.1, e.2).0, events.drop_first())
    }
}

/// Whether no step of the run of `events` gives a motor command.
pub open spec fn run_silent(d: DifferentialDrive, events: Seq<(u64, i32, i32)>) -> bool
    decreases events.len(),
{
    events.len() == 0 || {
        let e = events[0];
        let (d2, cmds) = step_spec(d, e.0, e.1, e.2);
        &&& cmds is None
        &&& run_silent(d2, events.drop_first())
    }
}

/// After `halt`, no run of steps gives a motor command or changes the
/// robot: pose, goal, motors and planner all stay as they were.
pub proof fn lemma_halted_steps_inert(d: DifferentialDrive, events: Seq<(u64, i32, i32)>)
    ensures
        run_steps(halt_spec(d), events) == halt_spec(d),
        run_silent(halt_spec(d), events),
    decreases events.len(),
{
    if events.len() > 0 {
        lemma_halted_steps_inert(d, events.drop_first());
    }
}

impl DifferentialDrive {
    pub open spec fn wf(&self) -> bool {
        &&& self.wheel_distance > 0
        &&& self.left.wf()
        &&& self.right.wf()
        &&& self.position.wf()
        &&& (self.planner matches Some(p) ==> p.wf())
    }

    /// Attaches a motorized wheel to the side its orientation names.
    /// `reversed` tells that the motor and encoder are mounted turned by half
    /// a turn. A wheel with no orientation is refused.
    pub fn add_wheel(&mut self, wheel: Wheel, reversed: bool) -> (r: Result<(), ConfigError>)
        requires
            old(self).wf(),
            wheel.wf(),
        ensures
            final(self).wf(),
            wheel.orientation == Orientation::UNDEFINED <==> r is Err,
            r is Err ==> r == Err::<(), ConfigError>(ConfigError::UndefinedOrientation),
            wheel.orientation == Orientation::UNDEFINED ==> *final(self) == *old(self),
            wheel.orientation == Orientation::LEFT ==> *final(self) == (DifferentialDrive {
                left: Motor { wheel, reversed, ticks: 0, last_encoder: 0 },
                ..*old(self)
            }),
            wheel.orientation == Orientation::RIGHT ==> *final(self) == (DifferentialDrive {
                right: Motor { wheel, reversed, ticks: 0, last_encoder: 0 },
                ..*old(self)
            }),
    {
        match wheel.orientation {
            Orientation::LEFT => {
                self.left = Motor::new(wheel, reversed);
                Ok(())
            },
            Orientation::RIGHT => {
                self.right = Motor::new(wheel, reversed);
                Ok(())
            },
            Orientation::UNDEFINED => Err(ConfigError::UndefinedOrientation),
        }
    }

    /// Starts the robot at time `now_ns`; with `restart_on_end` the planner
    /// loops over its waypoints.
    pub fn start(&mut self, restart_on_end: bool, now_ns: u64)
        ensures
            *final(self) == (DifferentialDrive {
                running: true,
                loop_run: restart_on_end,
                last_step: now_ns,
                ..*old(self)
            }),
    {
        self.running = true;
        self.loop_run = restart_on_end;
        self.last_step = now_ns;
    }

    /// Stops the robot; returns the commands that brake the left and right
    /// motors.
    pub fn halt(&mut self) -> (r: (MotorCommand, MotorCommand))
        ensures
            *final(self) == halt_spec(*old(self)),
            r == (brake_command(old(self).left), brake_command(old(self).right)),
    {
        self.running = false;
        (self.left.stop(), self.right.stop())
    }

    /// Sets the coordinates the robot should reach, in micrometres.
    pub fn set_goal(&mut self, x: i64, y: i64)
        ensures
            *final(self) == (DifferentialDrive {
                position: Position { goal_x: x, goal_y: y, ..old(self).position },
                ..*old(self)
            }),
    {
        self.position.set_goal(x, y);
    }

    /// Attaches a path planner: the pose is set to its start and the goal to
    /// its next waypoint.
    pub fn path_planner(&mut self, planner: Planner)
        requires
            old(self).wf(),
            planner.wf(),
        ensures
            final(self).wf(),
            *final(self) == advance_spec(DifferentialDrive {
                planner: Some(planner),
                position: Position {
                    x: planner.start.0,
                    y: planner.start.1,
                    phi: crate::angle::normalize(planner.start.2 as int) as i64,
                    ..old(self).position
                },
                ..*old(self)
            }),
    {
        let start = planner.start();
        self.planner = Some(planner);
        self.position.set_position(start.0, start.1, start.2 as i128);
        self.next_goal();
    }

    /// Sets the next goal of the robot from the path planner.
    fn next_goal(&mut self)
        requires
            old(self).wf(),
        ensures
            final(self).wf(),
            *final(self) == advance_spec(*old(self)),
    {
        let taken = self.planner.take();
        match taken {
            None => {
                self.planner = None;
            },
            Some(mut planner) => {
                match planner.next_goal() {
                    Ok(goal) => {
                        self.set_goal(goal.0, goal.1);
                    },
                    Err(_) => {
                        if self.loop_run {
                            planner.restart();
                            let start = planner.start();
                            self.set_goal(start.0, start.1);
                        }
                    },
                }
                self.planner = Some(planner);
            },
        }
    }

    /// Called on each step with the time `now_ns` and the encoder counters
    /// of the left and right wheels just read: updates the pose, moves on to
    /// the next waypoint when the goal is reached, and returns the commands
    /// for the left and right motors. An idle robot does nothing and returns
    /// no commands.
    pub fn step(&mut self, now_ns: u64, left_counter: i32, right_counter: i32) -> (r: Option<
        (MotorCommand, MotorCommand),
    >)
        requires
            old(self).wf(),
        ensures
            final(self).wf(),
            (*final(self), r) == step_spec(*old(self), now_ns, left_counter, right_counter),
    {
        if !self.running {
            return None;
        }
        let elapsed: u64 = if now_ns >= self.last_step { now_ns - self.last_step } else { 0 };
        let dist_l: i128 = match self.left.step(elapsed, left_counter) {
            Ok((dist, _angle)) => dist,
            Err(_) => 0,
        };
        let dist_r: i128 = match self.right.step(elapsed, right_counter) {
            Ok((dist, _angle)) => dist,
            Err(_) => 0,
        };
        self.position.calculate_position(dist_l, dist_r, self.wheel_distance);
        if self.planner.is_some() && self.position.goal_reached() {
            self.next_goal();
        }
        let cmds = if !self.position.goal_reached() {
            let (left, right) = self.position.get_goal_velocities(self.wheel_distance);
            (self.left.set_speed(left), self.right.set_speed(right))
        } else {
            (self.left.stop(), self.right.stop())
        };
        self.last_step = now_ns;
        Some(cmds)
    }

    /// The encoders of the left and right wheels, to be read before each step.
    pub fn encoders(&self) -> (r: (hal::Encoder, hal::Encoder))
        ensures
            r == (self.left.wheel.encoder, self.right.wheel.encoder),
    {
        (self.left.wheel.encoder, self.right.wheel.encoder)
    }
}

} // verus!
