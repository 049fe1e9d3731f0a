use diffdrive::angle::{bearing, cosine, normalize_heading, sine, HALF_TURN};
use diffdrive::diff_drive::{self, DifferentialDrive};
use diffdrive::hal::{Encoder, Motor as MotorId, MotorCommand};
use diffdrive::motor::Motor;
use diffdrive::planner::{from_points, Planner, PlannerError};
use diffdrive::position::Position;
use diffdrive::wheel::{ConfigError, Wheel};

fn left_wheel() -> Wheel {
    Wheel::left(40000, Encoder::ENCODER3, MotorId::MOTOR3, 3441, 104, 32)
}

fn right_wheel() -> Wheel {
    Wheel::right(40000, Encoder::ENCODER2, MotorId::MOTOR2, 3441, 104, 32)
}

fn robot() -> DifferentialDrive {
    let mut d = diff_drive::new(155000, 163000).unwrap();
    d.add_wheel(left_wheel(), true).unwrap();
    d.add_wheel(right_wheel(), false).unwrap();
    d
}

#[test]
fn normalize_keeps_headings_in_range() {
    assert_eq!(normalize_heading(190_000_000), -170_000_000);
    assert_eq!(normalize_heading(-180_000_000), 180_000_000);
    assert_eq!(normalize_heading(180_000_000), 180_000_000);
    assert_eq!(normalize_heading(-190_000_000), 170_000_000);
    assert_eq!(normalize_heading(0), 0);
}

#[test]
fn normalize_is_idempotent_and_periodic() {
    for h in [-179_999_999i128, -90_000_000, 0, 12_345_678, 180_000_000] {
        let n = normalize_heading(h);
        assert_eq!(n as i128, h);
        assert_eq!(normalize_heading(n as i128), n);
    }
    for k in [-3i128, -1, 1, 2, 5] {
        assert_eq!(normalize_heading(30_000_000 + 360_000_000 * k), 30_000_000);
        assert_eq!(normalize_heading(-150_000_000 + 360_000_000 * k), -150_000_000);
    }
}

#[test]
fn sine_and_cosine_values() {
    assert_eq!(sine(0), 0);
    assert_eq!(cosine(0), 1_000_000);
    assert_eq!(sine(30_000_000), 500_000);
    assert_eq!(sine(90_000_000), 1_000_000);
    assert_eq!(sine(-90_000_000), -1_000_000);
    assert_eq!(sine(45_000_000), 705_882);
    assert_eq!(cosine(HALF_TURN), -1_000_000);
    assert_eq!(cosine(90_000_000), 0);
}

#[test]
fn bearing_values() {
    assert_eq!(bearing(0, 0), 0);
    assert_eq!(bearing(5, 0), 0);
    assert_eq!(bearing(0, 5), 90_000_000);
    assert_eq!(bearing(-5, 0), 180_000_000);
    assert_eq!(bearing(0, -5), -90_000_000);
    assert_eq!(bearing(7, 7), 45_000_000);
    assert_eq!(bearing(-7, -7), -135_000_000);
    assert_eq!(bearing(2, 1), 26_410_000);
}

#[test]
fn goal_reached_is_an_axis_aligned_box() {
    let mut p = Position::new();
    p.set_goal(500_000, 500_000);
    p.set_position(505_000, 508_000, 0);
    assert!(p.goal_reached());
    p.set_position(505_000, 515_000, 0);
    assert!(!p.goal_reached());
    p.set_position(510_000, 490_000, 0);
    assert!(p.goal_reached());
    p.set_position(510_001, 500_000, 0);
    assert!(!p.goal_reached());
    // A diagonal offset outside a 10 mm circle but inside the square.
    p.set_position(509_000, 509_000, 0);
    assert!(p.goal_reached());
}

#[test]
fn straight_travel_moves_along_x() {
    let mut p = Position::new();
    p.calculate_position(50_000, 50_000, 155_000);
    assert_eq!(p.x, 50_000);
    assert_eq!(p.y, 0);
    assert_eq!(p.phi, 0);
}

#[test]
fn turn_changes_heading_only() {
    let mut p = Position::new();
    p.calculate_position(0, 100_000, 155_000);
    assert!(p.phi > 0);
    assert_eq!(p.phi, 36_965_015);
    assert_eq!(p.y, 0);
    assert_eq!(p.x, 50_000);
}

#[test]
fn travel_along_a_heading() {
    let mut p = Position::new();
    p.set_position(0, 0, 90_000_000);
    p.calculate_position(20_000, 20_000, 155_000);
    assert_eq!(p.x, 0);
    assert_eq!(p.y, 20_000);
    p.set_position(0, 0, 540_000_000);
    assert_eq!(p.phi, 180_000_000);
    p.calculate_position(20_000, 20_000, 155_000);
    assert_eq!(p.x, -20_000);
}

#[test]
fn goal_velocities_follow_heading_error() {
    let mut p = Position::new();
    p.set_goal(1_000_000, 0);
    assert_eq!(p.get_goal_velocities(155_000), (100_000, 50_000));
    p.set_goal(0, -1_000_000);
    assert_eq!(p.get_goal_velocities(155_000), (25_000, 125_000));
    p.set_goal(0, 1_000_000);
    assert_eq!(p.get_goal_velocities(155_000), (125_000, 25_000));
    p.set_goal(-1_000_000, 0);
    assert_eq!(p.get_goal_velocities(155_000), (150_000, 0));
}

#[test]
fn degree_and_radian_convert_units() {
    assert_eq!(Position::degree(90_500_000), 90);
    assert_eq!(Position::degree(-90_500_000), -90);
    assert_eq!(Position::radian(45), 45_000_000);
}

#[test]
fn waypoints_round_trip() {
    let mut p = Planner::new((0, 0, 0));
    p.push(0, 0);
    p.push(100, 0);
    p.push(100, 100);
    assert_eq!(p.next_goal(), Ok((0, 0)));
    assert_eq!(p.next_goal(), Ok((100, 0)));
    assert_eq!(p.next_goal(), Ok((100, 100)));
    assert_eq!(p.next_goal(), Err(PlannerError::Exhausted));
    assert_eq!(p.next_goal(), Err(PlannerError::Exhausted));
    p.restart();
    assert_eq!(p.next_goal(), Ok((0, 0)));
}

#[test]
fn from_points_keeps_order_and_start() {
    let mut p = from_points((1, 2, 3), &[(10, 20), (30, 40)]);
    assert_eq!(p.start(), (1, 2, 3));
    assert_eq!(p.next_goal(), Ok((10, 20)));
    assert_eq!(p.next_goal(), Ok((30, 40)));
    assert_eq!(p.next_goal(), Err(PlannerError::Exhausted));
}

#[test]
fn motor_integrates_encoder_deltas() {
    let mut m = Motor::new(left_wheel(), false);
    assert_eq!(m.step(0, 1000), Ok((118_688, 54_115_451)));
    assert_eq!(m.step(0, 1000), Ok((0, 54_115_451)));
    assert_eq!(m.step(0, 0), Ok((-118_688, 0)));
    assert_eq!(m.total_distance(), 0);
}

#[test]
fn reversed_motor_negates_ticks() {
    let mut m = Motor::new(left_wheel(), true);
    assert_eq!(m.step(0, -1000), Ok((118_688, 54_115_451)));
    assert_eq!(m.ticks, 1000);
}

#[test]
fn cumulative_ticks_are_the_sum_of_deltas() {
    let mut m = Motor::new(right_wheel(), true);
    let readings = [5i32, 12, 7, -20, 33, 33, 100];
    let mut last = 0i64;
    let mut sum = 0i64;
    for r in readings {
        m.step(0, r).unwrap();
        sum -= r as i64 - last;
        last = r as i64;
    }
    assert_eq!(m.ticks, sum);
    assert_eq!(m.ticks, -100);
}

#[test]
fn encoder_counter_wraps() {
    let mut m = Motor::new(right_wheel(), false);
    m.step(0, i32::MAX).unwrap();
    let t = m.ticks;
    m.step(0, i32::MIN).unwrap();
    assert_eq!(m.ticks, t + 1);
    m.step(0, i32::MAX).unwrap();
    assert_eq!(m.ticks, t);
}

#[test]
fn unattached_motor_reports_an_error() {
    let mut m = Motor::new(Wheel::unattached(), false);
    assert_eq!(m.step(0, 1000), Err(ConfigError::UndefinedOrientation));
    assert_eq!(m.ticks, 0);
    assert_eq!(m.total_distance(), 0);
}

#[test]
fn set_speed_clamps_and_flips() {
    let m = Motor::new(left_wheel(), false);
    assert_eq!(m.set_speed(500_000), MotorCommand::Run { motor: MotorId::MOTOR3, duty: 500_000 });
    assert_eq!(m.set_speed(3_000_000), MotorCommand::Run { motor: MotorId::MOTOR3, duty: 1_000_000 });
    assert_eq!(m.set_speed(-3_000_000), MotorCommand::Run { motor: MotorId::MOTOR3, duty: -1_000_000 });
    let r = Motor::new(left_wheel(), true);
    assert_eq!(r.set_speed(3_000_000), MotorCommand::Run { motor: MotorId::MOTOR3, duty: -1_000_000 });
    assert_eq!(r.set_speed(250_000), MotorCommand::Run { motor: MotorId::MOTOR3, duty: -250_000 });
    assert_eq!(r.stop(), MotorCommand::Brake { motor: MotorId::MOTOR3 });
}

#[test]
fn zero_wheel_distance_is_refused() {
    assert!(matches!(diff_drive::new(0, 163000), Err(ConfigError::ZeroWheelDistance)));
    assert!(diff_drive::new(1, 0).is_ok());
}

#[test]
fn undefined_wheel_is_refused() {
    let mut d = diff_drive::new(155000, 163000).unwrap();
    assert_eq!(d.add_wheel(Wheel::unattached(), false), Err(ConfigError::UndefinedOrientation));
    assert_eq!(d.add_wheel(left_wheel(), false), Ok(()));
    assert_eq!(d.encoders(), (Encoder::ENCODER3, Encoder::ENCODER1));
}

#[test]
fn idle_robot_does_nothing() {
    let mut d = robot();
    d.set_goal(500_000, 0);
    assert_eq!(d.step(1_000_000, 1000, 1000), None);
    assert_eq!(d.position, Position { x: 0, y: 0, goal_x: 500_000, goal_y: 0, phi: 0 });
}

#[test]
fn running_robot_drives_toward_goal() {
    let mut d = robot();
    d.set_goal(500_000, 0);
    d.start(false, 0);
    let cmds = d.step(1_000_000, -1000, 1000);
    assert_eq!(d.position.x, 118_688);
    assert_eq!(d.position.y, 0);
    assert_eq!(d.position.phi, 0);
    assert_eq!(d.last_step, 1_000_000);
    assert_eq!(
        cmds,
        Some((
            MotorCommand::Run { motor: MotorId::MOTOR3, duty: -100_000 },
            MotorCommand::Run { motor: MotorId::MOTOR2, duty: 50_000 },
        ))
    );
}

#[test]
fn robot_brakes_at_goal() {
    let mut d = robot();
    d.set_goal(5_000, 5_000);
    d.start(false, 0);
    let cmds = d.step(1, 0, 0);
    assert_eq!(
        cmds,
        Some((MotorCommand::Brake { motor: MotorId::MOTOR3 }, MotorCommand::Brake { motor: MotorId::MOTOR2 }))
    );
}

#[test]
fn halted_robot_ignores_steps() {
    let mut d = robot();
    d.set_goal(500_000, 0);
    d.start(false, 0);
    d.step(1_000_000, -1000, 1000);
    let cmds = d.halt();
    assert_eq!(cmds, (MotorCommand::Brake { motor: MotorId::MOTOR3 }, MotorCommand::Brake { motor: MotorId::MOTOR2 }));
    let before = d.position;
    let ticks = (d.left.ticks, d.right.ticks);
    for t in 2..6u64 {
        assert_eq!(d.step(t * 1_000_000, -5000 * t as i32, 5000 * t as i32), None);
    }
    assert_eq!(d.position, before);
    assert_eq!((d.left.ticks, d.right.ticks), ticks);
    assert!(!d.running);
    assert_eq!(d.halt(), cmds);
}

#[test]
fn planner_advances_goals() {
    let mut d = robot();
    d.path_planner(from_points((0, 0, 0), &[(0, 0), (100_000, 0)]));
    assert_eq!((d.position.goal_x, d.position.goal_y), (0, 0));
    d.start(false, 0);
    let cmds = d.step(1, 0, 0);
    assert_eq!((d.position.goal_x, d.position.goal_y), (100_000, 0));
    assert!(matches!(cmds, Some((MotorCommand::Run { .. }, MotorCommand::Run { .. }))));
}

#[test]
fn exhausted_planner_holds_last_goal() {
    let mut d = robot();
    d.path_planner(from_points((0, 0, 0), &[(0, 0)]));
    d.start(false, 0);
    let cmds = d.step(1, 0, 0);
    assert_eq!((d.position.goal_x, d.position.goal_y), (0, 0));
    assert_eq!(
        cmds,
        Some((MotorCommand::Brake { motor: MotorId::MOTOR3 }, MotorCommand::Brake { motor: MotorId::MOTOR2 }))
    );
}

#[test]
fn looping_planner_returns_to_start() {
    let mut d = robot();
    d.path_planner(from_points((300_000, 0, 450_000_000), &[(0, 0)]));
    assert_eq!(d.position.x, 300_000);
    assert_eq!(d.position.phi, 90_000_000);
    d.position.set_position(0, 0, 0);
    d.start(true, 0);
    let cmds = d.step(1, 0, 0);
    assert_eq!((d.position.goal_x, d.position.goal_y), (300_000, 0));
    assert_eq!(d.planner.as_ref().map(|p| p.pos), Some(0));
    assert!(matches!(cmds, Some((MotorCommand::Run { .. }, MotorCommand::Run { .. }))));
}

#[test]
fn reversed_motor_mirrors_from_any_total() {
    let forward = Motor::new(right_wheel(), false);
    let mut m1 = Motor { ticks: 777, last_encoder: 40, ..forward };
    let mut m2 = Motor { reversed: true, ticks: -777, last_encoder: 40, ..forward };
    for r in [41i32, 300, -12, -12, 5000, 4999] {
        let (d1, a1) = m1.step(0, r).unwrap();
        let (d2, a2) = m2.step(0, r).unwrap();
        assert_eq!(d2, -d1);
        assert_eq!(a2, -a1);
        assert_eq!(m2.ticks, -m1.ticks);
    }
    assert_eq!(m2.total_distance(), -m1.total_distance());
}

#[test]
fn wheel_angle_is_in_radians() {
    // One tick per radian: 57.29577 degrees.
    let w = Wheel::right(1000, Encoder::ENCODER1, MotorId::MOTOR1, 1, 1, 1);
    let mut m = Motor::new(w, false);
    assert_eq!(m.step(0, 1), Ok((3_141, 57_295_774)));
    assert_eq!(m.step(0, 2), Ok((3_142, 114_591_549)));
}
