use diffdrive::distance::{self, echo_distance};
use diffdrive::hal::{
    clamp_duty, Button, Encoder, GpioChip, GpioHandle, GpioTrigger, Motor, PulseAction, PulseError,
    PulseReader,
};
use diffdrive::librobotcontrol;

#[test]
fn trigger_levels() {
    assert_eq!(GpioTrigger::LOW.get(), 0);
    assert_eq!(GpioTrigger::HIGH.get(), 1);
    assert_eq!(GpioTrigger::LOW.inv(), 1);
    assert_eq!(GpioTrigger::HIGH.inv(), 0);
}

#[test]
fn peripheral_numbers() {
    assert_eq!(Button::Pause.pin(), 5);
    assert_eq!(Button::Mode.pin(), 4);
    assert_eq!(librobotcontrol::Button::Pause.pin(), 5);
    assert_eq!(librobotcontrol::Button::Mode.pin(), 4);
    assert_eq!(Encoder::ENCODER3.channel(), 3);
    assert!(Encoder::ENCODER4.is_pru());
    assert!(!Encoder::ENCODER1.is_pru());
    assert_eq!(Motor::MOTOR2.channel(), 2);
    assert_eq!(GpioChip::GPIO1.number(), 1);
    assert_eq!(GpioHandle::OUTPUT.flag(), 2);
    assert_eq!(GpioHandle::OPEN_SOURCE.flag(), 16);
}

#[test]
fn duty_is_clamped() {
    assert_eq!(clamp_duty(2_000_000), 1_000_000);
    assert_eq!(clamp_duty(-2_000_000), -1_000_000);
    assert_eq!(clamp_duty(-400_000), -400_000);
}

#[test]
fn pulse_is_timed_between_level_edges() {
    let mut r = PulseReader::new(GpioTrigger::HIGH);
    assert_eq!(r.on_sample(0), PulseAction::Read);
    assert_eq!(r.on_sample(0), PulseAction::Read);
    assert_eq!(r.on_sample(1), PulseAction::StartTimer);
    assert_eq!(r.on_sample(1), PulseAction::Read);
    assert_eq!(r.on_sample(0), PulseAction::Done);
    assert_eq!(r.reads, 4);
}

#[test]
fn pulse_first_read_failure() {
    let mut r = PulseReader::new(GpioTrigger::HIGH);
    assert_eq!(r.on_sample(-1), PulseAction::Fail(PulseError::NoSignal));
}

#[test]
fn pulse_times_out() {
    let mut r = PulseReader::new(GpioTrigger::LOW);
    for _ in 0..10240 {
        assert_eq!(r.on_sample(1), PulseAction::Read);
    }
    assert_eq!(r.on_sample(1), PulseAction::Fail(PulseError::Timeout));
}

#[test]
fn echo_time_gives_distance() {
    assert_eq!(echo_distance(1000), 171_500);
    assert_eq!(echo_distance(1), 171);
    assert_eq!(echo_distance(0), 0);
}

#[test]
fn ultrasonic_stop_flag() {
    let mut u = distance::new((GpioChip::GPIO1, 17), (GpioChip::GPIO2, 5));
    let h = u.handle();
    assert_eq!(u.trigger(), (GpioChip::GPIO1, 17));
    assert_eq!(u.echo(), (GpioChip::GPIO2, 5));
    assert!(!h.stop_requested());
    u.stop();
    assert!(u.stop_requested());
    assert!(h.stop_requested());
}
