//! An ultrasonic range sensor: its pins, the flag that stops its sampling
//! loop, and the conversion of an echo time into a distance.
use vstd::prelude::*;
use std::sync::Arc;
use std::sync::atomic::{AtomicBool, Ordering};
use crate::hal;

verus! {

/// Creates a range sensor on the `trigger` and `echo` pins, each a chip and
/// a line number.
pub fn new(trigger: (hal::GpioChip, i32), echo: (hal::GpioChip, i32)) -> (r: Ultrasonic)
    ensures
        r.trigger_chip == trigger.0,
        r.trigger_pin == trigger.1,
        r.echo_chip == echo.0,
        r.echo_pin == echo.1,
{
    Ultrasonic {
        trigger_chip: trigger.0,
        trigger_pin: trigger.1,
        echo_chip: echo.0,
        echo_pin: echo.1,
        stop: Arc::new(AtomicBool::new(false)),
    }
}

/// Speed of sound in air, in micrometres per microsecond.
pub const SOUND_SPEED: u64 = 343;

/// The distance to an obstacle, in micrometres, from the time its echo took,
/// in microseconds: sound covers the way there and back.
pub fn echo_distance(micros: u64) -> (r: u64)
    requires
        micros <= u64::MAX / 343,
    ensures
        r == micros * 343 / 2,
{
    micros * SOUND_SPEED / 2
}

/// An ultrasonic range sensor.
pub struct Ultrasonic {
    pub trigger_chip: hal::GpioChip,
    pub trigger_pin: i32,
    pub echo_chip: hal::GpioChip,
    pub echo_pin: i32,
    /// Set to ask the sampling loop to stop.
    pub stop: Arc<AtomicBool>,
}

impl Ultrasonic {
    /// Asks the sampling loop to stop.
    pub fn stop(&mut self)
        ensures
            final(self).trigger_chip == old(self).trigger_chip,
            final(self).trigger_pin == old(self).trigger_pin,
            final(self).echo_chip == old(self).echo_chip,
            final(self).echo_pin == old(self).echo_pin,
    {
        self.stop.store(true, Ordering::Relaxed);
    }

    /// Whether the sampling loop was asked to stop.
    pub fn stop_requested(&self) -> bool {
        self.stop.load(Ordering::Relaxed)
    }

    /// The trigger pin: chip and line number.
    pub fn trigger(&self) -> (r: (hal::GpioChip, i32))
        ensures
            r == (self.trigger_chip, self.trigger_pin),
    {
        (self.trigger_chip, self.trigger_pin)
    }

    /// The echo pin: chip and line number.
    pub fn echo(&self) -> (r: (hal::GpioChip, i32))
        ensures
            r == (self.echo_chip, self.echo_pin),
    {
        (self.echo_chip, self.echo_pin)
    }

    /// Another handle on this sensor, sharing its stop flag.
    pub fn handle(&self) -> (r: Ultrasonic)
        ensures
            r.trigger_chip == self.trigger_chip,
            r.trigger_pin == self.trigger_pin,
            r.echo_chip == self.echo_chip,
            r.echo_pin == self.echo_pin,
    {
        Ultrasonic {
            trigger_chip: self.trigger_chip,
            trigger_pin: self.trigger_pin,
            echo_chip: self.echo_chip,
            echo_pin: self.echo_pin,
            stop: Arc::clone(&self.stop),
        }
    }
}

} // verus!
