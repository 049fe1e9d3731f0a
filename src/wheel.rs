//! Geometry of a motorized wheel with an encoder.
use vstd::prelude::*;
use crate::hal;

verus! {

/// The side of the robot a wheel is mounted on.
#[derive(Clone, Copy, Debug, PartialEq, Eq, Structural)]
pub enum Orientation {
    /// Marks a slot to which no wheel was attached.
    UNDEFINED,
    LEFT,
    RIGHT,
}

/// A configuration the drive cannot work with.
#[derive(Clone, Copy, Debug, PartialEq, Eq, Structural)]
pub enum ConfigError {
    /// A wheel without a left or right orientation.
    UndefinedOrientation,
    /// An axle track width of zero.
    ZeroWheelDistance,
}

/// A motorized wheel with an encoder.
///
/// The gearbox turns the motor `gear_num / gear_den` times per turn of the
/// wheel; the encoder counts `encoder_resolution` ticks per motor turn.
#[derive(Clone, Copy, Debug)]
pub struct Wheel {
    pub orientation: Orientation,
    /// Radius of the wheel, in micrometres.
    pub radius: u32,
    pub encoder: hal::Encoder,
    pub motor: hal::Motor,
    pub gear_num: u16,
    pub gear_den: u16,
    pub encoder_resolution: u16,
}

/// The placeholder wheel of an empty slot.
pub open spec fn unattached_wheel() -> Wheel {
    Wheel {
        orientation: Orientation::UNDEFINED,
        radius: 0,
        encoder: hal::Encoder::ENCODER1,
        motor: hal::Motor::MOTOR1,
        gear_num: 0,
        gear_den: 0,
        encoder_resolution: 0,
    }
}

impl Wheel {
    /// A wheel whose orientation is known has a usable geometry.
    pub open spec fn wf(&self) -> bool {
        self.orientation != Orientation::UNDEFINED ==> {
            &&& self.gear_num > 0
            &&& self.gear_den > 0
            &&& self.encoder_resolution > 0
        }
    }

    /// Creates a wheel mounted on the left side.
    pub fn left(
        radius: u32,
        encoder: hal::Encoder,
        motor: hal::Motor,
        gear_num: u16,
        gear_den: u16,
        encoder_resolution: u16,
    ) -> (r: Self)
        requires
            gear_num > 0,
            gear_den > 0,
            encoder_resolution > 0,
        ensures
            r.wf(),
            r == (Wheel {
                orientation: Orientation::LEFT,
                radius,
                encoder,
                motor,
                gear_num,
                gear_den,
                encoder_resolution,
            }),
    {
        Wheel {
            orientation: Orientation::LEFT,
            radius,
            encoder,
            motor,
            gear_num,
            gear_den,
            encoder_resolution,
        }
    }

    /// Creates a wheel mounted on the right side.
    pub fn right(
        radius: u32,
        encoder: hal::Encoder,
        motor: hal::Motor,
        gear_num: u16,
        gear_den: u16,
        encoder_resolution: u16,
    ) -> (r: Self)
        requires
            gear_num > 0,
            gear_den > 0,
            encoder_resolution > 0,
        ensures
            r.wf(),
            r == (Wheel {
                orientation: Orientation::RIGHT,
                radius,
                encoder,
                motor,
                gear_num,
                gear_den,
                encoder_resolution,
            }),
    {
        Wheel {
            orientation: Orientation::RIGHT,
            radius,
            encoder,
            motor,
            gear_num,
            gear_den,
            encoder_resolution,
        }
    }

    /// The placeholder of a slot to which no wheel was attached yet.
    pub fn unattached() -> (r: Self)
        ensures
            r.wf(),
            r == unattached_wheel(),
    {
        Wheel {
            orientation: Orientation::UNDEFINED,
            radius: 0,
            encoder: hal::Encoder::ENCODER1,
            motor: hal::Motor::MOTOR1,
            gear_num: 0,
            gear_den: 0,
            encoder_resolution: 0,
        }
    }
}

} // verus!
