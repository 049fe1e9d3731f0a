//! Identifiers of the board's peripherals and the commands the control core
//! hands to the hardware layer.
use vstd::prelude::*;

verus! {

/// Debounce time of the buttons, in microseconds.
pub const BUTTON_DEBOUNCE: i32 = 2000;

/// PWM frequency of the motor drivers, in hertz.
pub const MOTOR_PWM: i32 = 25000;

/// Full drive of a motor, in parts per million.
pub const DUTY_ONE: i64 = 1000000;

/// Buttons of the board.
#[derive(Clone, Copy, Debug, PartialEq, Eq, Structural)]
pub enum Button {
    Pause,
    Mode,
}

impl Button {
    /// The pin number of the button.
    pub fn pin(&self) -> (r: i32)
        ensures
            r == (match *self {
                Button::Pause => 5i32,
                Button::Mode => 4i32,
            }),
    {
        match self {
            Button::Pause => 5,
            Button::Mode => 4,
        }
    }
}

/// Encoder channels.
#[derive(Clone, Copy, Debug, PartialEq, Eq, Structural)]
pub enum Encoder {
    ENCODER1,
    ENCODER2,
    ENCODER3,
    ENCODER4,
}

impl Encoder {
    /// The channel number, 1 to 4.
    pub fn channel(&self) -> (r: i32)
        ensures
            r == (match *self {
                Encoder::ENCODER1 => 1i32,
                Encoder::ENCODER2 => 2i32,
                Encoder::ENCODER3 => 3i32,
                Encoder::ENCODER4 => 4i32,
            }),
    {
        match self {
            Encoder::ENCODER1 => 1,
            Encoder::ENCODER2 => 2,
            Encoder::ENCODER3 => 3,
            Encoder::ENCODER4 => 4,
        }
    }

    /// Whether the channel is counted by the PRU rather than by an eQEP unit.
    pub fn is_pru(&self) -> (r: bool)
        ensures
            r == (*self == Encoder::ENCODER4),
    {
        match self {
            Encoder::ENCODER4 => true,
            _ => false,
        }
    }
}

/// Motor channels.
#[derive(Clone, Copy, Debug, PartialEq, Eq, Structural)]
pub enum Motor {
    MOTOR1,
    MOTOR2,
    MOTOR3,
    MOTOR4,
}

impl Motor {
    /// The channel number, 1 to 4.
    pub fn channel(&self) -> (r: i32)
        ensures
            r == (match *self {
                Motor::MOTOR1 => 1i32,
                Motor::MOTOR2 => 2i32,
                Motor::MOTOR3 => 3i32,
                Motor::MOTOR4 => 4i32,
            }),
    {
        match self {
            Motor::MOTOR1 => 1,
            Motor::MOTOR2 => 2,
            Motor::MOTOR3 => 3,
            Motor::MOTOR4 => 4,
        }
    }
}

/// The value of `x` limited to `[-DUTY_ONE, DUTY_ONE]`.
pub open spec fn clamp_duty_spec(x: int) -> int {
    if x > DUTY_ONE {
        DUTY_ONE as int
    } else if x < -DUTY_ONE {
        -DUTY_ONE
    } else {
        x
    }
}

/// Limits a duty to full drive in either direction.
pub fn clamp_duty(speed: i64) -> (r: i64)
    ensures
        r == clamp_duty_spec(speed as int),
        -DUTY_ONE <= r <= DUTY_ONE,
{
    if speed > DUTY_ONE {
        DUTY_ONE
    } else if speed < -DUTY_ONE {
        -DUTY_ONE
    } else {
        speed
    }
}

/// A command for one motor driver.
#[derive(Clone, Copy, Debug, PartialEq, Eq, Structural)]
pub enum MotorCommand {
    /// Drive the motor with a duty in `[-DUTY_ONE, DUTY_ONE]`.
    Run { motor: Motor, duty: i64 },
    /// Brake the motor.
    Brake { motor: Motor },
}

/// GPIO chips.
#[derive(Clone, Copy, Debug, PartialEq, Eq, Structural)]
pub enum GpioChip {
    GPIO0,
    GPIO1,
    GPIO2,
    GPIO3,
}

impl GpioChip {
    /// The chip number, 0 to 3.
    pub fn number(&self) -> (r: i32)
        ensures
            r == (match *self {
                GpioChip::GPIO0 => 0i32,
                GpioChip::GPIO1 => 1i32,
                GpioChip::GPIO2 => 2i32,
                GpioChip::GPIO3 => 3i32,
            }),
    {
        match self {
            GpioChip::GPIO0 => 0,
            GpioChip::GPIO1 => 1,
            GpioChip::GPIO2 => 2,
            GpioChip::GPIO3 => 3,
        }
    }
}

/// Request flags of a GPIO line.
#[allow(non_camel_case_types)]
#[derive(Clone, Copy, Debug, PartialEq, Eq, Structural)]
pub enum GpioHandle {
    INPUT,
    OUTPUT,
    ACTIVE_LOW,
    OPEN_DRAIN,
    OPEN_SOURCE,
}

impl GpioHandle {
    /// The flag bit of the request.
    pub fn flag(&self) -> (r: i32)
        ensures
            r == (match *self {
                GpioHandle::INPUT => 0i32,
                GpioHandle::OUTPUT => 2i32,
                GpioHandle::ACTIVE_LOW => 4i32,
                GpioHandle::OPEN_DRAIN => 8i32,
                GpioHandle::OPEN_SOURCE => 16i32,
            }),
    {
        match self {
            GpioHandle::INPUT => 0,
            GpioHandle::OUTPUT => 2,
            GpioHandle::ACTIVE_LOW => 4,
            GpioHandle::OPEN_DRAIN => 8,
            GpioHandle::OPEN_SOURCE => 16,
        }
    }
}

/// Level of a GPIO pulse.
#[derive(Clone, Copy, Debug, PartialEq, Eq, Structural)]
pub enum GpioTrigger {
    LOW,
    HIGH,
}

impl GpioTrigger {
    /// The line value of this level.
    pub fn get(&self) -> (r: i32)
        ensures
            r == (if *self == GpioTrigger::LOW { 0i32 } else { 1i32 }),
    {
        match self {
            GpioTrigger::LOW => 0,
            GpioTrigger::HIGH => 1,
        }
    }

    /// The line value of the opposite level.
    pub fn inv(&self) -> (r: i32)
        ensures
            r == (if *self == GpioTrigger::LOW { 1i32 } else { 0i32 }),
    {
        match self {
            GpioTrigger::LOW => 1,
            GpioTrigger::HIGH => 0,
        }
    }
}

/// Most line reads one pulse measurement may take.
pub const MAX_PULSE_READS: u32 = 10240;

/// The value a line read returns on failure.
pub const SIGNAL_ERROR: i32 = -1;

/// Why a pulse could not be measured.
#[derive(Clone, Copy, Debug, PartialEq, Eq, Structural)]
pub enum PulseError {
    /// The first read of the line failed.
    NoSignal,
    /// The line did not reach and leave the level within `MAX_PULSE_READS`.
    Timeout,
}

/// Where a pulse measurement stands.
#[derive(Clone, Copy, Debug, PartialEq, Eq, Structural)]
pub enum PulsePhase {
    /// No line value read yet.
    First,
    /// Waiting for the line to reach the level.
    Waiting,
    /// The line is at the level; timing runs.
    Measuring,
    /// The measurement ended.
    Finished,
}

/// What to do after a line value was handed to the reader.
#[derive(Clone, Copy, Debug, PartialEq, Eq, Structural)]
pub enum PulseAction {
    /// Read the line again.
    Read,
    /// Start the timer, then read the line again.
    StartTimer,
    /// The pulse ended: its length is the time since the timer started.
    Done,
    /// The measurement failed.
    Fail(PulseError),
}

/// Measures how long a line stays at a level: a state machine that is
/// handed each value read from the line and says what to do next.
#[derive(Clone, Copy, Debug, PartialEq, Eq, Structural)]
pub struct PulseReader {
    /// The line value of the level to time.
    pub level: i32,
    /// Line reads counted against `MAX_PULSE_READS`.
    pub reads: u32,
    pub phase: PulsePhase,
}

/// The reader and its action after the line value `signal`.
pub open spec fn pulse_spec(p: PulseReader, signal: i32) -> (PulseReader, PulseAction) {
    if p.phase == PulsePhase::First && signal == SIGNAL_ERROR {
        (PulseReader { phase: PulsePhase::Finished, ..p }, PulseAction::Fail(PulseError::NoSignal))
    } else if (p.phase == PulsePhase::First || p.phase == PulsePhase::Waiting) && signal != p.level {
        if p.reads + 1 > MAX_PULSE_READS {
            (PulseReader { reads: (p.reads + 1) as u32, phase: PulsePhase::Finished, ..p },
                PulseAction::Fail(PulseError::Timeout))
        } else {
            (PulseReader { reads: (p.reads + 1) as u32, phase: PulsePhase::Waiting, ..p }, PulseAction::Read)
        }
    } else if p.phase == PulsePhase::Measuring && signal != p.level {
        (PulseReader { phase: PulsePhase::Finished, ..p }, PulseAction::Done)
    } else if p.reads + 1 > MAX_PULSE_READS {
        (PulseReader { reads: (p.reads + 1) as u32, phase: PulsePhase::Finished, ..p },
            PulseAction::Fail(PulseError::Timeout))
    } else if p.phase == PulsePhase::Measuring {
        (PulseReader { reads: (p.reads + 1) as u32, ..p }, PulseAction::Read)
    } else {
        (PulseReader { reads: (p.reads + 1) as u32, phase: PulsePhase::Measuring, ..p },
            PulseAction::StartTimer)
    }
}

impl PulseReader {
    pub open spec fn wf(&self) -> bool {
        &&& self.reads <= MAX_PULSE_READS
        &&& self.phase != PulsePhase::Finished
    }

    /// A reader that times how long the line stays at `value`.
    pub fn new(value: GpioTrigger) -> (r: PulseReader)
        ensures
            r.wf(),
            r == (PulseReader { level: if value == GpioTrigger::LOW { 0i32 } else { 1i32 }, reads: 0, phase: PulsePhase::First }),
    {
        PulseReader { level: value.get(), reads: 0, phase: PulsePhase::First }
    }

    /// Takes the next value read from the line. The first read must not
    /// fail; then each read while the line is not at the level, and each
    /// while it is, counts against `MAX_PULSE_READS`. The timer starts when
    /// the line reaches the level and the pulse ends when it leaves it.
    pub fn on_sample(&mut self, signal: i32) -> (r: PulseAction)
        requires
            old(self).wf(),
        ensures
            (*final(self), r) == pulse_spec(*old(self), signal),
            r == PulseAction::Read || r == PulseAction::StartTimer ==> final(self).wf(),
            final(self).phase == PulsePhase::Finished <==> (r matches PulseAction::Fail(_) || r == PulseAction::Done),
    {
        if self.phase == PulsePhase::First && signal == SIGNAL_ERROR {
            self.phase = PulsePhase::Finished;
            return PulseAction::Fail(PulseError::NoSignal);
        }
        let at_level = signal == self.level;
        if (self.phase == PulsePhase::First || self.phase == PulsePhase::Waiting) && !at_level {
            self.reads = self.reads + 1;
            if self.reads > MAX_PULSE_READS {
                self.phase = PulsePhase::Finished;
                return PulseAction::Fail(PulseError::Timeout);
            }
            self.phase = PulsePhase::Waiting;
            return PulseAction::Read;
        }
        if self.phase == PulsePhase::Measuring && !at_level {
            self.phase = PulsePhase::Finished;
            return PulseAction::Done;
        }
        self.reads = self.reads + 1;
        if self.reads > MAX_PULSE_READS {
            self.phase = PulsePhase::Finished;
            return PulseAction::Fail(PulseError::Timeout);
        }
        if self.phase == PulsePhase::Measuring {
            PulseAction::Read
        } else {
            self.phase = PulsePhase::Measuring;
            PulseAction::StartTimer
        }
    }
}

} // verus!
