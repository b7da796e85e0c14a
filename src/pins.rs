//! Handles on the board's pins, and the values that configure them.

use vstd::prelude::*;
use crate::interrupts::ToInterrupt;
use crate::raw::{byte_from_ffi, RawAnalogReference, RawPinLevel, RawPinMode};
use crate::serial::SerialPort;
use crate::sys::InterruptControl;

verus! {

/// Digital pin state.
#[derive(Clone, Copy, Debug, PartialEq, Eq, Hash, Structural)]
pub enum PinLevel {
    /// The state is low.
    Low,
    /// The state is high.
    High,
}

impl PinLevel {
    /// The level that the board-support encoding `level` stands for.
    pub fn from_ffi(level: RawPinLevel) -> (r: PinLevel)
        ensures
            r.to_raw() == level,
    {
        match level {
            RawPinLevel::Low => PinLevel::Low,
            RawPinLevel::High => PinLevel::High,
        }
    }

    /// The board-support encoding of this level.
    pub open spec fn to_raw(self) -> RawPinLevel {
        match self {
            PinLevel::Low => RawPinLevel::Low,
            PinLevel::High => RawPinLevel::High,
        }
    }

    /// The board-support encoding of this level.
    pub fn to_ffi(self) -> (r: RawPinLevel)
        ensures
            r == self.to_raw(),
    {
        match self {
            PinLevel::Low => RawPinLevel::Low,
            PinLevel::High => RawPinLevel::High,
        }
    }
}

/// Pin modes.
#[derive(Clone, Copy, Debug, PartialEq, Eq, Hash, Structural)]
pub enum PinMode {
    /// Input mode, generally used to read the pin.
    Input,
    /// Input mode with the internal pull-up resistor active.
    InputPullup,
    /// Output mode, generally used to write the pin.
    Output,
    /// A mode that only some platforms offer.
    __Raw(RawPinMode),
}

impl PinMode {
    /// The board-support encoding of this mode.
    pub open spec fn to_raw(self) -> RawPinMode {
        match self {
            PinMode::Input => RawPinMode::Input,
            PinMode::InputPullup => RawPinMode::InputPullup,
            PinMode::Output => RawPinMode::Output,
            PinMode::__Raw(raw) => raw,
        }
    }

    /// The board-support encoding of this mode.
    pub fn to_ffi(self) -> (r: RawPinMode)
        ensures
            r == self.to_raw(),
    {
        match self {
            PinMode::Input => RawPinMode::Input,
            PinMode::InputPullup => RawPinMode::InputPullup,
            PinMode::Output => RawPinMode::Output,
            PinMode::__Raw(raw) => raw,
        }
    }
}

/// Reference voltage for analog inputs.
#[derive(Clone, Copy, Debug, PartialEq, Eq, Hash, Structural)]
pub enum AnalogReference {
    /// The board's supply voltage.
    Default,
    /// The voltage applied to the `AREF` pin.
    External,
    /// The board's built-in reference.
    Internal,
    /// A reference that only some platforms offer.
    __Raw(RawAnalogReference),
}

impl AnalogReference {
    /// The board-support encoding of this reference.
    pub open spec fn to_raw(self) -> RawAnalogReference {
        match self {
            AnalogReference::Default => RawAnalogReference::Default,
            AnalogReference::External => RawAnalogReference::External,
            AnalogReference::Internal => RawAnalogReference::Internal,
            AnalogReference::__Raw(raw) => raw,
        }
    }

    /// The board-support encoding of this reference.
    pub fn to_ffi(self) -> (r: RawAnalogReference)
        ensures
            r == self.to_raw(),
    {
        match self {
            AnalogReference::Default => RawAnalogReference::Default,
            AnalogReference::External => RawAnalogReference::External,
            AnalogReference::Internal => RawAnalogReference::Internal,
            AnalogReference::__Raw(raw) => raw,
        }
    }
}

impl Default for AnalogReference {
    fn default() -> (r: AnalogReference)
        ensures
            r == AnalogReference::Default,
    {
        AnalogReference::Default
    }
}

/// What a digital pin of the board can do besides reading and writing levels.
#[derive(Clone, Copy, Debug, PartialEq, Eq, Hash, Structural)]
pub struct PinCapabilities {
    /// Whether the pin can emulate analog output with pulse-width modulation.
    pub pwm: bool,
    /// The external interrupt that the pin can trigger, as the board-support layer answers:
    /// negative when there is none.
    pub interrupt: i32,
}

/// The layout of a board: its digital pins, numbered from zero, the digital pins behind its
/// analog inputs and outputs, and the serial ports it has.
pub struct Board {
    pub digital_pins: Vec<PinCapabilities>,
    pub analog_input_pins: Vec<u8>,
    pub analog_output_pins: Vec<u8>,
    pub serial_ports: Vec<SerialPort>,
}

/// A type of pin.
pub trait Pin {
    /// The digital number of the pin.
    spec fn pin_number(&self) -> u8;

    /// The digital number of this pin.
    fn number(&self) -> (r: u8)
        ensures
            r == self.pin_number(),
    ;
}

/// A digital pin, to read and write digital levels.
#[derive(Clone, Copy, Debug)]
pub struct DigitalPin {
    number: u8,
    capabilities: PinCapabilities,
}

impl DigitalPin {
    /// What the pin can do.
    pub closed spec fn caps(&self) -> PinCapabilities {
        self.capabilities
    }

    /// Whether this pin can emulate analog output with pulse-width modulation.
    pub fn has_pwm(&self) -> (r: bool)
        ensures
            r == self.caps().pwm,
    {
        self.capabilities.pwm
    }

    /// This pin as a software (pulse-width modulated) analog output, if it supports that.
    pub fn to_pwm(&self) -> (r: Option<AnalogOutputPin>)
        ensures
            r is Some <==> self.caps().pwm,
            r is Some ==> r->Some_0.pin_number() == self.pin_number() && r->Some_0.output_kind()
                == AnalogOutputKind::Software,
    {
        if self.has_pwm() {
            Some(AnalogOutputPin { number: self.number, kind: AnalogOutputKind::Software })
        } else {
            None
        }
    }
}

impl Pin for DigitalPin {
    closed spec fn pin_number(&self) -> u8 {
        self.number
    }

    fn number(&self) -> (r: u8) {
        self.number
    }
}

impl ToInterrupt for DigitalPin {
    closed spec fn interrupt_number(&self) -> Option<u8> {
        if self.capabilities.interrupt >= 0 {
            Some(self.capabilities.interrupt as u8)
        } else {
            None
        }
    }

    fn to_interrupt(self) -> (r: Option<u8>) {
        byte_from_ffi(self.capabilities.interrupt)
    }
}

/// An analog input pin, read through an analog-to-digital converter.
#[derive(Clone, Copy, Debug)]
pub struct AnalogInputPin {
    number: u8,
}

impl Pin for AnalogInputPin {
    closed spec fn pin_number(&self) -> u8 {
        self.number
    }

    fn number(&self) -> (r: u8) {
        self.number
    }
}

/// How an analog output pin produces its value.
#[derive(Clone, Copy, Debug, PartialEq, Eq, Hash, Structural)]
pub enum AnalogOutputKind {
    /// Emulated with pulse-width modulation.
    Software,
    /// A digital-to-analog converter.
    Hardware,
}

/// An analog output pin, either a converter or a pulse-width modulated digital pin.
#[derive(Clone, Copy, Debug)]
pub struct AnalogOutputPin {
    number: u8,
    kind: AnalogOutputKind,
}

impl AnalogOutputPin {
    /// How this pin produces its value.
    pub closed spec fn output_kind(&self) -> AnalogOutputKind {
        self.kind
    }

    /// How this pin produces its value.
    pub fn kind(&self) -> (r: AnalogOutputKind)
        ensures
            r == self.output_kind(),
    {
        self.kind
    }
}

impl Pin for AnalogOutputPin {
    closed spec fn pin_number(&self) -> u8 {
        self.number
    }

    fn number(&self) -> (r: u8) {
        self.number
    }
}

/// The digital pin numbered `number`, if the board has it.
///
/// It must not be called from inside an interrupt service routine: the board-support layer
/// gives no guarantee of reentrancy.
pub fn digital_pin<C: InterruptControl>(cpu: &C, board: &Board, number: u8) -> (r: Option<
    DigitalPin,
>)
    requires
        !cpu.in_handler(),
    ensures
        r is Some <==> number < board.digital_pins@.len(),
        r is Some ==> r->Some_0.pin_number() == number && r->Some_0.caps()
            == board.digital_pins@[number as int],
{
    if number as usize >= board.digital_pins.len() {
        return None;
    }
    Some(DigitalPin { number, capabilities: board.digital_pins[number as usize] })
}

/// The analog input numbered `number` (`An` on the board), if the board has it.
///
/// It must not be called from inside an interrupt service routine.
pub fn analog_input_pin<C: InterruptControl>(cpu: &C, board: &Board, number: u8) -> (r: Option<
    AnalogInputPin,
>)
    requires
        !cpu.in_handler(),
    ensures
        r is Some <==> number < board.analog_input_pins@.len(),
        r is Some ==> r->Some_0.pin_number() == board.analog_input_pins@[number as int],
{
    if number as usize >= board.analog_input_pins.len() {
        return None;
    }
    Some(AnalogInputPin { number: board.analog_input_pins[number as usize] })
}

/// The hardware analog output numbered `number` (`DACn` on the board), if the board has it.
///
/// It must not be called from inside an interrupt service routine.
pub fn analog_output_pin<C: InterruptControl>(cpu: &C, board: &Board, number: u8) -> (r: Option<
    AnalogOutputPin,
>)
    requires
        !cpu.in_handler(),
    ensures
        r is Some <==> number < board.analog_output_pins@.len(),
        r is Some ==> r->Some_0.pin_number() == board.analog_output_pins@[number as int]
            && r->Some_0.output_kind() == AnalogOutputKind::Hardware,
{
    if number as usize >= board.analog_output_pins.len() {
        return None;
    }
    Some(
        AnalogOutputPin {
            number: board.analog_output_pins[number as usize],
            kind: AnalogOutputKind::Hardware,
        },
    )
}

} // verus!
