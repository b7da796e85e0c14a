//! Serial ports and their framing.

use vstd::prelude::*;
use crate::io::{Error, Result};
use crate::pins::Board;
use crate::raw::RawSerialConfig;
use crate::sys::InterruptControl;

verus! {

/// The number of data bits in a character.
#[derive(Clone, Copy, Debug, PartialEq, Eq, Hash, Structural)]
pub enum CharBits {
    /// Five data bits.
    Five,
    /// Six data bits.
    Six,
    /// Seven data bits.
    Seven,
    /// Eight data bits.
    Eight,
}

/// The parity bit of a character.
#[derive(Clone, Copy, Debug, PartialEq, Eq, Hash, Structural)]
pub enum Parity {
    /// No parity bit.
    Disabled,
    /// The parity bit makes the number of ones even.
    Even,
    /// The parity bit makes the number of ones odd.
    Odd,
}

/// The number of stop bits after a character.
#[derive(Clone, Copy, Debug, PartialEq, Eq, Hash, Structural)]
pub enum StopBits {
    /// One stop bit.
    One,
    /// Two stop bits.
    Two,
}

/// The speed and framing of a serial port.
#[derive(Clone, Copy, Debug, PartialEq, Eq, Hash, Structural)]
pub struct SerialMode {
    pub speed: u32,
    pub char_size: CharBits,
    pub parity: Parity,
    pub stop_bits: StopBits,
}

/// The framing that a board-support serial configuration stands for.
pub open spec fn framing(c: RawSerialConfig) -> (CharBits, Parity, StopBits) {
    match c {
        RawSerialConfig::Serial5N1 => (CharBits::Five, Parity::Disabled, StopBits::One),
        RawSerialConfig::Serial6N1 => (CharBits::Six, Parity::Disabled, StopBits::One),
        RawSerialConfig::Serial7N1 => (CharBits::Seven, Parity::Disabled, StopBits::One),
        RawSerialConfig::Serial8N1 => (CharBits::Eight, Parity::Disabled, StopBits::One),
        RawSerialConfig::Serial5N2 => (CharBits::Five, Parity::Disabled, StopBits::Two),
        RawSerialConfig::Serial6N2 => (CharBits::Six, Parity::Disabled, StopBits::Two),
        RawSerialConfig::Serial7N2 => (CharBits::Seven, Parity::Disabled, StopBits::Two),
        RawSerialConfig::Serial8N2 => (CharBits::Eight, Parity::Disabled, StopBits::Two),
        RawSerialConfig::Serial5E1 => (CharBits::Five, Parity::Even, StopBits::One),
        RawSerialConfig::Serial6E1 => (CharBits::Six, Parity::Even, StopBits::One),
        RawSerialConfig::Serial7E1 => (CharBits::Seven, Parity::Even, StopBits::One),
        RawSerialConfig::Serial8E1 => (CharBits::Eight, Parity::Even, StopBits::One),
        RawSerialConfig::Serial5E2 => (CharBits::Five, Parity::Even, StopBits::Two),
        RawSerialConfig::Serial6E2 => (CharBits::Six, Parity::Even, StopBits::Two),
        RawSerialConfig::Serial7E2 => (CharBits::Seven, Parity::Even, StopBits::Two),
        RawSerialConfig::Serial8E2 => (CharBits::Eight, Parity::Even, StopBits::Two),
        RawSerialConfig::Serial5O1 => (CharBits::Five, Parity::Odd, StopBits::One),
        RawSerialConfig::Serial6O1 => (CharBits::Six, Parity::Odd, StopBits::One),
        RawSerialConfig::Serial7O1 => (CharBits::Seven, Parity::Odd, StopBits::One),
        RawSerialConfig::Serial8O1 => (CharBits::Eight, Parity::Odd, StopBits::One),
        RawSerialConfig::Serial5O2 => (CharBits::Five, Parity::Odd, StopBits::Two),
        RawSerialConfig::Serial6O2 => (CharBits::Six, Parity::Odd, StopBits::Two),
        RawSerialConfig::Serial7O2 => (CharBits::Seven, Parity::Odd, StopBits::Two),
        RawSerialConfig::Serial8O2 => (CharBits::Eight, Parity::Odd, StopBits::Two),
    }
}

impl SerialMode {
    /// 9600 baud, eight data bits, no parity, one stop bit.
    pub fn new() -> (r: SerialMode)
        ensures
            r == (SerialMode {
                speed: 9600,
                char_size: CharBits::Eight,
                parity: Parity::Disabled,
                stop_bits: StopBits::One,
            }),
    {
        SerialMode {
            speed: 9600,
            char_size: CharBits::Eight,
            parity: Parity::Disabled,
            stop_bits: StopBits::One,
        }
    }

    /// This mode with the speed set to `speed` baud.
    pub fn speed(self, speed: u32) -> (r: SerialMode)
        ensures
            r == (SerialMode { speed, ..self }),
    {
        SerialMode { speed, ..self }
    }

    /// This mode with `char_size` data bits.
    pub fn char_size(self, char_size: CharBits) -> (r: SerialMode)
        ensures
            r == (SerialMode { char_size, ..self }),
    {
        SerialMode { char_size, ..self }
    }

    /// This mode with parity `parity`.
    pub fn parity(self, parity: Parity) -> (r: SerialMode)
        ensures
            r == (SerialMode { parity, ..self }),
    {
        SerialMode { parity, ..self }
    }

    /// This mode with `stop_bits` stop bits.
    pub fn stop_bits(self, stop_bits: StopBits) -> (r: SerialMode)
        ensures
            r == (SerialMode { stop_bits, ..self }),
    {
        SerialMode { stop_bits, ..self }
    }

    /// The speed, and the board-support configuration with this mode's framing.
    pub fn to_ffi(self) -> (r: (u32, RawSerialConfig))
        ensures
            r.0 == self.speed,
            framing(r.1) == (self.char_size, self.parity, self.stop_bits),
    {
        let mode = match (self.char_size, self.parity, self.stop_bits) {
            (CharBits::Five, Parity::Disabled, StopBits::One) => RawSerialConfig::Serial5N1,
            (CharBits::Six, Parity::Disabled, StopBits::One) => RawSerialConfig::Serial6N1,
            (CharBits::Seven, Parity::Disabled, StopBits::One) => RawSerialConfig::Serial7N1,
            (CharBits::Eight, Parity::Disabled, StopBits::One) => RawSerialConfig::Serial8N1,
            (CharBits::Five, Parity::Disabled, StopBits::Two) => RawSerialConfig::Serial5N2,
            (CharBits::Six, Parity::Disabled, StopBits::Two) => RawSerialConfig::Serial6N2,
            (CharBits::Seven, Parity::Disabled, StopBits::Two) => RawSerialConfig::Serial7N2,
            (CharBits::Eight, Parity::Disabled, StopBits::Two) => RawSerialConfig::Serial8N2,
            (CharBits::Five, Parity::Even, StopBits::One) => RawSerialConfig::Serial5E1,
            (CharBits::Six, Parity::Even, StopBits::One) => RawSerialConfig::Serial6E1,
            (CharBits::Seven, Parity::Even, StopBits::One) => RawSerialConfig::Serial7E1,
            (CharBits::Eight, Parity::Even, StopBits::One) => RawSerialConfig::Serial8E1,
            (CharBits::Five, Parity::Even, StopBits::Two) => RawSerialConfig::Serial5E2,
            (CharBits::Six, Parity::Even, StopBits::Two) => RawSerialConfig::Serial6E2,
            (CharBits::Seven, Parity::Even, StopBits::Two) => RawSerialConfig::Serial7E2,
            (CharBits::Eight, Parity::Even, StopBits::Two) => RawSerialConfig::Serial8E2,
            (CharBits::Five, Parity::Odd, StopBits::One) => RawSerialConfig::Serial5O1,
            (CharBits::Six, Parity::Odd, StopBits::One) => RawSerialConfig::Serial6O1,
            (CharBits::Seven, Parity::Odd, StopBits::One) => RawSerialConfig::Serial7O1,
            (CharBits::Eight, Parity::Odd, StopBits::One) => RawSerialConfig::Serial8O1,
            (CharBits::Five, Parity::Odd, StopBits::Two) => RawSerialConfig::Serial5O2,
            (CharBits::Six, Parity::Odd, StopBits::Two) => RawSerialConfig::Serial6O2,
            (CharBits::Seven, Parity::Odd, StopBits::Two) => RawSerialConfig::Serial7O2,
            (CharBits::Eight, Parity::Odd, StopBits::Two) => RawSerialConfig::Serial8O2,
        };
        (self.speed, mode)
    }
}

impl Default for SerialMode {
    fn default() -> (r: SerialMode)
        ensures
            r == (SerialMode {
                speed: 9600,
                char_size: CharBits::Eight,
                parity: Parity::Disabled,
                stop_bits: StopBits::One,
            }),
    {
        SerialMode::new()
    }
}

/// What opening a port with a framing comes to, from the board-support layer's answer:
/// `accepted` is whether the port supports the framing.
pub fn begin_result(accepted: bool) -> (r: Result<()>)
    ensures
        r == (if accepted {
            Ok::<(), Error>(())
        } else {
            Err::<(), Error>(Error::UnsupportedSerialMode)
        }),
{
    if accepted {
        Ok(())
    } else {
        Err(Error::UnsupportedSerialMode)
    }
}

/// The serial ports that a board may have.
#[derive(Clone, Copy, Debug, PartialEq, Eq, Hash, Structural)]
pub enum SerialPort {
    /// The virtual serial port of a native USB connection.
    UsbVirtual,
    /// The port that the serial monitor of the development host listens on.
    Monitor,
    /// The bridge to the Linux processor of boards that have one.
    LinuxBridge,
    /// The first hardware serial port that is free for the application.
    Hardware,
    /// The hardware serial port on the board's exposed pins.
    HardwareOpen,
}

/// An open serial port.
#[derive(Clone, Copy, Debug)]
pub struct Serial {
    port: SerialPort,
}

impl Serial {
    /// The port this handle is open on.
    pub closed spec fn port_view(&self) -> SerialPort {
        self.port
    }

    fn new(port: SerialPort) -> (r: Serial)
        ensures
            r.port_view() == port,
    {
        Serial { port }
    }

    /// The port this handle is open on.
    pub fn port(&self) -> (r: SerialPort)
        ensures
            r == self.port_view(),
    {
        self.port
    }

    /// Opens serial port `port`, if the board has it.
    ///
    /// It must not be called from inside an interrupt service routine.
    pub fn open<C: InterruptControl>(cpu: &C, board: &Board, port: SerialPort) -> (r: Option<
        Serial,
    >)
        requires
            !cpu.in_handler(),
        ensures
            r is Some <==> board.serial_ports@.contains(port),
            r is Some ==> r->Some_0.port_view() == port,
    {
        let mut i: usize = 0;
        while i < board.serial_ports.len()
            invariant
                i <= board.serial_ports@.len(),
                forall|j: int| 0 <= j < i ==> board.serial_ports@[j] != port,
            decreases board.serial_ports@.len() - i,
        {
            if board.serial_ports[i] == port {
                return Some(Serial::new(port));
            }
            i = i + 1;
        }
        None
    }
}

} // verus!
