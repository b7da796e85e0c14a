//! The values that the board-support layer takes for pin levels, pin modes, analog
//! references, interrupt modes and serial framings.

use vstd::prelude::*;

verus! {

/// A digital level as the board-support layer encodes it.
#[derive(Clone, Copy, Debug, PartialEq, Eq, Hash, Structural)]
pub enum RawPinLevel {
    Low,
    High,
}

/// A pin mode as the board-support layer encodes it.
#[derive(Clone, Copy, Debug, PartialEq, Eq, Hash, Structural)]
pub enum RawPinMode {
    Input,
    InputPullup,
    Output,
    InputPulldown,
}

/// An analog reference as the board-support layer encodes it.
#[derive(Clone, Copy, Debug, PartialEq, Eq, Hash, Structural)]
pub enum RawAnalogReference {
    Default,
    External,
    Internal,
    Internal1v1,
    Internal2v56,
    Internal2v56ExtCap,
    Internal1v0,
    Internal1v65,
    Internal2v23,
}

/// An interrupt trigger as the board-support layer encodes it.
#[derive(Clone, Copy, Debug, PartialEq, Eq, Hash, Structural)]
pub enum RawInterruptMode {
    Low,
    Change,
    Rising,
    Falling,
    High,
}

/// A serial framing as the board-support layer encodes it: data bits, parity (none, even,
/// odd) and stop bits.
#[derive(Clone, Copy, Debug, PartialEq, Eq, Hash, Structural)]
pub enum RawSerialConfig {
    Serial5N1,
    Serial6N1,
    Serial7N1,
    Serial8N1,
    Serial5N2,
    Serial6N2,
    Serial7N2,
    Serial8N2,
    Serial5E1,
    Serial6E1,
    Serial7E1,
    Serial8E1,
    Serial5E2,
    Serial6E2,
    Serial7E2,
    Serial8E2,
    Serial5O1,
    Serial6O1,
    Serial7O1,
    Serial8O1,
    Serial5O2,
    Serial6O2,
    Serial7O2,
    Serial8O2,
}

/// The byte that an integer answer of the board-support layer stands for: a negative answer
/// means that there is none (no byte to read, no interrupt for a pin).
pub fn byte_from_ffi(value: i32) -> (r: Option<u8>)
    ensures
        r == (if value >= 0 {
            Some(value as u8)
        } else {
            None
        }),
{
    if value >= 0 {
        Some(value as u8)
    } else {
        None
    }
}

} // verus!
