//! SAMD-specific extensions.

use vstd::prelude::*;
use crate::interrupts::InterruptMode;
use crate::pins::{AnalogReference, PinMode};
use crate::raw::{RawAnalogReference, RawInterruptMode, RawPinMode};

verus! {

/// Interrupt modes of SAMD boards.
#[derive(Clone, Copy, Debug, PartialEq, Eq, Hash, Structural)]
pub enum InterruptModeExt {
    /// Trigger while the pin is high.
    High,
}

impl From<InterruptModeExt> for InterruptMode {
    fn from(mode: InterruptModeExt) -> (r: InterruptMode) {
        InterruptMode::__Raw(RawInterruptMode::High)
    }
}

impl vstd::std_specs::convert::FromSpecImpl<InterruptModeExt> for InterruptMode {
    open spec fn obeys_from_spec() -> bool {
        true
    }

    open spec fn from_spec(mode: InterruptModeExt) -> InterruptMode {
        InterruptMode::__Raw(RawInterruptMode::High)
    }
}

/// Pin modes of SAMD boards.
#[derive(Clone, Copy, Debug, PartialEq, Eq, Hash, Structural)]
pub enum PinModeExt {
    /// Input mode with the internal pull-down resistor active.
    InputPulldown,
}

impl From<PinModeExt> for PinMode {
    fn from(mode: PinModeExt) -> (r: PinMode) {
        PinMode::__Raw(RawPinMode::InputPulldown)
    }
}

impl vstd::std_specs::convert::FromSpecImpl<PinModeExt> for PinMode {
    open spec fn obeys_from_spec() -> bool {
        true
    }

    open spec fn from_spec(mode: PinModeExt) -> PinMode {
        PinMode::__Raw(RawPinMode::InputPulldown)
    }
}

/// Analog references of SAMD boards.
#[derive(Clone, Copy, Debug, PartialEq, Eq, Hash, Structural)]
pub enum AnalogReferenceExt {
    /// 1.0V internal reference.
    Internal1v0,
    /// 1.65V internal reference.
    Internal1v65,
    /// 2.23V internal reference.
    Internal2v23,
}

/// The board-support encoding of a SAMD analog reference.
pub open spec fn raw_reference(reference: AnalogReferenceExt) -> RawAnalogReference {
    match reference {
        AnalogReferenceExt::Internal1v0 => RawAnalogReference::Internal1v0,
        AnalogReferenceExt::Internal1v65 => RawAnalogReference::Internal1v65,
        AnalogReferenceExt::Internal2v23 => RawAnalogReference::Internal2v23,
    }
}

impl From<AnalogReferenceExt> for AnalogReference {
    fn from(reference: AnalogReferenceExt) -> (r: AnalogReference) {
        let raw = match reference {
            AnalogReferenceExt::Internal1v0 => RawAnalogReference::Internal1v0,
            AnalogReferenceExt::Internal1v65 => RawAnalogReference::Internal1v65,
            AnalogReferenceExt::Internal2v23 => RawAnalogReference::Internal2v23,
        };
        AnalogReference::__Raw(raw)
    }
}

impl vstd::std_specs::convert::FromSpecImpl<AnalogReferenceExt> for AnalogReference {
    open spec fn obeys_from_spec() -> bool {
        true
    }

    open spec fn from_spec(reference: AnalogReferenceExt) -> AnalogReference {
        AnalogReference::__Raw(raw_reference(reference))
    }
}

} // verus!
