//! AVR-specific extensions.

use vstd::prelude::*;
use crate::pins::AnalogReference;
use crate::raw::RawAnalogReference;

verus! {

/// Analog references of AVR boards; not every board supports each of them.
#[derive(Clone, Copy, Debug, PartialEq, Eq, Hash, Structural)]
pub enum AnalogReferenceExt {
    /// 1.1V internal reference.
    Internal1v1,
    /// 2.56V internal reference.
    Internal2v56,
    /// 2.56V internal reference with an external capacitor.
    Internal2v56ExtCap,
}

/// The board-support encoding of an AVR analog reference.
pub open spec fn raw_reference(reference: AnalogReferenceExt) -> RawAnalogReference {
    match reference {
        AnalogReferenceExt::Internal1v1 => RawAnalogReference::Internal1v1,
        AnalogReferenceExt::Internal2v56 => RawAnalogReference::Internal2v56,
        AnalogReferenceExt::Internal2v56ExtCap => RawAnalogReference::Internal2v56ExtCap,
    }
}

impl From<AnalogReferenceExt> for AnalogReference {
    fn from(reference: AnalogReferenceExt) -> (r: AnalogReference) {
        let raw = match reference {
            AnalogReferenceExt::Internal1v1 => RawAnalogReference::Internal1v1,
            AnalogReferenceExt::Internal2v56 => RawAnalogReference::Internal2v56,
            AnalogReferenceExt::Internal2v56ExtCap => RawAnalogReference::Internal2v56ExtCap,
        };
        AnalogReference::__Raw(raw)
    }
}

impl vstd::std_specs::convert::FromSpecImpl<AnalogReferenceExt> for AnalogReference {
    open spec fn obeys_from_spec() -> bool {
        true
    }

    open spec fn from_spec(reference: AnalogReferenceExt) -> AnalogReference {
        AnalogReference::__Raw(raw_reference(reference))
    }
}

} // verus!
