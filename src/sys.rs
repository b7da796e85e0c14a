//! The interrupt-control primitive of each supported architecture.
//!
//! A processor is modelled by the state that the core reads and writes: the register that
//! holds the global interrupt-enable condition, and whatever tells whether a handler is
//! running. Each architecture states how disabling, restoring and entering or leaving a
//! handler change that state.

use vstd::prelude::*;

verus! {

/// The interrupt-control capability of one architecture.
pub trait InterruptControl: Sized {
    /// The snapshot of the interrupt-enable register, sized as the hardware register.
    type Register: Copy;

    /// Whether interrupts may currently fire.
    spec fn enabled(&self) -> bool;

    /// Whether execution is currently inside an interrupt handler.
    spec fn in_handler(&self) -> bool;

    /// The current value of the interrupt-enable register.
    spec fn register(&self) -> Self::Register;

    /// The state after interrupts were disabled.
    spec fn masked(&self) -> Self;

    /// The state after the register was written back with `r`.
    spec fn with_register(&self, r: Self::Register) -> Self;

    /// The state after the hardware took the interrupt of line `line`.
    spec fn vectored(&self, line: u8) -> Self;

    /// The state after the hardware returned from a handler.
    spec fn returned(&self) -> Self;

    /// The state after the entry hook of the routine wrapper ran.
    spec fn entered(&self) -> Self;

    /// The state after the exit hook of the routine wrapper ran.
    spec fn exited(&self) -> Self;

    /// Disabling interrupts leaves them disabled, and writing back the register value read
    /// before gives back the state exactly.
    proof fn lemma_mask_restore(s: Self)
        ensures
            !s.masked().enabled(),
            s.masked().in_handler() == s.in_handler(),
            s.masked().with_register(s.register()) == s,
    ;

    /// Writing the interrupt-enable register does not change whether a handler runs.
    proof fn lemma_restore_keeps_context(s: Self, r: Self::Register)
        ensures
            s.with_register(r).in_handler() == s.in_handler(),
    ;

    /// From main flow with interrupts enabled, a handler run through the routine wrapper is
    /// seen as a handler while its body runs, and returns to the very state it started from.
    proof fn lemma_handler_extent(s: Self, line: u8)
        requires
            !s.in_handler(),
            s.enabled(),
        ensures
            s.vectored(line).entered().in_handler(),
            s.vectored(line).entered().exited().returned() == s,
    ;

    /// Whether interrupts may currently fire.
    fn interrupts_enabled(&self) -> (r: bool)
        ensures
            r == self.enabled(),
    ;

    /// Disables interrupts and returns the register value from before, in one step.
    fn disable_interrupts(&mut self) -> (prev: Self::Register)
        ensures
            prev == old(self).register(),
            *final(self) == old(self).masked(),
    ;

    /// Writes a register value taken by `disable_interrupts` back verbatim.
    fn restore_interrupts(&mut self, prev: Self::Register)
        ensures
            *final(self) == old(self).with_register(prev),
    ;

    /// Whether execution is currently inside an interrupt handler.
    fn inside_isr(&self) -> (r: bool)
        ensures
            r == self.in_handler(),
    ;

    /// The entry hook that the routine wrapper runs before the routine's body.
    fn enter_isr(&mut self)
        ensures
            *final(self) == old(self).entered(),
    ;

    /// The exit hook that the routine wrapper runs after the routine's body.
    fn exit_isr(&mut self)
        ensures
            *final(self) == old(self).exited(),
    ;

    /// What the hardware does when it takes the interrupt of line `line`.
    fn take_interrupt(&mut self, line: u8)
        ensures
            *final(self) == old(self).vectored(line),
    ;

    /// What the hardware does when a handler returns.
    fn return_from_interrupt(&mut self)
        ensures
            *final(self) == old(self).returned(),
    ;
}

/// The global interrupt-enable bit of the AVR status register.
pub const SREG_I: u8 = 0x80;

/// An AVR-class processor.
///
/// The status register `sreg` holds the global interrupt-enable bit. The hardware offers no
/// way to tell whether a handler runs, so `in_isr` is a flag that the routine wrapper sets
/// and clears. The flag does not work for nested interrupts.
#[derive(Clone, Copy, Debug, PartialEq, Eq)]
pub struct Avr {
    pub sreg: u8,
    pub in_isr: bool,
}

impl Avr {
    /// A processor in main flow with the given status register.
    pub fn new(sreg: u8) -> (r: Avr)
        ensures
            r.sreg == sreg,
            !r.in_isr,
    {
        Avr { sreg, in_isr: false }
    }
}

impl InterruptControl for Avr {
    type Register = u8;

    open spec fn enabled(&self) -> bool {
        self.sreg & SREG_I != 0
    }

    open spec fn in_handler(&self) -> bool {
        self.in_isr
    }

    open spec fn register(&self) -> u8 {
        self.sreg
    }

    open spec fn masked(&self) -> Avr {
        Avr { sreg: self.sreg & !SREG_I, ..*self }
    }

    open spec fn with_register(&self, r: u8) -> Avr {
        Avr { sreg: r, ..*self }
    }

    open spec fn vectored(&self, line: u8) -> Avr {
        Avr { sreg: self.sreg & !SREG_I, ..*self }
    }

    open spec fn returned(&self) -> Avr {
        Avr { sreg: self.sreg | SREG_I, ..*self }
    }

    open spec fn entered(&self) -> Avr {
        Avr { in_isr: true, ..*self }
    }

    open spec fn exited(&self) -> Avr {
        Avr { in_isr: false, ..*self }
    }

    proof fn lemma_mask_restore(s: Avr) {
        let x = s.sreg;
        assert(x & !0x80u8 & 0x80u8 == 0) by (bit_vector);
    }

    proof fn lemma_restore_keeps_context(s: Avr, r: u8) {
    }

    proof fn lemma_handler_extent(s: Avr, line: u8) {
        let x = s.sreg;
        assert(x & 0x80u8 != 0 ==> (x & !0x80u8) | 0x80u8 == x) by (bit_vector);
    }

    fn interrupts_enabled(&self) -> (r: bool) {
        self.sreg & SREG_I != 0
    }

    fn disable_interrupts(&mut self) -> (prev: u8) {
        let prev = self.sreg;
        self.sreg = prev & !SREG_I;
        prev
    }

    fn restore_interrupts(&mut self, prev: u8) {
        self.sreg = prev;
    }

    fn inside_isr(&self) -> (r: bool) {
        self.in_isr
    }

    fn enter_isr(&mut self) {
        self.in_isr = true;
    }

    fn exit_isr(&mut self) {
        self.in_isr = false;
    }

    fn take_interrupt(&mut self, line: u8) {
        self.sreg = self.sreg & !SREG_I;
    }

    fn return_from_interrupt(&mut self) {
        self.sreg = self.sreg | SREG_I;
    }
}

/// The bit of PRIMASK that masks interrupts when set.
pub const PRIMASK_PM: u32 = 1;

/// The exception number of external interrupt line 0.
pub const FIRST_IRQ_EXCEPTION: u32 = 16;

/// An ARM Cortex-M processor.
///
/// `primask` masks interrupts while its low bit is set; disabling sets it to exactly 1, as
/// `cpsid i` does. `ipsr` holds the number of the
/// exception being handled and is zero in thread mode, so whether a handler runs is read
/// from the hardware; the routine wrapper's hooks have nothing to do here.
#[derive(Clone, Copy, Debug, PartialEq, Eq)]
pub struct CortexM {
    pub primask: u32,
    pub ipsr: u32,
}

impl CortexM {
    /// A processor in thread mode with the given PRIMASK.
    pub fn new(primask: u32) -> (r: CortexM)
        ensures
            r.primask == primask,
            r.ipsr == 0,
    {
        CortexM { primask, ipsr: 0 }
    }
}

impl InterruptControl for CortexM {
    type Register = u32;

    open spec fn enabled(&self) -> bool {
        self.primask & PRIMASK_PM == 0
    }

    open spec fn in_handler(&self) -> bool {
        self.ipsr > 0
    }

    open spec fn register(&self) -> u32 {
        self.primask
    }

    open spec fn masked(&self) -> CortexM {
        CortexM { primask: PRIMASK_PM, ..*self }
    }

    open spec fn with_register(&self, r: u32) -> CortexM {
        CortexM { primask: r, ..*self }
    }

    open spec fn vectored(&self, line: u8) -> CortexM {
        CortexM { ipsr: (FIRST_IRQ_EXCEPTION + line as u32) as u32, ..*self }
    }

    open spec fn returned(&self) -> CortexM {
        CortexM { ipsr: 0, ..*self }
    }

    open spec fn entered(&self) -> CortexM {
        *self
    }

    open spec fn exited(&self) -> CortexM {
        *self
    }

    proof fn lemma_mask_restore(s: CortexM) {
        assert(1u32 & 1u32 != 0) by (bit_vector);
    }

    proof fn lemma_restore_keeps_context(s: CortexM, r: u32) {
    }

    proof fn lemma_handler_extent(s: CortexM, line: u8) {
    }

    fn interrupts_enabled(&self) -> (r: bool) {
        self.primask & PRIMASK_PM == 0
    }

    fn disable_interrupts(&mut self) -> (prev: u32) {
        let prev = self.primask;
        self.primask = PRIMASK_PM;
        prev
    }

    fn restore_interrupts(&mut self, prev: u32) {
        self.primask = prev;
    }

    fn inside_isr(&self) -> (r: bool) {
        self.ipsr > 0
    }

    fn enter_isr(&mut self) {
    }

    fn exit_isr(&mut self) {
    }

    fn take_interrupt(&mut self, line: u8) {
        self.ipsr = FIRST_IRQ_EXCEPTION + line as u32;
    }

    fn return_from_interrupt(&mut self) {
        self.ipsr = 0;
    }
}

} // verus!
