//! Interrupt service routines: binding them to interrupt lines, running them, and code that
//! runs with interrupts disabled.

use vstd::prelude::*;
use crate::critical_section::CriticalSection;
use crate::io::{Error, Result};
use crate::panic::{check_isr, Outcome};
use crate::raw::RawInterruptMode;
use crate::sys::InterruptControl;

verus! {

/// A type that can stand for an external interrupt.
pub trait ToInterrupt {
    /// The interrupt number that this value stands for, if any.
    spec fn interrupt_number(&self) -> Option<u8>;

    /// Converts this value into an external interrupt number if possible.
    fn to_interrupt(self) -> (r: Option<u8>)
        ensures
            r == self.interrupt_number(),
    ;
}

impl ToInterrupt for u8 {
    open spec fn interrupt_number(&self) -> Option<u8> {
        Some(*self)
    }

    fn to_interrupt(self) -> (r: Option<u8>) {
        Some(self)
    }
}

/// A digital pin state or state transition that can trigger an interrupt.
#[derive(Clone, Copy, Debug, PartialEq, Eq, Hash, Structural)]
pub enum InterruptMode {
    /// Trigger while the pin is low.
    Low,
    /// Trigger when the pin's level changes.
    Change,
    /// Trigger when the level goes from low to high.
    Rising,
    /// Trigger when the level goes from high to low.
    Falling,
    /// A mode that only some platforms offer.
    __Raw(RawInterruptMode),
}

/// The board-support encoding of an interrupt mode.
pub open spec fn raw_interrupt_mode(mode: InterruptMode) -> RawInterruptMode {
    match mode {
        InterruptMode::Low => RawInterruptMode::Low,
        InterruptMode::Change => RawInterruptMode::Change,
        InterruptMode::Rising => RawInterruptMode::Rising,
        InterruptMode::Falling => RawInterruptMode::Falling,
        InterruptMode::__Raw(raw) => raw,
    }
}

impl InterruptMode {
    /// The board-support encoding of this mode.
    pub fn to_ffi(self) -> (r: RawInterruptMode)
        ensures
            r == raw_interrupt_mode(self),
    {
        match self {
            InterruptMode::Low => RawInterruptMode::Low,
            InterruptMode::Change => RawInterruptMode::Change,
            InterruptMode::Rising => RawInterruptMode::Rising,
            InterruptMode::Falling => RawInterruptMode::Falling,
            InterruptMode::__Raw(raw) => raw,
        }
    }
}

/// What an interrupt line is bound to: a routine, and the trigger that runs it.
#[derive(Clone, Copy, Debug, PartialEq, Eq, Hash, Structural)]
pub struct Binding {
    pub routine: u32,
    pub mode: InterruptMode,
}

/// The table `t` after line `line` was bound to `binding`, when the table has that line.
pub open spec fn bound(t: Seq<Option<Binding>>, line: u8, binding: Binding) -> Seq<Option<Binding>> {
    if line < t.len() {
        t.update(line as int, Some(binding))
    } else {
        t
    }
}

/// The table `t` after line `line` was unbound, when the table has that line.
pub open spec fn unbound(t: Seq<Option<Binding>>, line: u8) -> Seq<Option<Binding>> {
    if line < t.len() {
        t.update(line as int, None)
    } else {
        t
    }
}

/// The routine that runs when line `line` of table `t` signals: none while interrupts are
/// disabled, or when the line is unbound.
pub open spec fn dispatched(t: Seq<Option<Binding>>, enabled: bool, line: u8) -> Option<u32> {
    if enabled && line < t.len() && t[line as int] is Some {
        Some(t[line as int]->Some_0.routine)
    } else {
        None
    }
}

/// The routines bound to the hardware interrupt lines, at most one per line.
pub struct InterruptTable {
    lines: Vec<Option<Binding>>,
}

impl InterruptTable {
    /// The binding of each line, indexed by interrupt number.
    pub closed spec fn view(&self) -> Seq<Option<Binding>> {
        self.lines@
    }

    /// A table of `num_lines` lines, none of them bound.
    pub fn new(num_lines: u8) -> (t: InterruptTable)
        ensures
            t@.len() == num_lines,
            forall|i: int| 0 <= i < num_lines ==> t@[i] is None,
    {
        let mut lines: Vec<Option<Binding>> = Vec::new();
        let mut i: u8 = 0;
        while i < num_lines
            invariant
                i <= num_lines,
                lines@.len() == i,
                forall|j: int| 0 <= j < i ==> lines@[j] is None,
            decreases num_lines - i,
        {
            lines.push(None);
            i = i + 1;
        }
        InterruptTable { lines }
    }

    /// The number of interrupt lines.
    pub fn num_lines(&self) -> (r: usize)
        ensures
            r == self@.len(),
    {
        self.lines.len()
    }

    /// What line `line` is bound to; `None` for an unbound line or one the table lacks.
    pub fn binding(&self, line: u8) -> (r: Option<Binding>)
        ensures
            r == (if line < self@.len() { self@[line as int] } else { None }),
    {
        if (line as usize) < self.lines.len() {
            self.lines[line as usize]
        } else {
            None
        }
    }

    /// Binds line `line`, replacing what it was bound to.
    fn bind(&mut self, line: u8, binding: Binding)
        requires
            line < old(self)@.len(),
        ensures
            final(self)@ == bound(old(self)@, line, binding),
    {
        self.lines.set(line as usize, Some(binding));
    }

    /// Unbinds line `line`, if the table has it.
    fn unbind(&mut self, line: u8)
        ensures
            final(self)@ == unbound(old(self)@, line),
    {
        if (line as usize) < self.lines.len() {
            self.lines.set(line as usize, None);
        }
    }
}

/// An interrupt service routine, named by the number under which the application keeps it.
#[derive(Clone, Copy, Debug, PartialEq, Eq, Hash, Structural)]
pub struct InterruptServiceRoutine {
    pub routine: u32,
}

impl InterruptServiceRoutine {
    /// The routine numbered `routine`.
    pub fn __new(routine: u32) -> (r: InterruptServiceRoutine)
        ensures
            r.routine == routine,
    {
        InterruptServiceRoutine { routine }
    }

    /// Attaches this routine to an external interrupt, triggered by `mode`.
    ///
    /// A routine already attached to that interrupt is replaced. The interrupt is refused
    /// with `InvalidInterruptPin` when it stands for no number, or for one the table lacks.
    /// A number that the table has may still not be wired to an interrupt-capable pin on the
    /// board: the hardware gives no way to find out.
    ///
    /// Called from inside an interrupt service routine, it is fatal, before the interrupt is
    /// looked at: the hardware's interrupt configuration gives no guarantee of reentrancy. The
    /// table is left alone, interrupts are disabled, and the outcome is an abort.
    pub fn attach<C: InterruptControl, I: ToInterrupt>(
        self,
        cpu: &mut C,
        table: &mut InterruptTable,
        interrupt: I,
        mode: InterruptMode,
    ) -> (r: Outcome<Result<IsrGuard>>)
        ensures
            old(cpu).in_handler() ==> {
                &&& r is Aborted
                &&& final(table)@ == old(table)@
                &&& *final(cpu) == old(cpu).masked()
            },
            !old(cpu).in_handler() ==> {
                &&& *final(cpu) == *old(cpu)
                &&& r is Returned
                &&& match interrupt.interrupt_number() {
                    Some(n) if n < old(table)@.len() => {
                        &&& r->Returned_0 is Ok
                        &&& r->Returned_0->Ok_0.line() == n
                        &&& final(table)@ == bound(
                            old(table)@,
                            n,
                            Binding { routine: self.routine, mode },
                        )
                    },
                    _ => {
                        &&& r->Returned_0 == Err::<IsrGuard, Error>(Error::InvalidInterruptPin)
                        &&& final(table)@ == old(table)@
                    },
                }
            },
    {
        if check_isr(cpu) {
            return Outcome::Aborted;
        }
        match interrupt.to_interrupt() {
            Some(n) => {
                if (n as usize) < table.num_lines() {
                    table.bind(n, Binding { routine: self.routine, mode });
                    Outcome::Returned(Ok(IsrGuard { interrupt: n }))
                } else {
                    Outcome::Returned(Err(Error::InvalidInterruptPin))
                }
            },
            None => Outcome::Returned(Err(Error::InvalidInterruptPin)),
        }
    }
}

/// The scope of an attached routine: releasing it with `detach` unbinds the line.
///
/// `detach` consumes the guard, so a line is unbound once per attach. Release is explicit:
/// `detach` takes the interrupt table, so leaving a scope does not unbind the line by
/// itself, and every exit path must call `detach`.
#[must_use]
#[derive(Debug, PartialEq, Eq, Structural)]
pub struct IsrGuard {
    interrupt: u8,
}

impl IsrGuard {
    /// The interrupt line that this guard unbinds.
    pub closed spec fn line(&self) -> u8 {
        self.interrupt
    }

    /// The interrupt line that this guard unbinds.
    pub fn interrupt(&self) -> (r: u8)
        ensures
            r == self.line(),
    {
        self.interrupt
    }

    /// Detaches the routine: its line is left unbound, whatever it was bound to.
    pub fn detach(self, table: &mut InterruptTable)
        ensures
            final(table)@ == unbound(old(table)@, self.line()),
    {
        table.unbind(self.interrupt);
    }
}

/// Calls `f` with interrupts disabled, then restores them to the state from before.
///
/// `f` is handed the processor state it runs in: the state from before, with interrupts
/// disabled. Code run inside should be short, and must not wait on anything that needs
/// interrupts.
pub fn without_interrupts<C: InterruptControl, T, F: FnOnce(&C) -> T>(cpu: &mut C, f: F) -> (r: T)
    requires
        f.requires((&old(cpu).masked(),)),
    ensures
        f.ensures((&old(cpu).masked(),), r),
        !old(cpu).masked().enabled(),
        *final(cpu) == *old(cpu),
{
    let cs = CriticalSection::enter(cpu);
    let r = f(&*cpu);
    cs.exit(cpu);
    proof {
        C::lemma_mask_restore(*old(cpu));
    }
    r
}

/// Whether the code runs inside an interrupt service routine.
pub fn inside_isr<C: InterruptControl>(cpu: &C) -> (r: bool)
    ensures
        r == cpu.in_handler(),
{
    cpu.inside_isr()
}

/// The entry hook that wraps each routine: marks the start of a handler. Where the hardware
/// tells whether a handler runs (Cortex-M), it changes nothing.
pub fn __enter_isr<C: InterruptControl>(cpu: &mut C)
    ensures
        *final(cpu) == old(cpu).entered(),
{
    cpu.enter_isr();
}

/// The exit hook that wraps each routine: marks the end of a handler. Where the hardware
/// tells whether a handler runs (Cortex-M), it changes nothing.
pub fn __exit_isr<C: InterruptControl>(cpu: &mut C)
    ensures
        *final(cpu) == old(cpu).exited(),
{
    cpu.exit_isr();
}

/// Simulates the hardware signalling interrupt line `line`: when interrupts are enabled and
/// the line is bound, the processor enters the handler, the routine wrapper's entry hook runs,
/// and the routine to run is returned. Otherwise nothing happens.
pub fn begin_interrupt<C: InterruptControl>(cpu: &mut C, table: &InterruptTable, line: u8) -> (r:
    Option<u32>)
    ensures
        r == dispatched(table@, old(cpu).enabled(), line),
        r is Some ==> *final(cpu) == old(cpu).vectored(line).entered(),
        r is None ==> *final(cpu) == *old(cpu),
{
    if !cpu.interrupts_enabled() {
        return None;
    }
    match table.binding(line) {
        Some(binding) => {
            cpu.take_interrupt(line);
            __enter_isr(cpu);
            Some(binding.routine)
        },
        None => None,
    }
}

/// Ends the handler that `begin_interrupt` entered: the routine wrapper's exit hook runs, and
/// the processor returns to the code it interrupted.
pub fn end_interrupt<C: InterruptControl>(cpu: &mut C)
    ensures
        *final(cpu) == old(cpu).exited().returned(),
{
    __exit_isr(cpu);
    cpu.return_from_interrupt();
}

/// A second attach to a line replaces the first: the table is as if only the second had been
/// made, and when the line signals, the second routine runs and the first does not.
pub proof fn lemma_attach_replaces(
    t: Seq<Option<Binding>>,
    line: u8,
    first: Binding,
    second: Binding,
)
    requires
        line < t.len(),
    ensures
        bound(bound(t, line, first), line, second) == bound(t, line, second),
        dispatched(bound(bound(t, line, first), line, second), true, line) == Some(second.routine),
        first.routine != second.routine ==> dispatched(
            bound(bound(t, line, first), line, second),
            true,
            line,
        ) != Some(first.routine),
{
    assert(bound(bound(t, line, first), line, second) =~= bound(t, line, second));
}

/// Detaching a line twice leaves the table as detaching it once does (`IsrGuard::detach`
/// leaves its table as `unbound` says, and consumes the guard, so one guard detaches once),
/// and an unbound line runs no routine.
pub proof fn lemma_detach_idempotent(t: Seq<Option<Binding>>, line: u8, enabled: bool)
    ensures
        unbound(unbound(t, line), line) == unbound(t, line),
        dispatched(unbound(t, line), enabled, line) is None,
{
    assert(unbound(unbound(t, line), line) =~= unbound(t, line));
}

/// Main flow is never taken for a handler, a critical section does not change that, and a
/// routine run through the wrapper is seen as a handler exactly while its body runs: the flag
/// goes from false to true and back to false, and the processor returns to where it was.
pub proof fn lemma_isr_context<C: InterruptControl>(s: C, line: u8)
    requires
        !s.in_handler(),
        s.enabled(),
    ensures
        !s.masked().in_handler(),
        s.vectored(line).entered().in_handler(),
        !s.vectored(line).entered().exited().returned().in_handler(),
        s.vectored(line).entered().exited().returned() == s,
{
    C::lemma_mask_restore(s);
    C::lemma_handler_extent(s, line);
}

} // verus!
