//! The panic policy: interrupts off, one chance for a hook to report, then abort.

use vstd::prelude::*;
use crate::sync::Mutex;
use crate::sys::InterruptControl;

verus! {

/// Where a panic originated.
pub struct Location {
    file: String,
    line: u32,
}

impl Location {
    /// The name of the source file.
    pub closed spec fn file_view(&self) -> Seq<char> {
        self.file@
    }

    /// The line number.
    pub closed spec fn line_view(&self) -> u32 {
        self.line
    }

    /// The location at line `line` of the source file `file`.
    pub fn new(file: String, line: u32) -> (r: Location)
        ensures
            r.file_view() == file@,
            r.line_view() == line,
    {
        Location { file, line }
    }

    /// The name of the source file from which the panic originated.
    pub fn file(&self) -> (r: &str)
        ensures
            r@ == self.file_view(),
    {
        self.file.as_str()
    }

    /// The line number from which the panic originated.
    pub fn line(&self) -> (r: u32)
        ensures
            r == self.line_view(),
    {
        self.line
    }
}

/// What a panic hook is told: the panic's message and where it originated.
pub struct PanicInfo {
    payload: String,
    location: Location,
}

impl PanicInfo {
    /// The panic's message.
    pub closed spec fn message(&self) -> Seq<char> {
        self.payload@
    }

    /// The panic's origin.
    pub closed spec fn origin(&self) -> &Location {
        &self.location
    }

    /// The information on a panic with message `payload` raised at `location`.
    pub fn new(payload: String, location: Location) -> (r: PanicInfo)
        ensures
            r.message() == payload@,
            r.origin().file_view() == location.file_view(),
            r.origin().line_view() == location.line_view(),
    {
        PanicInfo { payload, location }
    }

    /// The message associated with the panic.
    pub fn payload(&self) -> (r: &str)
        ensures
            r@ == self.message(),
    {
        self.payload.as_str()
    }

    /// The location from which the panic originated; always known here.
    pub fn location(&self) -> (r: Option<&Location>)
        ensures
            r == Some(self.origin()),
    {
        Some(&self.location)
    }
}

/// Installs `hook` as the panic hook, replacing any hook installed before.
///
/// The slot is only touched with interrupts disabled.
pub fn set_panic_hook<C: InterruptControl, H>(slot: &mut Mutex<Option<H>>, cpu: &mut C, hook: H)
    ensures
        final(slot).value() == Some(hook),
        *final(cpu) == *old(cpu),
{
    let mut handler = slot.lock(cpu);
    *handler.get_mut() = Some(hook);
    handler.unlock(cpu);
    proof {
        C::lemma_mask_restore(*old(cpu));
    }
}

/// Removes the panic hook, and returns it if one was installed.
///
/// The slot is only touched with interrupts disabled.
pub fn take_hook<C: InterruptControl, H>(slot: &mut Mutex<Option<H>>, cpu: &mut C) -> (r: Option<H>)
    ensures
        r == old(slot).value(),
        final(slot).value() is None,
        *final(cpu) == *old(cpu),
{
    let mut handler = slot.lock(cpu);
    let r = handler.get_mut().take();
    handler.unlock(cpu);
    proof {
        C::lemma_mask_restore(*old(cpu));
    }
    r
}

/// What an operation that may hit a fatal condition comes to: a value, or an abort.
#[derive(Clone, Copy, Debug, PartialEq, Eq, Structural)]
pub enum Outcome<T> {
    /// The operation returned this value.
    Returned(T),
    /// The operation hit a fatal condition: the panic policy ran and the process must halt
    /// now, for good.
    Aborted,
}

/// Starts handling a panic: disables interrupts for good, then, outside interrupt service
/// routines only, takes the panic hook out of its slot and returns it.
///
/// The caller runs the returned hook once, on the panic's `PanicInfo`, with the processor as
/// this function leaves it (interrupts disabled), and then aborts, in every case. Inside an
/// interrupt service routine no hook is returned and the slot is left alone.
pub fn begin_panic<C: InterruptControl, H>(cpu: &mut C, slot: &mut Mutex<Option<H>>) -> (r:
    Option<H>)
    ensures
        *final(cpu) == old(cpu).masked(),
        !final(cpu).enabled(),
        r == (if old(cpu).in_handler() {
            None
        } else {
            old(slot).value()
        }),
        final(slot).value() == (if old(cpu).in_handler() {
            old(slot).value()
        } else {
            None
        }),
{
    let _ = cpu.disable_interrupts();
    proof {
        C::lemma_mask_restore(*old(cpu));
    }
    if cpu.inside_isr() {
        None
    } else {
        take_hook(slot, cpu)
    }
}

/// The check made by operations that must not run inside an interrupt service routine.
///
/// Inside one, the call is fatal: the panic policy disables interrupts, skips the hook, and
/// `true` says that the process must abort. Outside, nothing happens and `false` is returned.
pub fn check_isr<C: InterruptControl>(cpu: &mut C) -> (r: bool)
    ensures
        r == old(cpu).in_handler(),
        r ==> *final(cpu) == old(cpu).masked() && !final(cpu).enabled(),
        !r ==> *final(cpu) == *old(cpu),
{
    if cpu.inside_isr() {
        let _ = cpu.disable_interrupts();
        proof {
            C::lemma_mask_restore(*old(cpu));
        }
        true
    } else {
        false
    }
}

} // verus!
