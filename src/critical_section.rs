//! Critical sections: spans of execution during which interrupts are disabled.

use vstd::prelude::*;
use core::sync::atomic::Ordering;
use crate::sys::InterruptControl;

verus! {

/// Relies on core::sync::atomic::fence: it orders memory accesses and returns nothing; it
/// panics when given `Relaxed`.
pub assume_specification[ core::sync::atomic::fence ](order: Ordering)
    requires
        order != Ordering::Relaxed,
;

/// A token that stands for "interrupts are disabled by me".
///
/// It owns the register value read when interrupts were disabled and gives it back exactly
/// once, in `exit`, which consumes it. Tokens must be released in the reverse order of their
/// creation, by the flow of execution that created them.
///
/// Release is explicit: the processor state is passed to `exit`, so leaving a scope does not
/// release the token by itself, and every exit path must call `exit`. `without_interrupts`
/// does this for a closure.
#[must_use]
pub struct CriticalSection<R> {
    prev_reg: R,
}

impl<R: Copy> CriticalSection<R> {
    /// The register value that `exit` writes back.
    pub closed spec fn prev(&self) -> R {
        self.prev_reg
    }

    /// Disables interrupts, then keeps memory accesses that follow from moving before it.
    pub fn enter<C: InterruptControl<Register = R>>(cpu: &mut C) -> (cs: CriticalSection<R>)
        ensures
            cs.prev() == old(cpu).register(),
            *final(cpu) == old(cpu).masked(),
    {
        let prev_reg = cpu.disable_interrupts();
        core::sync::atomic::fence(Ordering::Acquire);
        CriticalSection { prev_reg }
    }

    /// Completes memory accesses made inside, then restores the interrupt state from
    /// before `enter`.
    pub fn exit<C: InterruptControl<Register = R>>(self, cpu: &mut C)
        ensures
            *final(cpu) == old(cpu).with_register(self.prev()),
    {
        core::sync::atomic::fence(Ordering::Release);
        cpu.restore_interrupts(self.prev_reg);
    }
}

/// The state after `depth` critical sections were entered, one inside the other.
pub open spec fn nested_masked<C: InterruptControl>(s: C, depth: nat) -> C
    decreases depth,
{
    if depth == 0 {
        s
    } else {
        nested_masked(s.masked(), (depth - 1) as nat)
    }
}

/// The state after `depth` critical sections were entered, one inside the other, and left
/// again in reverse order: the outermost captures `s`'s register and restores it last.
pub open spec fn nested_round_trip<C: InterruptControl>(s: C, depth: nat) -> C
    decreases depth,
{
    if depth == 0 {
        s
    } else {
        nested_round_trip(s.masked(), (depth - 1) as nat).with_register(s.register())
    }
}

/// Whether interrupts are disabled at every point inside `depth` nested critical sections
/// entered from `s`: after each enter, and before each exit.
pub open spec fn disabled_throughout<C: InterruptControl>(s: C, depth: nat) -> bool
    decreases depth,
{
    if depth == 0 {
        true
    } else {
        &&& !s.masked().enabled()
        &&& !nested_round_trip(s.masked(), (depth - 1) as nat).enabled()
        &&& disabled_throughout(s.masked(), (depth - 1) as nat)
    }
}

/// Nested critical sections keep interrupts disabled for the whole outermost span, and
/// leave the processor in exactly the state it had before the outermost one was entered.
pub proof fn lemma_nested_critical_sections<C: InterruptControl>(s: C, depth: nat)
    ensures
        nested_round_trip(s, depth) == s,
        disabled_throughout(s, depth),
        depth > 0 ==> !nested_masked(s, depth).enabled(),
    decreases depth,
{
    if depth > 0 {
        C::lemma_mask_restore(s);
        lemma_nested_critical_sections(s.masked(), (depth - 1) as nat);
        assert(nested_masked(s.masked(), 0) == s.masked());
    }
}

} // verus!
