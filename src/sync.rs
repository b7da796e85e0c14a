//! A mutex for shared state, whose lock is a critical section.

use vstd::prelude::*;
use crate::critical_section::CriticalSection;
use crate::sys::InterruptControl;

verus! {

/// Exclusive access to a value, had by disabling all interrupts while it is held.
///
/// There is no lock state beyond the critical section: with interrupts off, the one flow of
/// execution that runs cannot be preempted, so locking always succeeds at once. There is no
/// poisoning, since a panic ends in an abort.
pub struct Mutex<T> {
    data: T,
}

impl<T> Mutex<T> {
    /// The value held.
    pub closed spec fn value(&self) -> T {
        self.data
    }

    /// A mutex holding `value`.
    pub fn new(value: T) -> (m: Mutex<T>)
        ensures
            m.value() == value,
    {
        Mutex { data: value }
    }

    /// Disables interrupts and gives access to the value until the guard is released.
    ///
    /// Code run while the guard is held should be short, and must not wait on anything that
    /// needs interrupts: they stay off until the guard is released.
    pub fn lock<'a, C: InterruptControl>(&'a mut self, cpu: &mut C) -> (g: MutexGuard<'a, T, C::Register>)
        ensures
            g.value() == old(self).value(),
            final(self).value() == *final(g.data),
            g.lock.prev() == old(cpu).register(),
            *final(cpu) == old(cpu).masked(),
    {
        let lock = CriticalSection::enter(cpu);
        MutexGuard { data: &mut self.data, lock }
    }

    /// The value held, taking the mutex apart.
    pub fn into_inner(self) -> (r: T)
        ensures
            r == self.value(),
    {
        self.data
    }
}

/// Access to the value of a locked mutex, for as long as interrupts stay disabled.
///
/// Release is explicit: `unlock` takes the processor state, so leaving a scope does not
/// release the guard by itself, and every exit path must call `unlock`.
///
/// The fields are public so that contracts can relate the borrowed value to the mutex; the
/// critical section that a guard holds can only come from `CriticalSection::enter`.
#[must_use]
pub struct MutexGuard<'a, T, R> {
    pub data: &'a mut T,
    pub lock: CriticalSection<R>,
}

impl<'a, T, R: Copy> MutexGuard<'a, T, R> {
    /// The value as the guard currently sees it.
    pub open spec fn value(&self) -> T {
        *self.data
    }

    /// Shared access to the value.
    pub fn get(&self) -> (r: &T)
        ensures
            *r == self.value(),
    {
        self.data
    }

    /// Exclusive access to the value.
    pub fn get_mut(&mut self) -> (r: &mut T)
        ensures
            *r == old(self).value(),
            final(self).value() == *final(r),
            *final(final(self).data) == *final(old(self).data),
            final(self).lock == old(self).lock,
    {
        self.data
    }

    /// Releases the guard: ends access to the value and restores the interrupt state from
    /// before `lock`.
    pub fn unlock<C: InterruptControl<Register = R>>(self, cpu: &mut C)
        ensures
            *final(self.data) == *old(self.data),
            *final(cpu) == old(cpu).with_register(self.lock.prev()),
    {
        self.lock.exit(cpu);
    }
}

/// A guard released right after it was taken gives back the interrupt state from before the
/// lock, and interrupts are off while it is held.
pub proof fn lemma_lock_release_restores<C: InterruptControl>(s: C)
    ensures
        !s.masked().enabled(),
        s.masked().with_register(s.register()) == s,
{
    C::lemma_mask_restore(s);
}

} // verus!
