//! The interrupt-safe mutual-exclusion primitive.
//!
//! Acquiring gives exclusive access to the protected value; releasing gives
//! it back. The primitive itself does not disable interrupts: a caller whose
//! critical section shares data with an interrupt handler must run it with
//! interrupts off for its whole duration, or a handler spinning for a lock
//! the interrupted flow already holds hangs forever. In this model that
//! documented caller obligation surfaces as the precondition on `acquire`:
//! the lock must be free. The one escape is `force_unlock`, for the panic
//! path alone, when the kernel is already terminating and a wedged lock must
//! not keep the last diagnostics from being written.

use vstd::prelude::*;

use crate::framebuffer::FrameBufferWriter;

verus! {

/// A value guarded by an interrupt-safe lock.
pub struct IrqMutex<T> {
    locked: bool,
    value: T,
}

impl<T> IrqMutex<T> {
    /// Whether the lock is held.
    pub closed spec fn is_locked(&self) -> bool {
        self.locked
    }

    /// The protected value.
    pub closed spec fn inner(&self) -> T {
        self.value
    }

    /// Wraps a value; the lock starts free.
    pub fn new(value: T) -> (m: IrqMutex<T>)
        ensures
            !m.is_locked(),
            m.inner() == value,
    {
        IrqMutex { locked: false, value: value }
    }

    /// Takes the lock. The lock must be free: in a single flow of control,
    /// spinning on a lock that flow already holds is the permanent hang the
    /// masking discipline exists to prevent.
    pub fn acquire(&mut self)
        requires
            !old(self).is_locked(),
        ensures
            final(self).is_locked(),
            final(self).inner() == old(self).inner(),
    {
        self.locked = true;
    }

    /// Gives the lock back.
    pub fn release(&mut self)
        requires
            old(self).is_locked(),
        ensures
            !final(self).is_locked(),
            final(self).inner() == old(self).inner(),
    {
        self.locked = false;
    }

    /// Frees the lock whatever its state, leaving the value as it is. For
    /// the panic path only: correctness of waiting no longer matters, the
    /// final diagnostics must get out.
    pub fn force_unlock(&mut self)
        ensures
            !final(self).is_locked(),
            final(self).inner() == old(self).inner(),
    {
        self.locked = false;
    }

    /// Whether the lock is held right now.
    pub fn is_locked_now(&self) -> (r: bool)
        ensures
            r == self.is_locked(),
    {
        self.locked
    }

    /// Reads the protected value; the lock must be held.
    pub fn borrow(&self) -> (r: &T)
        requires
            self.is_locked(),
        ensures
            *r == self.inner(),
    {
        &self.value
    }

    /// Swaps the protected value for a new one; the lock must be held.
    pub fn replace(&mut self, value: T) -> (r: T)
        requires
            old(self).is_locked(),
        ensures
            final(self).is_locked(),
            final(self).inner() == value,
            r == old(self).inner(),
    {
        let mut taken = value;
        core::mem::swap(&mut self.value, &mut taken);
        taken
    }
}

impl IrqMutex<FrameBufferWriter> {
    /// The console geometry, readable without the lock: it is fixed at
    /// boot and never written under it.
    pub fn borrow_info(&self) -> (r: crate::framebuffer::FrameBufferInfo)
        ensures
            r == self.inner().info,
    {
        self.value.info
    }

    /// Draws one line on the locked console.
    pub fn write_line(&mut self, line: String)
        requires
            old(self).is_locked(),
        ensures
            final(self).is_locked(),
            final(self).inner().info == old(self).inner().info,
            final(self).inner().lines@ == old(self).inner().lines@.push(line),
    {
        self.value.write_line(line);
    }
}

} // verus!
