//! Extension storage attached to foreign object instances.
//!
//! An object's program may declare a storage area that holds a Rust value
//! backing the object's behaviour.  Its lifecycle is driven entirely by
//! runtime-invoked events: the slot is zeroed when the object is created,
//! populated by an explicit attach after construction, and reclaimed when
//! the "exit" event fires — an event the garbage collector may deliver more
//! than once, so reclamation must be idempotent.

use vstd::prelude::*;

verus! {

/// Event fired when an object has just been allocated.
pub const PROG_EVENT_INIT: u32 = 0;

/// Event fired when an object is being destroyed.
pub const PROG_EVENT_EXIT: u32 = 1;

/// The storage slot of one foreign object instance.
///
/// States: *uninitialised* (`value` empty, not released), *attached*
/// (`value` present), *released* (`value` empty after the exit event).
pub struct ObjectStorage<T> {
    /// The boxed extension value, if attached.
    pub value: Option<T>,
    /// Whether the exit event has already reclaimed the slot.
    pub released: bool,
}

impl<T> ObjectStorage<T> {
    /// The slot as the runtime leaves it right after allocation: zeroed.
    pub fn new_uninit() -> (r: Self)
        ensures
            r.value is None,
            !r.released,
    {
        ObjectStorage { value: None, released: false }
    }

    /// Attaches (or replaces) the extension value.  Not allowed once the
    /// exit event has reclaimed the slot.
    pub fn attach(&mut self, data: T)
        requires
            !old(self).released,
        ensures
            final(self).value matches Some(v) && v == data,
            !final(self).released,
    {
        self.value = Some(data);
    }

    /// What the "exit" event does to a slot: empties it, marks it
    /// released, and yields what was attached.
    pub open spec fn spec_exit(s: ObjectStorage<T>) -> (ObjectStorage<T>, Option<T>) {
        (ObjectStorage { value: None, released: true }, s.value)
    }

    /// Handles the "exit" event: reclaims the attached value exactly once.
    /// A second delivery finds the slot empty and does nothing, so a double
    /// notification never frees twice.
    pub fn on_exit(&mut self) -> (taken: Option<T>)
        ensures
            (*final(self), taken) == Self::spec_exit(*old(self)),
    {
        self.released = true;
        self.value.take()
    }

    /// Read access to the attached value.
    pub fn wrapped(&self) -> (r: &T)
        requires
            self.value is Some,
        ensures
            *r == self.value->0,
    {
        match &self.value {
            Some(v) => v,
            None => {
                proof {
                    assert(false);
                }
                unreached()
            },
        }
    }
}

impl<T: Default> ObjectStorage<T> {
    /// Handles the "init" event for programs whose storage starts from its
    /// default value rather than zeroed memory.
    pub fn on_init_default(&mut self)
        ensures
            final(self).value is Some,
            !final(self).released,
    {
        self.value = Some(T::default());
        self.released = false;
    }
}

/// Storage lifecycle idempotence: delivering the "exit" event twice to the
/// same slot frees the attached value only the first time — the second
/// delivery yields nothing and leaves the slot exactly as the first left
/// it.
pub proof fn lemma_exit_idempotent<T>(slot: ObjectStorage<T>)
    ensures
        ObjectStorage::<T>::spec_exit(ObjectStorage::<T>::spec_exit(slot).0).0
            == ObjectStorage::<T>::spec_exit(slot).0,
        ObjectStorage::<T>::spec_exit(ObjectStorage::<T>::spec_exit(slot).0).1 is None,
{
}

} // verus!
