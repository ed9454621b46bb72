//! Handle for foreign type-descriptor objects.

use vstd::prelude::*;

use crate::heap::{obj_live, obj_refs, release_model};
use crate::interpreter::{drop_with_context, DeferredQueue, DeferredRelease, PikeContext};
use crate::svalue::PIKE_T_TYPE;
use crate::traits::{CloneWithCtx, Refcounted};

verus! {

/// A handle owning one refcount increment on a foreign type-descriptor object.
#[derive(Debug, PartialEq, Eq)]
pub struct PikeTypeRef {
    /// Heap id of the object: the model's stand-in for the raw pointer.
    pub id: usize,
}

impl CloneWithCtx for PikeTypeRef {
    open spec fn rc_target(&self) -> usize {
        self.id
    }

    open spec fn same_ref(&self, other: &Self) -> bool {
        self.id == other.id
    }

    fn clone_with_ctx(&self, ctx: &mut PikeContext) -> (r: Self) {
        ctx.heap_add_ref(self.id);
        PikeTypeRef { id: self.id }
    }
}

impl Refcounted for PikeTypeRef {
    open spec fn id_spec(&self) -> usize {
        self.id
    }

    fn from_ptr(id: usize) -> (r: Self) {
        PikeTypeRef { id }
    }

    fn from_ptr_add_ref(id: usize, ctx: &mut PikeContext) -> (r: Self) {
        ctx.heap_add_ref(id);
        PikeTypeRef { id }
    }

    fn as_mut_ptr(&self) -> (id: usize) {
        self.id
    }
}

impl PikeTypeRef {
    /// Takes a fresh increment on object `id` and wraps it.
    pub fn new(id: usize, ctx: &mut PikeContext) -> (r: Self)
        requires
            obj_live(old(ctx)@.heap, id),
            obj_refs(old(ctx)@.heap, id) < u64::MAX,
        ensures
            final(ctx)@ == old(ctx)@.with_heap(crate::heap::add_ref_model(old(ctx)@.heap, id)),
            r.id == id,
    {
        Self::from_ptr_add_ref(id, ctx)
    }

    /// Adopts an increment the caller already owns: no count change.
    pub fn new_without_ref(id: usize) -> (r: Self)
        ensures
            r.id == id,
    {
        PikeTypeRef { id }
    }

    /// Duplicates the handle under a context token, taking one more
    /// reference.  The regular `Clone` trait deliberately does not exist:
    /// cloning needs the lock.
    pub fn clone(&self, ctx: &mut PikeContext) -> (r: Self)
        requires
            obj_live(old(ctx)@.heap, self.id),
            obj_refs(old(ctx)@.heap, self.id) < u64::MAX,
        ensures
            final(ctx)@ == old(ctx)@.with_heap(
                crate::heap::add_ref_model(old(ctx)@.heap, self.id),
            ),
            r.id == self.id,
    {
        self.clone_with_ctx(ctx)
    }

    /// Relinquishes the handle, with or without the lock: its increment
    /// transfers to a release record on the deferred queue, to be executed
    /// once a context token is at hand.  Models the handle's drop, which
    /// must never touch the count itself.
    pub fn defer_drop(self, queue: &mut DeferredQueue)
        ensures
            final(queue)@ =~= old(queue)@.push(
                DeferredRelease { id: self.id, kind: PIKE_T_TYPE },
            ),
    {
        drop_with_context(queue, DeferredRelease { id: self.id, kind: PIKE_T_TYPE });
    }

    /// Releases the handle's increment immediately, under the lock.
    pub fn drop_with_ctx(self, ctx: &mut PikeContext)
        requires
            obj_live(old(ctx)@.heap, self.id),
            obj_refs(old(ctx)@.heap, self.id) >= 1,
        ensures
            final(ctx)@ == old(ctx)@.with_heap(release_model(old(ctx)@.heap, self.id)),
    {
        ctx.heap_release(self.id);
    }
}

} // verus!
