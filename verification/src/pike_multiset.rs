//! Handle and first-class wrapper for foreign multiset objects.

use vstd::prelude::*;

use crate::heap::{obj_data, obj_kind, obj_live, obj_refs, release_model, ObjData, ObjModel};
use crate::interpreter::{drop_with_context, DeferredQueue, DeferredRelease, PikeContext};
use crate::svalue::{svalue, PIKE_T_MULTISET};
use crate::traits::{CloneWithCtx, Refcounted};

verus! {

/// A handle owning one refcount increment on a foreign multiset object.
#[derive(Debug, PartialEq, Eq)]
pub struct PikeMultisetRef {
    /// Heap id of the object: the model's stand-in for the raw pointer.
    pub id: usize,
}

impl CloneWithCtx for PikeMultisetRef {
    open spec fn rc_target(&self) -> usize {
        self.id
    }

    open spec fn same_ref(&self, other: &Self) -> bool {
        self.id == other.id
    }

    fn clone_with_ctx(&self, ctx: &mut PikeContext) -> (r: Self) {
        ctx.heap_add_ref(self.id);
        PikeMultisetRef { id: self.id }
    }
}

impl Refcounted for PikeMultisetRef {
    open spec fn id_spec(&self) -> usize {
        self.id
    }

    fn from_ptr(id: usize) -> (r: Self) {
        PikeMultisetRef { id }
    }

    fn from_ptr_add_ref(id: usize, ctx: &mut PikeContext) -> (r: Self) {
        ctx.heap_add_ref(id);
        PikeMultisetRef { id }
    }

    fn as_mut_ptr(&self) -> (id: usize) {
        self.id
    }
}

impl PikeMultisetRef {
    /// Takes a fresh increment on object `id` and wraps it.
    pub fn new(id: usize, ctx: &mut PikeContext) -> (r: Self)
        requires
            obj_live(old(ctx)@.heap, id),
            obj_refs(old(ctx)@.heap, id) < u64::MAX,
        ensures
            final(ctx)@ == old(ctx)@.with_heap(crate::heap::add_ref_model(old(ctx)@.heap, id)),
            r.id == id,
    {
        Self::from_ptr_add_ref(id, ctx)
    }

    /// Adopts an increment the caller already owns: no count change.
    pub fn new_without_ref(id: usize) -> (r: Self)
        ensures
            r.id == id,
    {
        PikeMultisetRef { id }
    }

    /// Duplicates the handle under a context token, taking one more
    /// reference.  The regular `Clone` trait deliberately does not exist:
    /// cloning needs the lock.
    pub fn clone(&self, ctx: &mut PikeContext) -> (r: Self)
        requires
            obj_live(old(ctx)@.heap, self.id),
            obj_refs(old(ctx)@.heap, self.id) < u64::MAX,
        ensures
            final(ctx)@ == old(ctx)@.with_heap(
                crate::heap::add_ref_model(old(ctx)@.heap, self.id),
            ),
            r.id == self.id,
    {
        self.clone_with_ctx(ctx)
    }

    /// Binds the handle as its first-class wrapper for lock-held work; the
    /// increment transfers.
    pub fn unwrap(self) -> (r: PikeMultiset)
        ensures
            r.multiset_ref == self,
    {
        PikeMultiset { multiset_ref: self }
    }

    /// Relinquishes the handle, with or without the lock: its increment
    /// transfers to a release record on the deferred queue, to be executed
    /// once a context token is at hand.  Models the handle's drop, which
    /// must never touch the count itself.
    pub fn defer_drop(self, queue: &mut DeferredQueue)
        ensures
            final(queue)@ =~= old(queue)@.push(
                DeferredRelease { id: self.id, kind: PIKE_T_MULTISET },
            ),
    {
        drop_with_context(queue, DeferredRelease { id: self.id, kind: PIKE_T_MULTISET });
    }

    /// Releases the handle's increment immediately, under the lock.
    pub fn drop_with_ctx(self, ctx: &mut PikeContext)
        requires
            obj_live(old(ctx)@.heap, self.id),
            obj_refs(old(ctx)@.heap, self.id) >= 1,
        ensures
            final(ctx)@ == old(ctx)@.with_heap(release_model(old(ctx)@.heap, self.id)),
    {
        ctx.heap_release(self.id);
    }
}


/// The object `id` is a live multiset.
pub open spec fn is_multiset(heap: Seq<ObjModel>, id: usize) -> bool {
    obj_live(heap, id) && obj_kind(heap, id) == PIKE_T_MULTISET && obj_data(heap, id) is Elems
}

/// The members of multiset `id`, in the runtime's internal order.
pub open spec fn members_of(heap: Seq<ObjModel>, id: usize) -> Seq<svalue> {
    obj_data(heap, id)->Elems_0
}

/// First-class multiset wrapper, used while the lock is held.
#[derive(Debug, PartialEq, Eq)]
pub struct PikeMultiset {
    /// The underlying handle.
    pub multiset_ref: PikeMultisetRef,
}

impl PikeMultiset {
    /// Wraps an existing handle.
    pub fn from_ref(multiset_ref: PikeMultisetRef) -> (r: Self)
        ensures
            r.multiset_ref == multiset_ref,
    {
        PikeMultiset { multiset_ref }
    }

    /// Number of members.
    pub fn len(&self, ctx: &PikeContext) -> (n: usize)
        requires
            is_multiset(ctx@.heap, self.multiset_ref.id),
        ensures
            n == members_of(ctx@.heap, self.multiset_ref.id).len(),
    {
        match ctx.heap_data(self.multiset_ref.id) {
            ObjData::Elems(v) => v.len(),
            _ => {
                proof {
                    assert(false);
                }
                0
            },
        }
    }

    /// Whether the multiset has no members.
    pub fn is_empty(&self, ctx: &PikeContext) -> (r: bool)
        requires
            is_multiset(ctx@.heap, self.multiset_ref.id),
        ensures
            r == (members_of(ctx@.heap, self.multiset_ref.id).len() == 0),
    {
        self.len(ctx) == 0
    }
}

impl crate::traits::FromWithCtx<PikeMultisetRef> for PikeMultiset {
    open spec fn from_pre(t: PikeMultisetRef, m: crate::interpreter::CtxModel) -> bool {
        true
    }

    open spec fn from_post(
        t: PikeMultisetRef,
        pre: crate::interpreter::CtxModel,
        post: crate::interpreter::CtxModel,
        r: Self,
    ) -> bool {
        r.multiset_ref == t && post == pre
    }

    /// Binds the handle as its first-class wrapper; the handle's increment
    /// transfers, so nothing on the heap changes.
    fn from_with_ctx(t: PikeMultisetRef, ctx: &mut PikeContext) -> (r: Self) {
        PikeMultiset::from_ref(t)
    }
}

/// A forward iterator over a multiset's members.
#[derive(Debug, PartialEq, Eq)]
pub struct PikeMultisetIterator {
    /// The multiset being walked; the iterator owns this increment.
    pub multiset: PikeMultisetRef,
    /// Index of the next member to yield.
    pub pos: usize,
}

impl PikeMultiset {
    /// Starts a forward iteration; the handle's increment transfers to the
    /// iterator.
    pub fn into_iter(self) -> (it: PikeMultisetIterator)
        ensures
            it.multiset == self.multiset_ref,
            it.pos == 0,
    {
        PikeMultisetIterator { multiset: self.multiset_ref, pos: 0 }
    }
}

impl PikeMultisetIterator {
    /// Yields the next member, taking a fresh reference for it, or `None`
    /// at the end.
    pub fn next(&mut self, ctx: &mut PikeContext) -> (t: Option<crate::pike_thing::PikeThing>)
        requires
            is_multiset(old(ctx)@.heap, old(self).multiset.id),
            old(self).pos < members_of(old(ctx)@.heap, old(self).multiset.id).len() ==> ({
                let sv = members_of(old(ctx)@.heap, old(self).multiset.id)[old(self).pos as int];
                &&& sv.wf()
                &&& crate::interpreter::sval_live(old(ctx)@.heap, sv)
                &&& crate::interpreter::sval_room(old(ctx)@.heap, sv)
            }),
        ensures
            final(self).multiset == old(self).multiset,
            old(self).pos < members_of(old(ctx)@.heap, old(self).multiset.id).len() ==> ({
                let sv = members_of(old(ctx)@.heap, old(self).multiset.id)[old(self).pos as int];
                &&& final(self).pos == old(self).pos + 1
                &&& t matches Some(th) && th@ == crate::pike_thing::thing_of_sval(sv)
                &&& final(ctx)@ == old(ctx)@.with_heap(
                    crate::interpreter::add_sval_model(old(ctx)@.heap, sv),
                )
            }),
            old(self).pos >= members_of(old(ctx)@.heap, old(self).multiset.id).len() ==> {
                &&& t is None
                &&& *final(self) == *old(self)
                &&& final(ctx)@ == old(ctx)@
            },
    {
        let m = PikeMultiset { multiset_ref: PikeMultisetRef { id: self.multiset.id } };
        let n = m.len(ctx);
        if self.pos < n {
            let sv = match ctx.heap_data(self.multiset.id) {
                ObjData::Elems(v) => v[self.pos],
                _ => {
                    proof {
                        assert(false);
                    }
                    svalue::undefined()
                },
            };
            let th = crate::pike_thing::PikeThing::from_svalue_ref(&sv, ctx);
            self.pos = self.pos + 1;
            Some(th)
        } else {
            None
        }
    }
}

} // verus!
