//! Handle and first-class wrapper for foreign array objects.

use vstd::prelude::*;

use crate::heap::{
    alloc_model, obj_data, obj_kind, obj_live, obj_refs, release_model, set_data_model, DataModel,
    ObjData, ObjModel,
};
use crate::interpreter::{drop_with_context, DeferredQueue, DeferredRelease, PikeContext};
use crate::interpreter::{add_sval_model, sval_live, sval_room};
use crate::pike_thing::{sval_of_thing, thing_of_sval, PikeThing};
use crate::svalue::{Payload, svalue, PIKE_T_ARRAY, PIKE_T_INT};
use crate::traits::{CloneWithCtx, Refcounted};

verus! {

/// A handle owning one refcount increment on a foreign array object.
#[derive(Debug, PartialEq, Eq)]
pub struct PikeArrayRef {
    /// Heap id of the object: the model's stand-in for the raw pointer.
    pub id: usize,
}

impl CloneWithCtx for PikeArrayRef {
    open spec fn rc_target(&self) -> usize {
        self.id
    }

    open spec fn same_ref(&self, other: &Self) -> bool {
        self.id == other.id
    }

    fn clone_with_ctx(&self, ctx: &mut PikeContext) -> (r: Self) {
        ctx.heap_add_ref(self.id);
        PikeArrayRef { id: self.id }
    }
}

impl Refcounted for PikeArrayRef {
    open spec fn id_spec(&self) -> usize {
        self.id
    }

    fn from_ptr(id: usize) -> (r: Self) {
        PikeArrayRef { id }
    }

    fn from_ptr_add_ref(id: usize, ctx: &mut PikeContext) -> (r: Self) {
        ctx.heap_add_ref(id);
        PikeArrayRef { id }
    }

    fn as_mut_ptr(&self) -> (id: usize) {
        self.id
    }
}

impl PikeArrayRef {
    /// Takes a fresh increment on object `id` and wraps it.
    pub fn new(id: usize, ctx: &mut PikeContext) -> (r: Self)
        requires
            obj_live(old(ctx)@.heap, id),
            obj_refs(old(ctx)@.heap, id) < u64::MAX,
        ensures
            final(ctx)@ == old(ctx)@.with_heap(crate::heap::add_ref_model(old(ctx)@.heap, id)),
            r.id == id,
    {
        Self::from_ptr_add_ref(id, ctx)
    }

    /// Adopts an increment the caller already owns: no count change.
    pub fn new_without_ref(id: usize) -> (r: Self)
        ensures
            r.id == id,
    {
        PikeArrayRef { id }
    }

    /// Duplicates the handle under a context token, taking one more
    /// reference.  The regular `Clone` trait deliberately does not exist:
    /// cloning needs the lock.
    pub fn clone(&self, ctx: &mut PikeContext) -> (r: Self)
        requires
            obj_live(old(ctx)@.heap, self.id),
            obj_refs(old(ctx)@.heap, self.id) < u64::MAX,
        ensures
            final(ctx)@ == old(ctx)@.with_heap(
                crate::heap::add_ref_model(old(ctx)@.heap, self.id),
            ),
            r.id == self.id,
    {
        self.clone_with_ctx(ctx)
    }

    /// Binds the handle as its first-class wrapper for lock-held work; the
    /// increment transfers.
    pub fn unwrap(self) -> (r: PikeArray)
        ensures
            r.array_ref == self,
    {
        PikeArray { array_ref: self }
    }

    /// Relinquishes the handle, with or without the lock: its increment
    /// transfers to a release record on the deferred queue, to be executed
    /// once a context token is at hand.  Models the handle's drop, which
    /// must never touch the count itself.
    pub fn defer_drop(self, queue: &mut DeferredQueue)
        ensures
            final(queue)@ =~= old(queue)@.push(
                DeferredRelease { id: self.id, kind: PIKE_T_ARRAY },
            ),
    {
        drop_with_context(queue, DeferredRelease { id: self.id, kind: PIKE_T_ARRAY });
    }

    /// Releases the handle's increment immediately, under the lock.
    pub fn drop_with_ctx(self, ctx: &mut PikeContext)
        requires
            obj_live(old(ctx)@.heap, self.id),
            obj_refs(old(ctx)@.heap, self.id) >= 1,
        ensures
            final(ctx)@ == old(ctx)@.with_heap(release_model(old(ctx)@.heap, self.id)),
    {
        ctx.heap_release(self.id);
    }
}

/// The object `id` is a live array.
pub open spec fn is_array(heap: Seq<ObjModel>, id: usize) -> bool {
    obj_live(heap, id) && obj_kind(heap, id) == PIKE_T_ARRAY && obj_data(heap, id) is Elems
}

/// The elements of array `id`.
pub open spec fn elems_of(heap: Seq<ObjModel>, id: usize) -> Seq<svalue> {
    obj_data(heap, id)->Elems_0
}

/// The zero integer value that fresh array slots hold.
pub open spec fn spec_zero_int() -> svalue {
    svalue { kind: PIKE_T_INT, subkind: 0, payload: Payload::Int(0) }
}

/// First-class array wrapper, used while the lock is held.
#[derive(Debug, PartialEq, Eq)]
pub struct PikeArray {
    /// The underlying handle.
    pub array_ref: PikeArrayRef,
}

impl PikeArray {
    /// Wraps an existing handle.
    pub fn from_ref(array_ref: PikeArrayRef) -> (r: Self)
        ensures
            r.array_ref == array_ref,
    {
        PikeArray { array_ref }
    }

    /// Allocates an empty array (capacity is a foreign allocator hint that
    /// the model does not track).
    pub fn with_capacity(capacity: usize, ctx: &mut PikeContext) -> (r: Self)
        ensures
            final(ctx)@ == old(ctx)@.with_heap(
                alloc_model(old(ctx)@.heap, PIKE_T_ARRAY, DataModel::Elems(Seq::empty())),
            ),
            r.array_ref.id == old(ctx)@.heap.len(),
    {
        let id = ctx.heap_allocate(PIKE_T_ARRAY, ObjData::Elems(Vec::new()));
        PikeArray { array_ref: PikeArrayRef { id } }
    }

    /// Allocates an array of `size` zero-integer slots.
    pub fn with_size(size: usize, ctx: &mut PikeContext) -> (r: Self)
        ensures
            final(ctx)@ == old(ctx)@.with_heap(
                alloc_model(
                    old(ctx)@.heap,
                    PIKE_T_ARRAY,
                    DataModel::Elems(Seq::new(size as nat, |i: int| spec_zero_int())),
                ),
            ),
            r.array_ref.id == old(ctx)@.heap.len(),
    {
        let zero = svalue { kind: PIKE_T_INT, subkind: 0, payload: Payload::Int(0) };
        let elems: Vec<svalue> = vec![zero; size];
        proof {
            assert(elems@ =~= Seq::new(size as nat, |i: int| spec_zero_int()));
        }
        let id = ctx.heap_allocate(PIKE_T_ARRAY, ObjData::Elems(elems));
        PikeArray { array_ref: PikeArrayRef { id } }
    }

    /// Aggregates the top `num_entries` stack slots, in stack order, into a
    /// fresh array; their ownership increments transfer into the array.
    pub fn aggregate_from_stack(num_entries: usize, ctx: &mut PikeContext) -> (r: Self)
        requires
            num_entries <= old(ctx)@.stack.len(),
        ensures
            final(ctx)@ == old(ctx)@.with_stack(
                old(ctx)@.stack.take(old(ctx)@.stack.len() - num_entries as int),
            ).with_heap(
                alloc_model(
                    old(ctx)@.heap,
                    PIKE_T_ARRAY,
                    DataModel::Elems(
                        old(ctx)@.stack.skip(old(ctx)@.stack.len() - num_entries as int),
                    ),
                ),
            ),
            r.array_ref.id == old(ctx)@.heap.len(),
    {
        let run = ctx.take_stack_suffix(num_entries);
        let id = ctx.heap_allocate(PIKE_T_ARRAY, ObjData::Elems(run));
        PikeArray { array_ref: PikeArrayRef { id } }
    }

    /// Appends a value; its ownership increment transfers into the array.
    pub fn append(&mut self, value: PikeThing, ctx: &mut PikeContext)
        requires
            is_array(old(ctx)@.heap, old(self).array_ref.id),
        ensures
            *final(self) == *old(self),
            final(ctx)@ == old(ctx)@.with_heap(
                set_data_model(
                    old(ctx)@.heap,
                    old(self).array_ref.id,
                    DataModel::Elems(
                        elems_of(old(ctx)@.heap, old(self).array_ref.id).push(
                            sval_of_thing(value@),
                        ),
                    ),
                ),
            ),
    {
        let id = self.array_ref.id;
        let sv = value.into_svalue();
        let data = ctx.heap_take_data(id);
        match data {
            ObjData::Elems(mut v) => {
                v.push(sv);
                ctx.heap_set_data(id, ObjData::Elems(v));
                proof {
                    assert(ctx@.heap =~= set_data_model(
                        old(ctx)@.heap,
                        id,
                        DataModel::Elems(elems_of(old(ctx)@.heap, id).push(sv)),
                    ));
                }
            },
            _ => {
                proof {
                    assert(false);
                }
            },
        }
    }

    /// Number of elements.
    pub fn len(&self, ctx: &PikeContext) -> (n: usize)
        requires
            is_array(ctx@.heap, self.array_ref.id),
        ensures
            n == elems_of(ctx@.heap, self.array_ref.id).len(),
    {
        match ctx.heap_data(self.array_ref.id) {
            ObjData::Elems(v) => v.len(),
            _ => {
                proof {
                    assert(false);
                }
                0
            },
        }
    }

    /// Reads the element at `index` without removing it, taking a fresh
    /// reference for the returned value (the array keeps its own).
    pub fn get(&self, index: usize, ctx: &mut PikeContext) -> (t: PikeThing)
        requires
            is_array(old(ctx)@.heap, self.array_ref.id),
            index < elems_of(old(ctx)@.heap, self.array_ref.id).len(),
            elems_of(old(ctx)@.heap, self.array_ref.id)[index as int].wf(),
            sval_live(old(ctx)@.heap, elems_of(old(ctx)@.heap, self.array_ref.id)[index as int]),
            sval_room(old(ctx)@.heap, elems_of(old(ctx)@.heap, self.array_ref.id)[index as int]),
        ensures
            t@ == thing_of_sval(elems_of(old(ctx)@.heap, self.array_ref.id)[index as int]),
            final(ctx)@ == old(ctx)@.with_heap(
                add_sval_model(
                    old(ctx)@.heap,
                    elems_of(old(ctx)@.heap, self.array_ref.id)[index as int],
                ),
            ),
    {
        let sv: svalue = match ctx.heap_data(self.array_ref.id) {
            ObjData::Elems(v) => v[index],
            _ => {
                proof {
                    assert(false);
                }
                svalue::undefined()
            },
        };
        if sv.refcounted_type() {
            let target = sv.ptr_id();
            ctx.heap_add_ref(target);
        }
        PikeThing::from_svalue(sv)
    }

    /// Starts a forward iteration over the array; the handle's increment
    /// transfers to the iterator.
    pub fn into_iter(self) -> (it: PikeArrayIterator)
        ensures
            it.array == self.array_ref,
            it.pos == 0,
    {
        PikeArrayIterator { array: self.array_ref, pos: 0 }
    }
}

/// A forward, restartable-per-construction iterator over an array.
#[derive(Debug, PartialEq, Eq)]
pub struct PikeArrayIterator {
    /// The array being walked; the iterator owns this increment.
    pub array: PikeArrayRef,
    /// Index of the next element to yield.
    pub pos: usize,
}

impl PikeArrayIterator {
    /// Yields the next element, taking a fresh reference for it, or `None`
    /// at the end.
    pub fn next(&mut self, ctx: &mut PikeContext) -> (t: Option<PikeThing>)
        requires
            is_array(old(ctx)@.heap, old(self).array.id),
            old(self).pos < elems_of(old(ctx)@.heap, old(self).array.id).len() ==> {
                &&& elems_of(old(ctx)@.heap, old(self).array.id)[old(self).pos as int].wf()
                &&& sval_live(
                    old(ctx)@.heap,
                    elems_of(old(ctx)@.heap, old(self).array.id)[old(self).pos as int],
                )
                &&& sval_room(
                    old(ctx)@.heap,
                    elems_of(old(ctx)@.heap, old(self).array.id)[old(self).pos as int],
                )
            },
        ensures
            final(self).array == old(self).array,
            old(self).pos < elems_of(old(ctx)@.heap, old(self).array.id).len() ==> {
                &&& final(self).pos == old(self).pos + 1
                &&& t matches Some(th) && th@ == thing_of_sval(
                    elems_of(old(ctx)@.heap, old(self).array.id)[old(self).pos as int],
                )
                &&& final(ctx)@ == old(ctx)@.with_heap(
                    add_sval_model(
                        old(ctx)@.heap,
                        elems_of(old(ctx)@.heap, old(self).array.id)[old(self).pos as int],
                    ),
                )
            },
            old(self).pos >= elems_of(old(ctx)@.heap, old(self).array.id).len() ==> {
                &&& t is None
                &&& *final(self) == *old(self)
                &&& final(ctx)@ == old(ctx)@
            },
    {
        let arr = PikeArray { array_ref: PikeArrayRef { id: self.array.id } };
        let n = arr.len(ctx);
        if self.pos < n {
            let t = arr.get(self.pos, ctx);
            self.pos = self.pos + 1;
            Some(t)
        } else {
            None
        }
    }
}

impl crate::traits::FromWithCtx<PikeArrayRef> for PikeArray {
    open spec fn from_pre(t: PikeArrayRef, m: crate::interpreter::CtxModel) -> bool {
        true
    }

    open spec fn from_post(
        t: PikeArrayRef,
        pre: crate::interpreter::CtxModel,
        post: crate::interpreter::CtxModel,
        r: Self,
    ) -> bool {
        r.array_ref == t && post == pre
    }

    /// Binds the handle as its first-class wrapper; the handle's increment
    /// transfers, so nothing on the heap changes.
    fn from_with_ctx(t: PikeArrayRef, ctx: &mut PikeContext) -> (r: Self) {
        PikeArray::from_ref(t)
    }
}

} // verus!
