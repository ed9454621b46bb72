//! Handle and first-class wrapper for foreign object instances.
//!
//! Object handles carry a phantom `TStorage` parameter describing the shape
//! of the extension storage attached to instances of the object's program.
//! The parameter has no runtime representation; reinterpreting a handle at
//! another storage type is allowed only where the storage layouts are known
//! to match (see [`PikeObjectRef::cast_storage`]).

use std::marker::PhantomData;

use vstd::prelude::*;

use crate::error::{description_of, CallOutcome, PikeError};
use crate::heap::{add_ref_model, obj_live, obj_refs, release_model};
use crate::interpreter::{drop_with_context, DeferredQueue, DeferredRelease, PikeContext};
use crate::pike_thing::PikeThing;
use crate::storage::ObjectStorage;
use crate::svalue::PIKE_T_OBJECT;
use crate::traits::{CloneWithCtx, Refcounted};

verus! {

/// A handle owning one refcount increment on a foreign object instance.
#[derive(Debug, PartialEq, Eq)]
pub struct PikeObjectRef<TStorage> {
    /// Heap id of the object: the model's stand-in for the raw pointer.
    pub id: usize,
    /// Phantom marker for the storage shape; no runtime representation.
    pub _storage: PhantomData<TStorage>,
}

impl<TStorage> CloneWithCtx for PikeObjectRef<TStorage> {
    open spec fn rc_target(&self) -> usize {
        self.id
    }

    open spec fn same_ref(&self, other: &Self) -> bool {
        self.id == other.id
    }

    fn clone_with_ctx(&self, ctx: &mut PikeContext) -> (r: Self) {
        ctx.heap_add_ref(self.id);
        PikeObjectRef { id: self.id, _storage: PhantomData }
    }
}

impl<TStorage> Refcounted for PikeObjectRef<TStorage> {
    open spec fn id_spec(&self) -> usize {
        self.id
    }

    fn from_ptr(id: usize) -> (r: Self) {
        PikeObjectRef { id, _storage: PhantomData }
    }

    fn from_ptr_add_ref(id: usize, ctx: &mut PikeContext) -> (r: Self) {
        ctx.heap_add_ref(id);
        PikeObjectRef { id, _storage: PhantomData }
    }

    fn as_mut_ptr(&self) -> (id: usize) {
        self.id
    }
}

impl<TStorage> PikeObjectRef<TStorage> {
    /// The object of the current execution frame, with a fresh reference.
    pub fn current_object(ctx: &mut PikeContext) -> (r: Self)
        requires
            old(ctx)@.frame_object is Some,
            obj_live(old(ctx)@.heap, old(ctx)@.frame_object->0),
            obj_refs(old(ctx)@.heap, old(ctx)@.frame_object->0) < u64::MAX,
        ensures
            final(ctx)@ == old(ctx)@.with_heap(
                add_ref_model(old(ctx)@.heap, old(ctx)@.frame_object->0),
            ),
            r.id == old(ctx)@.frame_object->0,
    {
        let id = ctx.frame_object_id().unwrap();
        Self::from_ptr_add_ref(id, ctx)
    }

    /// The runtime's master object, with a fresh reference.
    pub fn get_master(ctx: &mut PikeContext) -> (r: Self)
        requires
            obj_live(old(ctx)@.heap, old(ctx)@.master),
            obj_refs(old(ctx)@.heap, old(ctx)@.master) < u64::MAX,
        ensures
            final(ctx)@ == old(ctx)@.with_heap(add_ref_model(old(ctx)@.heap, old(ctx)@.master)),
            r.id == old(ctx)@.master,
    {
        let id = ctx.master_id();
        Self::from_ptr_add_ref(id, ctx)
    }

    /// Reinterprets the handle at another storage type.  Permitted only
    /// where the two storage layouts are known to agree; the phantom
    /// parameter carries no runtime witness to check.
    pub fn cast_storage<S2>(self) -> (r: PikeObjectRef<S2>)
        ensures
            r.id == self.id,
    {
        PikeObjectRef { id: self.id, _storage: PhantomData }
    }

    /// Relinquishes the handle, with or without the lock: its increment
    /// transfers to a release record on the deferred queue.  Models the
    /// handle's drop, which must never touch the count itself.
    pub fn defer_drop(self, queue: &mut DeferredQueue)
        ensures
            final(queue)@ =~= old(queue)@.push(
                DeferredRelease { id: self.id, kind: PIKE_T_OBJECT },
            ),
    {
        drop_with_context(queue, DeferredRelease { id: self.id, kind: PIKE_T_OBJECT });
    }

    /// Releases the handle's increment immediately, under the lock.
    pub fn drop_with_ctx(self, ctx: &mut PikeContext)
        requires
            obj_live(old(ctx)@.heap, self.id),
            obj_refs(old(ctx)@.heap, self.id) >= 1,
        ensures
            final(ctx)@ == old(ctx)@.with_heap(release_model(old(ctx)@.heap, self.id)),
    {
        ctx.heap_release(self.id);
    }
}

/// First-class object wrapper, used while the lock is held.
#[derive(Debug, PartialEq, Eq)]
pub struct PikeObject<TStorage> {
    /// The underlying handle.
    pub object_ref: PikeObjectRef<TStorage>,
}

impl<TStorage> PikeObject<TStorage> {
    /// Wraps an existing handle.
    pub fn from_ref(object_ref: PikeObjectRef<TStorage>) -> (r: Self)
        ensures
            r.object_ref == object_ref,
    {
        PikeObject { object_ref }
    }

    /// The object of the current execution frame, with a fresh reference.
    pub fn current_object(ctx: &mut PikeContext) -> (r: Self)
        requires
            old(ctx)@.frame_object is Some,
            obj_live(old(ctx)@.heap, old(ctx)@.frame_object->0),
            obj_refs(old(ctx)@.heap, old(ctx)@.frame_object->0) < u64::MAX,
        ensures
            final(ctx)@ == old(ctx)@.with_heap(
                add_ref_model(old(ctx)@.heap, old(ctx)@.frame_object->0),
            ),
            r.object_ref.id == old(ctx)@.frame_object->0,
    {
        PikeObject { object_ref: PikeObjectRef::<TStorage>::current_object(ctx) }
    }

    /// The runtime's master object, with a fresh reference.
    pub fn get_master(ctx: &mut PikeContext) -> (r: Self)
        requires
            obj_live(old(ctx)@.heap, old(ctx)@.master),
            obj_refs(old(ctx)@.heap, old(ctx)@.master) < u64::MAX,
        ensures
            final(ctx)@ == old(ctx)@.with_heap(add_ref_model(old(ctx)@.heap, old(ctx)@.master)),
            r.object_ref.id == old(ctx)@.master,
    {
        PikeObject { object_ref: PikeObjectRef::<TStorage>::get_master(ctx) }
    }

    /// Calls a function of this object under a recovery point.  A name
    /// that cannot cross the foreign boundary as a C string — one holding a
    /// NUL byte — fails up front with a generic error, before anything
    /// foreign is invoked and with the interpreter state untouched.
    /// Otherwise the foreign dispatch pushes copies of the arguments, runs
    /// the function, and pops them again, so the heap comes back balanced;
    /// its observable outcome — the returned value, or the thrown one —
    /// arrives as `outcome`.  A throw is described and handed back as
    /// `Err`.
    pub fn call_func(
        &self,
        func_name: &str,
        args: Vec<&PikeThing>,
        outcome: CallOutcome,
        ctx: &mut PikeContext,
    ) -> (r: Result<PikeThing, PikeError>)
        requires
            old(ctx)@.recoveries < u64::MAX,
            old(ctx)@.thrown is None,
        ensures
            final(ctx)@ == old(ctx)@,
            crate::error::has_nul_byte(func_name) ==> (r matches Err(err) && err matches
                PikeError::Generic(m) && m@ == "nul byte found in provided data"@),
            !crate::error::has_nul_byte(func_name) ==> (outcome matches CallOutcome::Returned(v)
                ==> (r matches Ok(rv) && rv@ == v@)),
            !crate::error::has_nul_byte(func_name) ==> (outcome matches CallOutcome::Threw(e)
                ==> (r matches Err(err) && err matches PikeError::PikeError(d, th) && th@ == e@
                && d@ == description_of(old(ctx)@.heap, e@))),
    {
        if crate::error::contains_nul_byte(func_name) {
            return Err(PikeError::Generic(String::from_str("nul byte found in provided data")));
        }
        ctx.catch_begin();
        match outcome {
            CallOutcome::Returned(v) => ctx.catch_pike_error(Some(v)),
            CallOutcome::Threw(e) => {
                proof {
                    crate::pike_thing::lemma_thing_sval_roundtrip(e@);
                }
                ctx.throw_value(e);
                ctx.catch_pike_error::<PikeThing>(None)
            },
        }
    }

    /// Read access to the extension data attached to this object's storage
    /// slot.
    pub fn wrapped<'s>(&self, storage: &'s ObjectStorage<TStorage>) -> (r: &'s TStorage)
        requires
            storage.value is Some,
        ensures
            *r == storage.value->0,
    {
        storage.wrapped()
    }

    /// Replaces the extension data in this object's storage slot.
    pub fn update_data(&self, storage: &mut ObjectStorage<TStorage>, data: TStorage)
        requires
            !old(storage).released,
        ensures
            (final(storage).value matches Some(v) && v == data),
            !final(storage).released,
    {
        storage.attach(data);
    }
}

} // verus!
