//! Handle and first-class wrapper for foreign function values.
//!
//! A function value is an object reference plus the index of the function
//! within the object's program; the handle's increment is held on the
//! object.

use vstd::prelude::*;

use crate::heap::{add_ref_model, obj_live, obj_refs};
use crate::interpreter::{DeferredQueue, PikeContext};
use crate::pike_object::PikeObjectRef;
use crate::pike_thing::PikeThing;
use crate::traits::{CloneWithCtx, Refcounted};

verus! {

/// A function value: an object handle plus a function index.
#[derive(Debug, PartialEq, Eq)]
pub struct PikeFunctionRef {
    /// The object the function lives in; this handle owns the increment.
    pub pikeobj: PikeObjectRef<()>,
    /// Index of the function within the object's program.
    pub fun_idx: u16,
}

impl CloneWithCtx for PikeFunctionRef {
    open spec fn rc_target(&self) -> usize {
        self.pikeobj.id
    }

    open spec fn same_ref(&self, other: &Self) -> bool {
        self.pikeobj.id == other.pikeobj.id && self.fun_idx == other.fun_idx
    }

    fn clone_with_ctx(&self, ctx: &mut PikeContext) -> (r: Self) {
        PikeFunctionRef { pikeobj: self.pikeobj.clone_with_ctx(ctx), fun_idx: self.fun_idx }
    }
}

impl PikeFunctionRef {
    /// Takes a fresh increment on object `object` and wraps it together
    /// with the function index.
    pub fn new(object: usize, fun_idx: u16, ctx: &mut PikeContext) -> (r: Self)
        requires
            obj_live(old(ctx)@.heap, object),
            obj_refs(old(ctx)@.heap, object) < u64::MAX,
        ensures
            final(ctx)@ == old(ctx)@.with_heap(add_ref_model(old(ctx)@.heap, object)),
            r.pikeobj.id == object,
            r.fun_idx == fun_idx,
    {
        PikeFunctionRef { pikeobj: PikeObjectRef::<()>::from_ptr_add_ref(object, ctx), fun_idx }
    }

    /// Adopts an increment the caller already owns: no count change.
    pub fn new_without_ref(object: usize, fun_idx: u16) -> (r: Self)
        ensures
            r.pikeobj.id == object,
            r.fun_idx == fun_idx,
    {
        PikeFunctionRef { pikeobj: PikeObjectRef::<()>::from_ptr(object), fun_idx }
    }

    /// The object the function lives in: a pointer copy, no ownership
    /// change.
    pub fn object_ptr(&self) -> (id: usize)
        ensures
            id == self.pikeobj.id,
    {
        self.pikeobj.as_mut_ptr()
    }

    /// Index of the function within the object's program.
    pub fn function_index(&self) -> (i: u16)
        ensures
            i == self.fun_idx,
    {
        self.fun_idx
    }

    /// Relinquishes the handle, with or without the lock: the object
    /// increment transfers to the deferred queue.
    pub fn defer_drop(self, queue: &mut DeferredQueue)
        ensures
            final(queue)@ =~= old(queue)@.push(
                crate::interpreter::DeferredRelease {
                    id: self.pikeobj.id,
                    kind: crate::svalue::PIKE_T_OBJECT,
                },
            ),
    {
        self.pikeobj.defer_drop(queue);
    }
}

/// First-class function wrapper, used while the lock is held.
#[derive(Debug, PartialEq, Eq)]
pub struct PikeFunction {
    /// The underlying function value.
    pub func_ref: PikeFunctionRef,
}

impl PikeFunction {
    /// Takes a fresh increment on object `object` and wraps it together
    /// with the function index.
    pub fn new(object: usize, fun_idx: u16, ctx: &mut PikeContext) -> (r: Self)
        requires
            obj_live(old(ctx)@.heap, object),
            obj_refs(old(ctx)@.heap, object) < u64::MAX,
        ensures
            final(ctx)@ == old(ctx)@.with_heap(add_ref_model(old(ctx)@.heap, object)),
            r.func_ref.pikeobj.id == object,
            r.func_ref.fun_idx == fun_idx,
    {
        PikeFunction { func_ref: PikeFunctionRef::new(object, fun_idx, ctx) }
    }

    /// Wraps an existing function value.
    pub fn from_ref(func_ref: PikeFunctionRef) -> (r: Self)
        ensures
            r.func_ref == func_ref,
    {
        PikeFunction { func_ref }
    }

    /// Invokes the function value under a recovery point.  The foreign
    /// dispatch consumes the pushed arguments and leaves the heap balanced;
    /// its observable outcome arrives as `outcome`, and a throw is
    /// described and handed back as `Err`.
    pub fn call(
        &self,
        args: Vec<PikeThing>,
        outcome: crate::error::CallOutcome,
        ctx: &mut PikeContext,
    ) -> (r: Result<PikeThing, crate::error::PikeError>)
        requires
            old(ctx)@.recoveries < u64::MAX,
            old(ctx)@.thrown is None,
        ensures
            final(ctx)@ == old(ctx)@,
            outcome matches crate::error::CallOutcome::Returned(v) ==> (r matches Ok(rv) && rv@
                == v@),
            outcome matches crate::error::CallOutcome::Threw(e) ==> (r matches Err(err)
                && err matches crate::error::PikeError::PikeError(d, th) && th@ == e@ && d@
                == crate::error::description_of(old(ctx)@.heap, e@)),
    {
        ctx.catch_begin();
        match outcome {
            crate::error::CallOutcome::Returned(v) => ctx.catch_pike_error(Some(v)),
            crate::error::CallOutcome::Threw(e) => {
                proof {
                    crate::pike_thing::lemma_thing_sval_roundtrip(e@);
                }
                ctx.throw_value(e);
                ctx.catch_pike_error::<PikeThing>(None)
            },
        }
    }
}

} // verus!
