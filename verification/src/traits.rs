//! The shared capabilities of the refcounted handle family.
//!
//! Every wrapper type for a foreign object kind implements the same
//! acquire/increment/project contract once; the per-kind modules only
//! instantiate it.

use vstd::prelude::*;

use crate::heap::{add_ref_model, obj_live, obj_refs};
use crate::interpreter::{CtxModel, PikeContext};

verus! {

/// A value that can be duplicated only under a context token, taking one
/// more reference to the foreign object it designates.
pub trait CloneWithCtx: Sized {
    /// The heap object whose count a clone takes.
    spec fn rc_target(&self) -> usize;

    /// Both values designate the same underlying foreign reference.
    spec fn same_ref(&self, other: &Self) -> bool;

    /// Duplicates the value, incrementing the target's count.
    fn clone_with_ctx(&self, ctx: &mut PikeContext) -> (r: Self)
        requires
            obj_live(old(ctx)@.heap, self.rc_target()),
            obj_refs(old(ctx)@.heap, self.rc_target()) < u64::MAX,
        ensures
            final(ctx)@ == old(ctx)@.with_heap(add_ref_model(old(ctx)@.heap, self.rc_target())),
            r.same_ref(self),
            r.rc_target() == self.rc_target(),
    ;
}

/// A handle exclusively owning one increment of one foreign object's
/// reference count.
pub trait Refcounted: CloneWithCtx {
    /// The id of the foreign object the handle owns an increment on.
    spec fn id_spec(&self) -> usize;

    /// Adopts an increment the caller already owns: no count change.  The
    /// caller gives up its increment to the new handle.
    fn from_ptr(id: usize) -> (r: Self)
        ensures
            r.id_spec() == id,
    ;

    /// Takes a fresh increment on the object and wraps it.
    fn from_ptr_add_ref(id: usize, ctx: &mut PikeContext) -> (r: Self)
        requires
            obj_live(old(ctx)@.heap, id),
            obj_refs(old(ctx)@.heap, id) < u64::MAX,
        ensures
            final(ctx)@ == old(ctx)@.with_heap(add_ref_model(old(ctx)@.heap, id)),
            r.id_spec() == id,
    ;

    /// Projects the handle to the object it designates: a pointer copy, no
    /// ownership change, callable without the lock.
    fn as_mut_ptr(&self) -> (id: usize)
        ensures
            id == self.id_spec(),
    ;
}

/// Conversion into `Self` that may need the lock; each implementation
/// states its own precondition and effect through the two spec functions.
pub trait FromWithCtx<T>: Sized {
    /// When the conversion may run.
    spec fn from_pre(t: T, m: CtxModel) -> bool;

    /// What the conversion did: relates the input, the interpreter state
    /// before and after, and the result.
    spec fn from_post(t: T, pre: CtxModel, post: CtxModel, r: Self) -> bool;

    /// Converts under a context token.
    fn from_with_ctx(t: T, ctx: &mut PikeContext) -> (r: Self)
        requires
            Self::from_pre(t, old(ctx)@),
        ensures
            Self::from_post(t, old(ctx)@, final(ctx)@, r),
    ;
}

/// The companion of [`FromWithCtx`], implemented for free in terms of it.
pub trait IntoWithCtx<U>: Sized {
    /// When the conversion may run.
    spec fn into_pre(self, m: CtxModel) -> bool;

    /// What the conversion did.
    spec fn into_post(self, pre: CtxModel, post: CtxModel, r: U) -> bool;

    /// Converts under a context token.
    fn into_with_ctx(self, ctx: &mut PikeContext) -> (r: U)
        requires
            self.into_pre(old(ctx)@),
        ensures
            self.into_post(old(ctx)@, final(ctx)@, r),
    ;
}

impl<T, U: FromWithCtx<T>> IntoWithCtx<U> for T {
    open spec fn into_pre(self, m: CtxModel) -> bool {
        U::from_pre(self, m)
    }

    open spec fn into_post(self, pre: CtxModel, post: CtxModel, r: U) -> bool {
        U::from_post(self, pre, post, r)
    }

    fn into_with_ctx(self, ctx: &mut PikeContext) -> (r: U) {
        U::from_with_ctx(self, ctx)
    }
}

} // verus!
