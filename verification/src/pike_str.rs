//! Handle and first-class wrapper for foreign string objects.

use vstd::prelude::*;

use vstd::string::StrSliceExecFns;
use vstd::string::StringSliceAdditionalSpecFns;

use crate::heap::{alloc_model, obj_live, obj_refs, release_model, DataModel, ObjData};
use crate::interpreter::{drop_with_context, DeferredQueue, DeferredRelease, PikeContext};
use crate::svalue::PIKE_T_STRING;
use crate::traits::{CloneWithCtx, Refcounted};

verus! {

/// A handle owning one refcount increment on a foreign string object.
#[derive(Debug, PartialEq, Eq)]
pub struct PikeStringRef {
    /// Heap id of the object: the model's stand-in for the raw pointer.
    pub id: usize,
}

impl CloneWithCtx for PikeStringRef {
    open spec fn rc_target(&self) -> usize {
        self.id
    }

    open spec fn same_ref(&self, other: &Self) -> bool {
        self.id == other.id
    }

    fn clone_with_ctx(&self, ctx: &mut PikeContext) -> (r: Self) {
        ctx.heap_add_ref(self.id);
        PikeStringRef { id: self.id }
    }
}

impl Refcounted for PikeStringRef {
    open spec fn id_spec(&self) -> usize {
        self.id
    }

    fn from_ptr(id: usize) -> (r: Self) {
        PikeStringRef { id }
    }

    fn from_ptr_add_ref(id: usize, ctx: &mut PikeContext) -> (r: Self) {
        ctx.heap_add_ref(id);
        PikeStringRef { id }
    }

    fn as_mut_ptr(&self) -> (id: usize) {
        self.id
    }
}

impl PikeStringRef {
    /// Takes a fresh increment on object `id` and wraps it.
    pub fn new(id: usize, ctx: &mut PikeContext) -> (r: Self)
        requires
            obj_live(old(ctx)@.heap, id),
            obj_refs(old(ctx)@.heap, id) < u64::MAX,
        ensures
            final(ctx)@ == old(ctx)@.with_heap(crate::heap::add_ref_model(old(ctx)@.heap, id)),
            r.id == id,
    {
        Self::from_ptr_add_ref(id, ctx)
    }

    /// Adopts an increment the caller already owns: no count change.
    pub fn new_without_ref(id: usize) -> (r: Self)
        ensures
            r.id == id,
    {
        PikeStringRef { id }
    }

    /// Duplicates the handle under a context token, taking one more
    /// reference.  The regular `Clone` trait deliberately does not exist:
    /// cloning needs the lock.
    pub fn clone(&self, ctx: &mut PikeContext) -> (r: Self)
        requires
            obj_live(old(ctx)@.heap, self.id),
            obj_refs(old(ctx)@.heap, self.id) < u64::MAX,
        ensures
            final(ctx)@ == old(ctx)@.with_heap(
                crate::heap::add_ref_model(old(ctx)@.heap, self.id),
            ),
            r.id == self.id,
    {
        self.clone_with_ctx(ctx)
    }

    /// Binds the handle as its first-class wrapper for lock-held work; the
    /// increment transfers.
    pub fn unwrap(self) -> (r: PikeString)
        ensures
            r.string_ref == self,
    {
        PikeString { string_ref: self }
    }

    /// Relinquishes the handle, with or without the lock: its increment
    /// transfers to a release record on the deferred queue, to be executed
    /// once a context token is at hand.  Models the handle's drop, which
    /// must never touch the count itself.
    pub fn defer_drop(self, queue: &mut DeferredQueue)
        ensures
            final(queue)@ =~= old(queue)@.push(
                DeferredRelease { id: self.id, kind: PIKE_T_STRING },
            ),
    {
        drop_with_context(queue, DeferredRelease { id: self.id, kind: PIKE_T_STRING });
    }

    /// Releases the handle's increment immediately, under the lock.
    pub fn drop_with_ctx(self, ctx: &mut PikeContext)
        requires
            obj_live(old(ctx)@.heap, self.id),
            obj_refs(old(ctx)@.heap, self.id) >= 1,
        ensures
            final(ctx)@ == old(ctx)@.with_heap(release_model(old(ctx)@.heap, self.id)),
    {
        ctx.heap_release(self.id);
    }
}


/// First-class string wrapper, used while the lock is held.
///
/// The model keeps a string as its run of bytes, as the runtime's binary
/// shared strings do; text from Rust enters as its UTF-8 encoding.
#[derive(Debug, PartialEq, Eq)]
pub struct PikeString {
    /// The underlying handle.
    pub string_ref: PikeStringRef,
}

impl PikeString {
    /// Wraps an existing handle.
    pub fn from_ref(string_ref: PikeStringRef) -> (r: Self)
        ensures
            r.string_ref == string_ref,
    {
        PikeString { string_ref }
    }

    /// Allocates a string holding the UTF-8 encoding of `s`.
    pub fn from_str_slice(s: &str, ctx: &mut PikeContext) -> (r: Self)
        ensures
            final(ctx)@ == old(ctx)@.with_heap(
                alloc_model(old(ctx)@.heap, PIKE_T_STRING, DataModel::Text(s.spec_bytes())),
            ),
            r.string_ref.id == old(ctx)@.heap.len(),
    {
        let bytes = s.as_bytes_vec();
        let id = ctx.heap_allocate(PIKE_T_STRING, ObjData::Text(bytes));
        PikeString { string_ref: PikeStringRef { id } }
    }

    /// Allocates a binary string holding exactly the given bytes.
    pub fn from_vec(v: Vec<u8>, ctx: &mut PikeContext) -> (r: Self)
        ensures
            final(ctx)@ == old(ctx)@.with_heap(
                alloc_model(old(ctx)@.heap, PIKE_T_STRING, DataModel::Text(v@)),
            ),
            r.string_ref.id == old(ctx)@.heap.len(),
    {
        let id = ctx.heap_allocate(PIKE_T_STRING, ObjData::Text(v));
        PikeString { string_ref: PikeStringRef { id } }
    }

    /// Allocates a binary string holding a copy of the given bytes.
    pub fn from_vec_slice(v: &[u8], ctx: &mut PikeContext) -> (r: Self)
        ensures
            final(ctx)@ == old(ctx)@.with_heap(
                alloc_model(old(ctx)@.heap, PIKE_T_STRING, DataModel::Text(v@)),
            ),
            r.string_ref.id == old(ctx)@.heap.len(),
    {
        let copy = vstd::slice::slice_to_vec(v);
        let id = ctx.heap_allocate(PIKE_T_STRING, ObjData::Text(copy));
        PikeString { string_ref: PikeStringRef { id } }
    }

    /// A copy of the string's bytes, for interchange with plain Rust.
    pub fn bytes(&self, ctx: &PikeContext) -> (r: Vec<u8>)
        requires
            crate::error::is_string(ctx@.heap, self.string_ref.id),
        ensures
            r@ == crate::error::text_of(ctx@.heap, self.string_ref.id),
    {
        match ctx.heap_data(self.string_ref.id) {
            ObjData::Text(bytes) => bytes.clone(),
            _ => {
                proof {
                    assert(false);
                }
                Vec::new()
            },
        }
    }

    /// Number of bytes.
    pub fn len(&self, ctx: &PikeContext) -> (n: usize)
        requires
            crate::error::is_string(ctx@.heap, self.string_ref.id),
        ensures
            n == crate::error::text_of(ctx@.heap, self.string_ref.id).len(),
    {
        match ctx.heap_data(self.string_ref.id) {
            ObjData::Text(bytes) => bytes.len(),
            _ => {
                proof {
                    assert(false);
                }
                0
            },
        }
    }
}

impl crate::traits::FromWithCtx<PikeStringRef> for PikeString {
    open spec fn from_pre(t: PikeStringRef, m: crate::interpreter::CtxModel) -> bool {
        true
    }

    open spec fn from_post(
        t: PikeStringRef,
        pre: crate::interpreter::CtxModel,
        post: crate::interpreter::CtxModel,
        r: Self,
    ) -> bool {
        r.string_ref == t && post == pre
    }

    /// Binds the handle as its first-class wrapper; the handle's increment
    /// transfers, so nothing on the heap changes.
    fn from_with_ctx(t: PikeStringRef, ctx: &mut PikeContext) -> (r: Self) {
        PikeString::from_ref(t)
    }
}

impl crate::traits::FromWithCtx<String> for PikeString {
    open spec fn from_pre(t: String, m: crate::interpreter::CtxModel) -> bool {
        true
    }

    open spec fn from_post(
        t: String,
        pre: crate::interpreter::CtxModel,
        post: crate::interpreter::CtxModel,
        r: Self,
    ) -> bool {
        &&& post == pre.with_heap(
            alloc_model(pre.heap, PIKE_T_STRING, DataModel::Text(vstd::utf8::encode_utf8(t@))),
        )
        &&& r.string_ref.id == pre.heap.len()
    }

    /// Allocates a foreign string holding the UTF-8 encoding of the text.
    fn from_with_ctx(t: String, ctx: &mut PikeContext) -> (r: Self) {
        PikeString::from_str_slice(t.as_str(), ctx)
    }
}

} // verus!
