//! The interpreter context: the capability that proves the global lock is
//! held, together with the foreign state it guards.
//!
//! The foreign runtime serialises all access to its heap and evaluation
//! stack under one global lock.  In this model the lock token *owns* that
//! state: a [`PikeContext`] holds the heap, the evaluation stack, the
//! error-recovery chain and the compiler state, so any operation on foreign
//! state necessarily goes through a `&mut PikeContext` — the type system
//! plays the role of the lock.
//!
//! Reference-count decrements triggered by handle drops may happen while no
//! token exists.  They are therefore queued in a [`DeferredQueue`] and only
//! executed by [`PikeContext::drain_deferred`], which demands the token; the
//! release path [`PikeContext::release`] drains before the lock is given up,
//! preserving the ordering the runtime requires.

use vstd::prelude::*;

use crate::heap::{
    add_ref_model, alloc_model, obj_kind, obj_live, obj_refs, release_model, set_data_model,
    DataModel, FHeap, ObjData, ObjModel,
};
use crate::svalue::{svalue, PIKE_T_OBJECT};

verus! {

/// Ghost image of the whole interpreter state guarded by the lock.
#[verifier::ext_equal]
pub struct CtxModel {
    /// The foreign heap.
    pub heap: Seq<ObjModel>,
    /// The evaluation stack, bottom first.
    pub stack: Seq<svalue>,
    /// Depth of the installed error-recovery chain.
    pub recoveries: u64,
    /// The value thrown by the most recent non-local jump, not yet caught.
    pub thrown: Option<svalue>,
    /// Heap id of the runtime's master object.
    pub master: usize,
    /// Heap id of the object of the current execution frame, if any.
    pub frame_object: Option<usize>,
    /// Heap ids of the programs under compilation, outermost first.
    pub compiler: Seq<usize>,
}

impl CtxModel {
    /// The same state with another heap.
    pub open spec fn with_heap(self, heap: Seq<ObjModel>) -> CtxModel {
        CtxModel { heap, ..self }
    }

    /// The same state with another stack.
    pub open spec fn with_stack(self, stack: Seq<svalue>) -> CtxModel {
        CtxModel { stack, ..self }
    }
}

/// A refcounted value's target is live (trivially true for primitives).
pub open spec fn sval_live(heap: Seq<ObjModel>, sv: svalue) -> bool {
    sv.spec_refcounted() ==> obj_live(heap, sv.target())
}

/// A refcounted value's target has room for one more reference.
pub open spec fn sval_room(heap: Seq<ObjModel>, sv: svalue) -> bool {
    sv.spec_refcounted() ==> obj_refs(heap, sv.target()) < u64::MAX
}

/// A refcounted value's target can give up one reference.
pub open spec fn sval_held(heap: Seq<ObjModel>, sv: svalue) -> bool {
    sv.spec_refcounted() ==> obj_live(heap, sv.target()) && obj_refs(heap, sv.target()) >= 1
}

/// The heap after taking one reference for value `sv` (no change for
/// primitives).
pub open spec fn add_sval_model(heap: Seq<ObjModel>, sv: svalue) -> Seq<ObjModel> {
    if sv.spec_refcounted() {
        add_ref_model(heap, sv.target())
    } else {
        heap
    }
}

/// The heap after giving up the reference held by value `sv`, reclaiming the
/// target if the count reaches zero (no change for primitives).
pub open spec fn release_sval_model(heap: Seq<ObjModel>, sv: svalue) -> Seq<ObjModel> {
    if sv.spec_refcounted() {
        release_model(heap, sv.target())
    } else {
        heap
    }
}

/// The heap after releasing a run of values, last value first (the order in
/// which the stack discards its top entries).
pub open spec fn release_svals_model(heap: Seq<ObjModel>, svs: Seq<svalue>) -> Seq<ObjModel>
    decreases svs.len(),
{
    if svs.len() == 0 {
        heap
    } else {
        release_svals_model(release_sval_model(heap, svs.last()), svs.drop_last())
    }
}

/// Every value of the run is well-formed and can be released in that order.
pub open spec fn can_release_svals(heap: Seq<ObjModel>, svs: Seq<svalue>) -> bool
    decreases svs.len(),
{
    svs.len() == 0 || {
        &&& svs.last().wf()
        &&& sval_held(heap, svs.last())
        &&& can_release_svals(release_sval_model(heap, svs.last()), svs.drop_last())
    }
}

/// The heap after releasing a run of values, first value first (the order
/// in which a left-to-right pass gives up the references it holds).
pub open spec fn release_svals_fwd_model(heap: Seq<ObjModel>, svs: Seq<svalue>) -> Seq<ObjModel>
    decreases svs.len(),
{
    if svs.len() == 0 {
        heap
    } else {
        release_svals_fwd_model(release_sval_model(heap, svs.first()), svs.drop_first())
    }
}

/// Every value of the run is well-formed and can be released first-first.
pub open spec fn can_release_svals_fwd(heap: Seq<ObjModel>, svs: Seq<svalue>) -> bool
    decreases svs.len(),
{
    svs.len() == 0 || {
        &&& svs.first().wf()
        &&& sval_held(heap, svs.first())
        &&& can_release_svals_fwd(release_sval_model(heap, svs.first()), svs.drop_first())
    }
}

/// A releasable first-first run never changes how many heap slots exist.
pub proof fn lemma_release_fwd_len(heap: Seq<ObjModel>, svs: Seq<svalue>)
    requires
        can_release_svals_fwd(heap, svs),
    ensures
        release_svals_fwd_model(heap, svs).len() == heap.len(),
    decreases svs.len(),
{
    if svs.len() > 0 {
        assert(release_sval_model(heap, svs.first()).len() == heap.len());
        lemma_release_fwd_len(release_sval_model(heap, svs.first()), svs.drop_first());
    }
}

/// One reference-count decrement whose execution was deferred until a
/// context token is at hand.  Carries what the kind-specific free operation
/// needs: the object and its kind.
#[derive(Clone, Copy, Debug, PartialEq, Eq, Structural)]
pub struct DeferredRelease {
    /// Heap id of the object to release.
    pub id: usize,
    /// Type tag of the object, selecting the free operation.
    pub kind: u16,
}

/// A pending decrement that may be executed once the lock is held.
pub trait DropWithContext {
    /// The heap object the decrement targets.
    spec fn target(&self) -> usize;

    /// The type tag the record was created with.
    spec fn target_kind(&self) -> u16;

    /// Performs the decrement, reclaiming the object at count zero.
    fn drop_with_context(&self, ctx: &mut PikeContext)
        requires
            obj_live(old(ctx)@.heap, self.target()),
            obj_refs(old(ctx)@.heap, self.target()) >= 1,
            obj_kind(old(ctx)@.heap, self.target()) == self.target_kind(),
        ensures
            final(ctx)@ == old(ctx)@.with_heap(release_model(old(ctx)@.heap, self.target())),
    ;
}

/// The process-wide buffer of pending decrements.
///
/// In the real runtime this is a mutex-guarded global that any thread may
/// append to without holding the interpreter lock; here it is an explicit
/// value, and the short-lived mutex is the exclusivity of `&mut`.
pub struct DeferredQueue {
    entries: Vec<DeferredRelease>,
}

impl View for DeferredQueue {
    type V = Seq<DeferredRelease>;

    closed spec fn view(&self) -> Seq<DeferredRelease> {
        self.entries@
    }
}

impl DeferredQueue {
    /// An empty queue.
    pub fn new() -> (q: Self)
        ensures
            q@ =~= Seq::<DeferredRelease>::empty(),
    {
        DeferredQueue { entries: Vec::new() }
    }

    /// Number of pending decrements.
    pub fn len(&self) -> (n: usize)
        ensures
            n == self@.len(),
    {
        self.entries.len()
    }
}

/// Appends a pending decrement to the queue.  Callable with or without a
/// context token; it never touches foreign state.
pub fn drop_with_context(queue: &mut DeferredQueue, droppable: DeferredRelease)
    ensures
        final(queue)@ =~= old(queue)@.push(droppable),
{
    queue.entries.push(droppable);
}

/// The heap after executing a run of deferred decrements, first entry first.
pub open spec fn drain_model(heap: Seq<ObjModel>, es: Seq<DeferredRelease>) -> Seq<ObjModel>
    decreases es.len(),
{
    if es.len() == 0 {
        heap
    } else {
        drain_model(release_model(heap, es.first().id), es.drop_first())
    }
}

/// Every entry of the run targets a live object holding a reference, with
/// the kind the record was created with.
pub open spec fn can_drain(heap: Seq<ObjModel>, es: Seq<DeferredRelease>) -> bool
    decreases es.len(),
{
    es.len() == 0 || {
        &&& obj_live(heap, es.first().id)
        &&& obj_refs(heap, es.first().id) >= 1
        &&& obj_kind(heap, es.first().id) == es.first().kind
        &&& can_drain(release_model(heap, es.first().id), es.drop_first())
    }
}

/// Number of entries of the run that target object `id`.
pub open spec fn drain_count(es: Seq<DeferredRelease>, id: usize) -> nat
    decreases es.len(),
{
    if es.len() == 0 {
        0
    } else {
        (if es.first().id == id { 1nat } else { 0nat }) + drain_count(es.drop_first(), id)
    }
}

/// One clone or drop performed on a handle while the lock is held.
#[derive(Clone, Copy, Debug, PartialEq, Eq, Structural)]
pub enum RefOp {
    /// A handle clone: takes one more reference to the object.
    TakeRef(usize),
    /// A handle drop executed under the lock: gives up one reference.
    DropRef(usize),
}

/// The heap after one clone or drop.
pub open spec fn apply_ref_op(heap: Seq<ObjModel>, op: RefOp) -> Seq<ObjModel> {
    match op {
        RefOp::TakeRef(id) => add_ref_model(heap, id),
        RefOp::DropRef(id) => release_model(heap, id),
    }
}

/// The heap after a run of clones and drops, first op first.
pub open spec fn apply_ref_ops(heap: Seq<ObjModel>, ops: Seq<RefOp>) -> Seq<ObjModel>
    decreases ops.len(),
{
    if ops.len() == 0 {
        heap
    } else {
        apply_ref_ops(apply_ref_op(heap, ops.first()), ops.drop_first())
    }
}

/// Every op of the run targets a live object, with room to count up for a
/// clone and a reference to give up for a drop.
pub open spec fn ref_ops_ok(heap: Seq<ObjModel>, ops: Seq<RefOp>) -> bool
    decreases ops.len(),
{
    ops.len() == 0 || {
        &&& match ops.first() {
            RefOp::TakeRef(id) => obj_live(heap, id) && obj_refs(heap, id) < u64::MAX,
            RefOp::DropRef(id) => obj_live(heap, id) && obj_refs(heap, id) >= 1,
        }
        &&& ref_ops_ok(apply_ref_op(heap, ops.first()), ops.drop_first())
    }
}

/// Number of clones of object `id` in the run.
pub open spec fn count_takes(ops: Seq<RefOp>, id: usize) -> nat
    decreases ops.len(),
{
    if ops.len() == 0 {
        0
    } else {
        (if ops.first() == RefOp::TakeRef(id) { 1nat } else { 0nat }) + count_takes(
            ops.drop_first(),
            id,
        )
    }
}

/// Number of drops of object `id` in the run.
pub open spec fn count_drops(ops: Seq<RefOp>, id: usize) -> nat
    decreases ops.len(),
{
    if ops.len() == 0 {
        0
    } else {
        (if ops.first() == RefOp::DropRef(id) { 1nat } else { 0nat }) + count_drops(
            ops.drop_first(),
            id,
        )
    }
}

/// The lock token.  Holding one is the proof that the interpreter lock is
/// held; it owns the model of all state the lock guards.
pub struct PikeContext {
    heap: FHeap,
    stack: Vec<svalue>,
    recoveries: u64,
    thrown: Option<svalue>,
    master: usize,
    frame_object: Option<usize>,
    compiler: Vec<usize>,
}

impl View for PikeContext {
    type V = CtxModel;

    closed spec fn view(&self) -> CtxModel {
        CtxModel {
            heap: self.heap@,
            stack: self.stack@,
            recoveries: self.recoveries,
            thrown: self.thrown,
            master: self.master,
            frame_object: self.frame_object,
            compiler: self.compiler@,
        }
    }
}

/// The guard standing for a span in which the lock has been handed back for
/// blocking work.  It keeps the interpreter state so nothing can touch it
/// until the lock is re-taken.
pub struct CtxReleased {
    inner: PikeContext,
}

impl View for CtxReleased {
    type V = CtxModel;

    closed spec fn view(&self) -> CtxModel {
        self.inner@
    }
}

impl CtxReleased {
    /// Re-takes the interpreter lock, ending the blocking span; models the
    /// runtime's "disallow other threads" hook that runs when the guard is
    /// dropped.
    pub fn reacquire(self) -> (ctx: PikeContext)
        ensures
            ctx@ == self@,
    {
        self.inner
    }
}

/// The interpreter state of a fresh session: only the master object exists.
pub open spec fn fresh_session() -> CtxModel {
    CtxModel {
        heap: seq![
            ObjModel {
                kind: PIKE_T_OBJECT,
                refs: 1,
                live: true,
                data: crate::heap::DataModel::Opaque,
            },
        ],
        stack: Seq::empty(),
        recoveries: 0,
        thrown: None,
        master: 0,
        frame_object: None,
        compiler: Seq::empty(),
    }
}

impl PikeContext {
    /// Enters the interpreter: acquires the lock and manufactures the one
    /// token of this session, with a fresh foreign state holding only the
    /// master object.  Models the runtime's re-entry path that the real
    /// binding reaches through its callback mechanism.
    pub fn acquire() -> (ctx: Self)
        ensures
            ctx@ == fresh_session(),
    {
        let mut heap = FHeap::new();
        let master = heap.allocate(PIKE_T_OBJECT, ObjData::Opaque);
        let ctx = PikeContext {
            heap,
            stack: Vec::new(),
            recoveries: 0,
            thrown: None,
            master,
            frame_object: None,
            compiler: Vec::new(),
        };
        proof {
            assert(ctx@.heap =~= fresh_session().heap);
            assert(ctx@ =~= fresh_session());
        }
        ctx
    }

    /// Synchronously enters the interpreter through the runtime's own
    /// callback mechanism: the lock is taken, exactly one token over a
    /// fresh session is manufactured and handed to the closure, and the
    /// closure's result comes back once the token is gone.  The only
    /// supported way to reach foreign state from outside an active foreign
    /// call frame.
    pub fn call_with_context<F, TRes>(closure: F) -> (res: TRes) where
        F: FnOnce(PikeContext) -> TRes,

        requires
            forall|c: PikeContext|
                c@ == fresh_session() ==> #[trigger] call_requires(closure, (c,)),
        ensures
            exists|c: PikeContext| c@ == fresh_session() && call_ensures(closure, (c,), res),
    {
        let ctx = PikeContext::acquire();
        let ghost c0 = ctx;
        let res = closure(ctx);
        proof {
            assert(call_ensures(closure, (c0,), res));
        }
        res
    }

    /// Executes every pending decrement in insertion order and empties the
    /// queue.  Run by the token before the lock is given up, so no count is
    /// ever mutated without the lock.
    pub fn drain_deferred(&mut self, queue: &mut DeferredQueue)
        requires
            can_drain(old(self)@.heap, old(queue)@),
        ensures
            final(queue)@ =~= Seq::<DeferredRelease>::empty(),
            final(self)@ == old(self)@.with_heap(drain_model(old(self)@.heap, old(queue)@)),
    {
        let ghost orig = self@;
        let ghost orig_entries = queue@;
        while queue.entries.len() > 0
            invariant
                can_drain(self@.heap, queue@),
                drain_model(self@.heap, queue@) == drain_model(orig.heap, orig_entries),
                self@ == orig.with_heap(self@.heap),
            decreases queue@.len(),
        {
            let ghost pre_heap = self@.heap;
            let ghost pre_entries = queue@;
            let entry = queue.entries.remove(0);
            proof {
                assert(entry == pre_entries.first());
                assert(queue@ =~= pre_entries.drop_first());
            }
            entry.drop_with_context(self);
            proof {
                assert(drain_model(pre_heap, pre_entries) == drain_model(
                    release_model(pre_heap, pre_entries.first().id),
                    pre_entries.drop_first(),
                ));
            }
        }
    }

    /// Hands the lock back for blocking work.  The token is consumed —
    /// draining the deferred queue first — and a guard is returned whose
    /// re-acquisition yields the state unchanged.  The drain strictly
    /// precedes the release, so no decrement runs unlocked.
    pub fn release(self, queue: &mut DeferredQueue) -> (guard: CtxReleased)
        requires
            can_drain(self@.heap, old(queue)@),
        ensures
            final(queue)@ =~= Seq::<DeferredRelease>::empty(),
            guard@ == self@.with_heap(drain_model(self@.heap, old(queue)@)),
    {
        let mut ctx = self;
        ctx.drain_deferred(queue);
        CtxReleased { inner: ctx }
    }

    /// Pushes a value onto the foreign evaluation stack; its ownership
    /// increment transfers into the stack slot.
    pub fn push_svalue(&mut self, sv: svalue)
        ensures
            final(self)@ == old(self)@.with_stack(old(self)@.stack.push(sv)),
    {
        self.stack.push(sv);
    }

    /// Pops the top value off the foreign evaluation stack; its ownership
    /// increment transfers to the caller.  The vacated slot is gone from the
    /// model, as the real binding overwrites it with the undefined value.
    pub fn pop_svalue(&mut self) -> (sv: svalue)
        requires
            old(self)@.stack.len() > 0,
        ensures
            sv == old(self)@.stack.last(),
            final(self)@ == old(self)@.with_stack(old(self)@.stack.drop_last()),
    {
        self.stack.pop().unwrap()
    }

    /// Reads the stack slot `pos` entries below the stack pointer (`pos` is
    /// negative; `-1` is the top) without popping it.
    pub fn peek_svalue(&self, pos: isize) -> (sv: svalue)
        requires
            isize::MIN < pos < 0,
            -pos <= self@.stack.len(),
        ensures
            sv == self@.stack[self@.stack.len() + pos],
    {
        let off = (-pos) as usize;
        self.stack[self.stack.len() - off]
    }

    /// Pops and discards `num_elems` entries from the stack, releasing the
    /// reference each slot held.
    pub fn pop_n_elems(&mut self, num_elems: usize)
        requires
            num_elems <= old(self)@.stack.len(),
            can_release_svals(
                old(self)@.heap,
                old(self)@.stack.skip(old(self)@.stack.len() - num_elems as int),
            ),
        ensures
            final(self)@ == old(self)@.with_stack(
                old(self)@.stack.take(old(self)@.stack.len() - num_elems as int),
            ).with_heap(
                release_svals_model(
                    old(self)@.heap,
                    old(self)@.stack.skip(old(self)@.stack.len() - num_elems as int),
                ),
            ),
    {
        let ghost orig = old(self)@;
        let ghost keep = orig.stack.len() - num_elems as int;
        let mut i: usize = 0;
        while i < num_elems
            invariant
                i <= num_elems,
                num_elems <= orig.stack.len(),
                keep == orig.stack.len() - num_elems as int,
                self@.stack =~= orig.stack.take(orig.stack.len() - i as int),
                can_release_svals(
                    self@.heap,
                    orig.stack.subrange(keep, orig.stack.len() - i as int),
                ),
                release_svals_model(
                    self@.heap,
                    orig.stack.subrange(keep, orig.stack.len() - i as int),
                ) == release_svals_model(orig.heap, orig.stack.skip(keep)),
                self@ == orig.with_stack(self@.stack).with_heap(self@.heap),
            decreases num_elems - i,
        {
            let ghost rem = orig.stack.subrange(keep, orig.stack.len() - i as int);
            let ghost pre_heap = self@.heap;
            let sv = self.stack.pop().unwrap();
            proof {
                assert(rem.len() > 0);
                assert(rem.last() == orig.stack[orig.stack.len() - (i as int) - 1]);
                assert(sv == rem.last());
                assert(self.stack@ =~= orig.stack.take(orig.stack.len() - (i as int) - 1));
            }
            if sv.refcounted_type() {
                let id = sv.ptr_id();
                self.heap.release(id);
            }
            proof {
                assert(self@.heap =~= release_sval_model(pre_heap, sv));
                assert(orig.stack.subrange(keep, orig.stack.len() - (i as int) - 1) =~= rem
                    .drop_last());
                assert(release_svals_model(pre_heap, rem) == release_svals_model(
                    release_sval_model(pre_heap, rem.last()),
                    rem.drop_last(),
                ));
            }
            i = i + 1;
        }
        proof {
            assert(orig.stack.subrange(keep, keep) =~= Seq::<svalue>::empty());
            assert(self@.stack =~= orig.stack.take(keep));
            assert(self@.heap == release_svals_model(orig.heap, orig.stack.skip(keep)));
            assert(self@ =~= orig.with_stack(orig.stack.take(keep)).with_heap(
                release_svals_model(orig.heap, orig.stack.skip(keep)),
            ));
        }
    }

    /// Releases a run of values in order, first value first, giving up the
    /// reference each one holds.
    pub fn release_values(&mut self, run: &Vec<svalue>)
        requires
            can_release_svals_fwd(old(self)@.heap, run@),
        ensures
            final(self)@ == old(self)@.with_heap(
                release_svals_fwd_model(old(self)@.heap, run@),
            ),
    {
        let ghost orig = old(self)@;
        proof {
            assert(run@.skip(0) =~= run@);
        }
        let mut k: usize = 0;
        while k < run.len()
            invariant
                k <= run@.len(),
                can_release_svals_fwd(self@.heap, run@.skip(k as int)),
                release_svals_fwd_model(self@.heap, run@.skip(k as int))
                    == release_svals_fwd_model(orig.heap, run@),
                self@ == orig.with_heap(self@.heap),
            decreases run@.len() - k,
        {
            let ghost rem = run@.skip(k as int);
            let ghost pre_heap = self@.heap;
            let sv = run[k];
            proof {
                assert(sv == rem.first());
                assert(run@.skip((k as int) + 1) =~= rem.drop_first());
            }
            if sv.refcounted_type() {
                let id = sv.ptr_id();
                self.heap.release(id);
            }
            proof {
                assert(self@.heap =~= release_sval_model(pre_heap, sv));
            }
            k = k + 1;
        }
        proof {
            assert(run@.skip(run@.len() as int) =~= Seq::<svalue>::empty());
        }
    }

    /// Depth of the installed error-recovery chain.
    pub fn recovery_depth(&self) -> (r: u64)
        ensures
            r == self@.recoveries,
    {
        self.recoveries
    }

    /// Whether a thrown value is waiting at the nearest recovery point.
    pub fn has_thrown(&self) -> (r: bool)
        ensures
            r == (self@.thrown is Some),
    {
        self.thrown.is_some()
    }

    /// Heap id of the master object.
    pub fn master_id(&self) -> (id: usize)
        ensures
            id == self@.master,
    {
        self.master
    }

    /// Sets the object of the current execution frame; models the frame
    /// bookkeeping the runtime performs when it enters an entry point.
    pub fn set_frame_object(&mut self, obj: Option<usize>)
        ensures
            final(self)@ == (CtxModel { frame_object: obj, ..old(self)@ }),
    {
        self.frame_object = obj;
    }

    /// Reads the stack slot at absolute index `i` (bottom is 0) without
    /// popping it.
    pub fn stack_at(&self, i: usize) -> (sv: svalue)
        requires
            i < self@.stack.len(),
        ensures
            sv == self@.stack[i as int],
    {
        self.stack[i]
    }

    /// Number of values on the evaluation stack.
    pub fn stack_len(&self) -> (n: usize)
        ensures
            n == self@.stack.len(),
    {
        self.stack.len()
    }

    /// Detaches the top `n` stack slots, in stack order; their ownership
    /// increments transfer to the returned run.
    pub fn take_stack_suffix(&mut self, n: usize) -> (run: Vec<svalue>)
        requires
            n <= old(self)@.stack.len(),
        ensures
            run@ =~= old(self)@.stack.skip(old(self)@.stack.len() - n as int),
            final(self)@ == old(self)@.with_stack(
                old(self)@.stack.take(old(self)@.stack.len() - n as int),
            ),
    {
        let at = self.stack.len() - n;
        self.stack.split_off(at)
    }

    /// Takes one more reference to a live heap object.
    pub fn heap_add_ref(&mut self, id: usize)
        requires
            obj_live(old(self)@.heap, id),
            obj_refs(old(self)@.heap, id) < u64::MAX,
        ensures
            final(self)@ == old(self)@.with_heap(add_ref_model(old(self)@.heap, id)),
    {
        self.heap.add_ref(id);
    }

    /// Gives up one reference to a live heap object, reclaiming it at zero.
    pub fn heap_release(&mut self, id: usize)
        requires
            obj_live(old(self)@.heap, id),
            obj_refs(old(self)@.heap, id) >= 1,
        ensures
            final(self)@ == old(self)@.with_heap(release_model(old(self)@.heap, id)),
    {
        self.heap.release(id);
    }

    /// Gives up one reference to a live heap object without reclaiming it.
    pub fn heap_sub_ref(&mut self, id: usize) -> (n: u64)
        requires
            obj_live(old(self)@.heap, id),
            obj_refs(old(self)@.heap, id) >= 1,
        ensures
            final(self)@ == old(self)@.with_heap(crate::heap::sub_ref_model(old(self)@.heap, id)),
            n == obj_refs(final(self)@.heap, id),
    {
        self.heap.sub_ref(id)
    }

    /// Allocates a fresh heap object with one reference.
    pub fn heap_allocate(&mut self, kind: u16, data: ObjData) -> (id: usize)
        ensures
            final(self)@ == old(self)@.with_heap(alloc_model(old(self)@.heap, kind, data@)),
            id == old(self)@.heap.len(),
            obj_live(final(self)@.heap, id),
    {
        self.heap.allocate(kind, data)
    }

    /// Number of heap slots ever allocated.
    pub fn heap_len(&self) -> (n: usize)
        ensures
            n == self@.heap.len(),
    {
        self.heap.len()
    }

    /// Reference count of an allocated heap object.
    pub fn heap_refs(&self, id: usize) -> (n: u64)
        requires
            id < self@.heap.len(),
        ensures
            n == obj_refs(self@.heap, id),
    {
        self.heap.refs(id)
    }

    /// Whether an allocated heap object is still live.
    pub fn heap_is_live(&self, id: usize) -> (r: bool)
        requires
            id < self@.heap.len(),
        ensures
            r == self@.heap[id as int].live,
    {
        self.heap.is_live(id)
    }

    /// Type tag of an allocated heap object.
    pub fn heap_kind(&self, id: usize) -> (k: u16)
        requires
            id < self@.heap.len(),
        ensures
            k == obj_kind(self@.heap, id),
    {
        self.heap.kind(id)
    }

    /// Read-only view of a heap object's contents.
    pub fn heap_data(&self, id: usize) -> (d: &ObjData)
        requires
            id < self@.heap.len(),
        ensures
            d@ == crate::heap::obj_data(self@.heap, id),
    {
        self.heap.data(id)
    }

    /// Replaces the contents of a live heap object.
    pub fn heap_set_data(&mut self, id: usize, data: ObjData)
        requires
            obj_live(old(self)@.heap, id),
        ensures
            final(self)@ == old(self)@.with_heap(set_data_model(old(self)@.heap, id, data@)),
    {
        self.heap.set_data(id, data);
    }

    /// The object of the current execution frame, if any.
    pub fn frame_object_id(&self) -> (r: Option<usize>)
        ensures
            r == self@.frame_object,
    {
        self.frame_object
    }

    /// The innermost program currently being compiled, if any.
    pub fn compiler_id(&self) -> (r: Option<usize>)
        ensures
            self@.compiler.len() == 0 ==> r is None,
            self@.compiler.len() > 0 ==> r == Some(self@.compiler.last() as usize),
    {
        if self.compiler.len() == 0 {
            None
        } else {
            Some(self.compiler[self.compiler.len() - 1])
        }
    }

    /// Depth of the compilation stack.
    pub fn compiler_depth(&self) -> (n: usize)
        ensures
            n == self@.compiler.len(),
    {
        self.compiler.len()
    }

    pub(crate) fn push_compiler_raw(&mut self, id: usize)
        ensures
            final(self)@ == (CtxModel { compiler: old(self)@.compiler.push(id), ..old(self)@ }),
    {
        self.compiler.push(id);
    }

    pub(crate) fn pop_compiler_raw(&mut self) -> (id: usize)
        requires
            old(self)@.compiler.len() > 0,
        ensures
            id == old(self)@.compiler.last(),
            final(self)@ == (CtxModel {
                compiler: old(self)@.compiler.drop_last(),
                ..old(self)@
            }),
    {
        self.compiler.pop().unwrap()
    }

    pub(crate) fn thrown_raw(&self) -> (r: Option<svalue>)
        ensures
            r == self@.thrown,
    {
        self.thrown
    }

    pub(crate) fn set_thrown_raw(&mut self, t: Option<svalue>)
        ensures
            final(self)@ == (CtxModel { thrown: t, ..old(self)@ }),
    {
        self.thrown = t;
    }

    pub(crate) fn recoveries_raw(&self) -> (r: u64)
        ensures
            r == self@.recoveries,
    {
        self.recoveries
    }

    pub(crate) fn set_recoveries_raw(&mut self, r: u64)
        ensures
            final(self)@ == (CtxModel { recoveries: r, ..old(self)@ }),
    {
        self.recoveries = r;
    }

    /// Detaches the contents of a live heap object, leaving it empty; used
    /// to edit contents in place.
    pub fn heap_take_data(&mut self, id: usize) -> (d: ObjData)
        requires
            obj_live(old(self)@.heap, id),
        ensures
            d@ == crate::heap::obj_data(old(self)@.heap, id),
            final(self)@ == old(self)@.with_heap(
                set_data_model(old(self)@.heap, id, DataModel::Opaque),
            ),
    {
        self.heap.take_data(id)
    }
}

/// Refcount conservation: a run of handle clones and drops, all performed
/// under valid context tokens, changes each object's count by exactly the
/// number of its clones minus the number of its drops.
pub proof fn lemma_refcount_conservation(heap: Seq<ObjModel>, ops: Seq<RefOp>, id: usize)
    requires
        ref_ops_ok(heap, ops),
        id < heap.len(),
    ensures
        apply_ref_ops(heap, ops).len() == heap.len(),
        apply_ref_ops(heap, ops)[id as int].refs == heap[id as int].refs + count_takes(ops, id)
            - count_drops(ops, id),
    decreases ops.len(),
{
    if ops.len() > 0 {
        let heap1 = apply_ref_op(heap, ops.first());
        lemma_refcount_conservation(heap1, ops.drop_first(), id);
    }
}

/// Deferred-drain completeness: executing the queue decrements each object
/// exactly as many times as entries target it — no omission, no duplicate —
/// and reclaims exactly the objects whose count thereby reaches zero.
pub proof fn lemma_drain_counts(heap: Seq<ObjModel>, es: Seq<DeferredRelease>, id: usize)
    requires
        can_drain(heap, es),
        id < heap.len(),
    ensures
        drain_model(heap, es).len() == heap.len(),
        drain_count(es, id) <= heap[id as int].refs,
        drain_model(heap, es)[id as int].refs == heap[id as int].refs - drain_count(es, id),
        drain_count(es, id) == 0 ==> drain_model(heap, es)[id as int] == heap[id as int],
        drain_count(es, id) > 0 ==> drain_model(heap, es)[id as int].live == (drain_model(
            heap,
            es,
        )[id as int].refs > 0),
    decreases es.len(),
{
    if es.len() > 0 {
        let heap1 = release_model(heap, es.first().id);
        lemma_drain_counts(heap1, es.drop_first(), id);
    }
}

impl DropWithContext for DeferredRelease {
    open spec fn target(&self) -> usize {
        self.id
    }

    open spec fn target_kind(&self) -> u16 {
        self.kind
    }

    /// Executes the deferred decrement: gives up the reference the dropped
    /// handle held, reclaiming the object at count zero.
    fn drop_with_context(&self, ctx: &mut PikeContext) {
        ctx.heap.release(self.id);
    }
}

impl PikeContext {
    /// Applies a run of handle clones and drops under this token.
    pub fn run_ref_ops(&mut self, ops: &Vec<RefOp>)
        requires
            ref_ops_ok(old(self)@.heap, ops@),
        ensures
            final(self)@ == old(self)@.with_heap(apply_ref_ops(old(self)@.heap, ops@)),
    {
        let ghost orig = old(self)@;
        proof {
            assert(ops@.skip(0) =~= ops@);
        }
        let mut i: usize = 0;
        while i < ops.len()
            invariant
                i <= ops@.len(),
                ref_ops_ok(self@.heap, ops@.skip(i as int)),
                apply_ref_ops(self@.heap, ops@.skip(i as int)) == apply_ref_ops(orig.heap, ops@),
                self@ == orig.with_heap(self@.heap),
            decreases ops@.len() - i,
        {
            let ghost rem = ops@.skip(i as int);
            let ghost pre_heap = self@.heap;
            let op = ops[i];
            proof {
                assert(op == rem.first());
            }
            match op {
                RefOp::TakeRef(id) => {
                    self.heap.add_ref(id);
                },
                RefOp::DropRef(id) => {
                    self.heap.release(id);
                },
            }
            proof {
                assert(self@.heap =~= apply_ref_op(pre_heap, rem.first()));
                assert(apply_ref_ops(pre_heap, rem) == apply_ref_ops(
                    apply_ref_op(pre_heap, rem.first()),
                    rem.drop_first(),
                ));
                assert(ops@.skip((i as int) + 1) =~= rem.drop_first());
            }
            i = i + 1;
        }
        proof {
            assert(ops@.skip(ops@.len() as int) =~= Seq::<RefOp>::empty());
        }
    }
}

} // verus!
