//! Handle and first-class wrapper for foreign mapping objects.

use vstd::prelude::*;

use crate::heap::{
    alloc_model, keys_unique, obj_data, obj_kind, obj_live, obj_refs, release_model,
    set_data_model, DataModel, ObjData, ObjModel,
};
use crate::interpreter::{
    can_release_svals, can_release_svals_fwd, drop_with_context, release_svals_fwd_model,
    release_svals_model, DeferredQueue, DeferredRelease, PikeContext,
};
use crate::pike_thing::{sval_of_thing, PikeThing};
use crate::svalue::{svalue, PIKE_T_MAPPING};
use crate::traits::{CloneWithCtx, Refcounted};

verus! {

/// A handle owning one refcount increment on a foreign mapping object.
#[derive(Debug, PartialEq, Eq)]
pub struct PikeMappingRef {
    /// Heap id of the object: the model's stand-in for the raw pointer.
    pub id: usize,
}

impl CloneWithCtx for PikeMappingRef {
    open spec fn rc_target(&self) -> usize {
        self.id
    }

    open spec fn same_ref(&self, other: &Self) -> bool {
        self.id == other.id
    }

    fn clone_with_ctx(&self, ctx: &mut PikeContext) -> (r: Self) {
        ctx.heap_add_ref(self.id);
        PikeMappingRef { id: self.id }
    }
}

impl Refcounted for PikeMappingRef {
    open spec fn id_spec(&self) -> usize {
        self.id
    }

    fn from_ptr(id: usize) -> (r: Self) {
        PikeMappingRef { id }
    }

    fn from_ptr_add_ref(id: usize, ctx: &mut PikeContext) -> (r: Self) {
        ctx.heap_add_ref(id);
        PikeMappingRef { id }
    }

    fn as_mut_ptr(&self) -> (id: usize) {
        self.id
    }
}

impl PikeMappingRef {
    /// Takes a fresh increment on object `id` and wraps it.
    pub fn new(id: usize, ctx: &mut PikeContext) -> (r: Self)
        requires
            obj_live(old(ctx)@.heap, id),
            obj_refs(old(ctx)@.heap, id) < u64::MAX,
        ensures
            final(ctx)@ == old(ctx)@.with_heap(crate::heap::add_ref_model(old(ctx)@.heap, id)),
            r.id == id,
    {
        Self::from_ptr_add_ref(id, ctx)
    }

    /// Adopts an increment the caller already owns: no count change.
    pub fn new_without_ref(id: usize) -> (r: Self)
        ensures
            r.id == id,
    {
        PikeMappingRef { id }
    }

    /// Duplicates the handle under a context token, taking one more
    /// reference.  The regular `Clone` trait deliberately does not exist:
    /// cloning needs the lock.
    pub fn clone(&self, ctx: &mut PikeContext) -> (r: Self)
        requires
            obj_live(old(ctx)@.heap, self.id),
            obj_refs(old(ctx)@.heap, self.id) < u64::MAX,
        ensures
            final(ctx)@ == old(ctx)@.with_heap(
                crate::heap::add_ref_model(old(ctx)@.heap, self.id),
            ),
            r.id == self.id,
    {
        self.clone_with_ctx(ctx)
    }

    /// Binds the handle as its first-class wrapper for lock-held work; the
    /// increment transfers.
    pub fn unwrap(self) -> (r: PikeMapping)
        ensures
            r.mapping_ref == self,
    {
        PikeMapping { mapping_ref: self }
    }

    /// Relinquishes the handle, with or without the lock: its increment
    /// transfers to a release record on the deferred queue, to be executed
    /// once a context token is at hand.  Models the handle's drop, which
    /// must never touch the count itself.
    pub fn defer_drop(self, queue: &mut DeferredQueue)
        ensures
            final(queue)@ =~= old(queue)@.push(
                DeferredRelease { id: self.id, kind: PIKE_T_MAPPING },
            ),
    {
        drop_with_context(queue, DeferredRelease { id: self.id, kind: PIKE_T_MAPPING });
    }

    /// Releases the handle's increment immediately, under the lock.
    pub fn drop_with_ctx(self, ctx: &mut PikeContext)
        requires
            obj_live(old(ctx)@.heap, self.id),
            obj_refs(old(ctx)@.heap, self.id) >= 1,
        ensures
            final(ctx)@ == old(ctx)@.with_heap(release_model(old(ctx)@.heap, self.id)),
    {
        ctx.heap_release(self.id);
    }
}


/// The object `id` is a live mapping.
pub open spec fn is_mapping(heap: Seq<ObjModel>, id: usize) -> bool {
    obj_live(heap, id) && obj_kind(heap, id) == PIKE_T_MAPPING && obj_data(heap, id) is Pairs
}

/// The entries of mapping `id`.
pub open spec fn pairs_of(heap: Seq<ObjModel>, id: usize) -> Seq<(svalue, svalue)> {
    obj_data(heap, id)->Pairs_0
}

/// Some entry carries key `k`.
pub open spec fn has_key(ps: Seq<(svalue, svalue)>, k: svalue) -> bool {
    exists|i: int| 0 <= i < ps.len() && ps[i].0 == k
}

/// The index of the entry carrying key `k`.
pub open spec fn key_index(ps: Seq<(svalue, svalue)>, k: svalue) -> int {
    choose|i: int| 0 <= i < ps.len() && ps[i].0 == k
}

/// The entries as the run of raw values an aggregation consumes: key,
/// value, key, value ...
pub open spec fn pairs_from(svs: Seq<svalue>) -> Seq<(svalue, svalue)> {
    Seq::new(svs.len() / 2, |i: int| (svs[2 * i], svs[2 * i + 1]))
}

/// One entry folded into an entry run: an existing entry under the same
/// key keeps its stored key and takes the new value; otherwise the entry
/// is appended.
pub open spec fn insert_pair(
    ps: Seq<(svalue, svalue)>,
    kv: (svalue, svalue),
) -> Seq<(svalue, svalue)> {
    if has_key(ps, kv.0) {
        ps.update(key_index(ps, kv.0), (ps[key_index(ps, kv.0)].0, kv.1))
    } else {
        ps.push(kv)
    }
}

/// The entries an aggregation yields: each key/value pair folded in order,
/// a later entry under a repeated key winning.
pub open spec fn agg_pairs(kvs: Seq<(svalue, svalue)>) -> Seq<(svalue, svalue)>
    decreases kvs.len(),
{
    if kvs.len() == 0 {
        Seq::empty()
    } else {
        insert_pair(agg_pairs(kvs.drop_last()), kvs.last())
    }
}

/// The references an aggregation gives up: for each repeated key, the
/// replaced value's and the surplus incoming key's, in processing order.
pub open spec fn agg_releases(kvs: Seq<(svalue, svalue)>) -> Seq<svalue>
    decreases kvs.len(),
{
    if kvs.len() == 0 {
        Seq::empty()
    } else {
        let prev = agg_pairs(kvs.drop_last());
        let kv = kvs.last();
        agg_releases(kvs.drop_last()) + (if has_key(prev, kv.0) {
            seq![prev[key_index(prev, kv.0)].1, kv.0]
        } else {
            Seq::empty()
        })
    }
}

/// Folding one entry into a uniquely-keyed run keeps the keys unique.
proof fn lemma_insert_pair_unique(ps: Seq<(svalue, svalue)>, kv: (svalue, svalue))
    requires
        keys_unique(ps),
    ensures
        keys_unique(insert_pair(ps, kv)),
{
    if has_key(ps, kv.0) {
        let ki = key_index(ps, kv.0);
        let updated = ps.update(ki, (ps[ki].0, kv.1));
        assert forall|a: int, b: int| 0 <= a < b < updated.len() implies updated[a].0
            != updated[b].0 by {
            assert(updated[a].0 == ps[a].0);
            assert(updated[b].0 == ps[b].0);
        }
    } else {
        let pushed = ps.push(kv);
        assert forall|a: int, b: int| 0 <= a < b < pushed.len() implies pushed[a].0
            != pushed[b].0 by {
            if b < ps.len() {
            } else {
                assert(pushed[b] == kv);
                assert(pushed[a] == ps[a]);
                assert(!has_key(ps, kv.0));
                assert(ps[a].0 != kv.0);
            }
        }
    }
}

/// The entries an aggregation yields carry pairwise distinct keys.
proof fn lemma_agg_pairs_unique(kvs: Seq<(svalue, svalue)>)
    ensures
        keys_unique(agg_pairs(kvs)),
    decreases kvs.len(),
{
    if kvs.len() > 0 {
        lemma_agg_pairs_unique(kvs.drop_last());
        lemma_insert_pair_unique(agg_pairs(kvs.drop_last()), kvs.last());
    }
}

/// First-class mapping wrapper, used while the lock is held.
#[derive(Debug, PartialEq, Eq)]
pub struct PikeMapping {
    /// The underlying handle.
    pub mapping_ref: PikeMappingRef,
}

impl PikeMapping {
    /// Wraps an existing handle.
    pub fn from_ref(mapping_ref: PikeMappingRef) -> (r: Self)
        ensures
            r.mapping_ref == mapping_ref,
    {
        PikeMapping { mapping_ref }
    }

    /// Allocates an empty mapping (the size is a foreign allocator hint
    /// that the model does not track).
    pub fn with_capacity(size: usize, ctx: &mut PikeContext) -> (r: Self)
        ensures
            final(ctx)@ == old(ctx)@.with_heap(
                alloc_model(old(ctx)@.heap, PIKE_T_MAPPING, DataModel::Pairs(Seq::empty())),
            ),
            r.mapping_ref.id == old(ctx)@.heap.len(),
    {
        let id = ctx.heap_allocate(PIKE_T_MAPPING, ObjData::Pairs(Vec::new()));
        PikeMapping { mapping_ref: PikeMappingRef { id } }
    }

    /// Aggregates the top `num_entries` stack slots — alternating keys and
    /// values, in stack order — into a fresh mapping; their increments
    /// transfer into the mapping.  A later entry under a repeated key wins:
    /// the earlier value's reference and the surplus incoming key's are
    /// given up, as [`agg_releases`] lists them.
    pub fn aggregate_from_stack(num_entries: usize, ctx: &mut PikeContext) -> (r: Self)
        requires
            num_entries % 2 == 0,
            num_entries <= old(ctx)@.stack.len(),
            can_release_svals_fwd(
                old(ctx)@.heap,
                agg_releases(
                    pairs_from(old(ctx)@.stack.skip(old(ctx)@.stack.len() - num_entries as int)),
                ),
            ),
        ensures
            ({
                let chunked = pairs_from(
                    old(ctx)@.stack.skip(old(ctx)@.stack.len() - num_entries as int),
                );
                &&& final(ctx)@ == old(ctx)@.with_stack(
                    old(ctx)@.stack.take(old(ctx)@.stack.len() - num_entries as int),
                ).with_heap(
                    alloc_model(
                        release_svals_fwd_model(old(ctx)@.heap, agg_releases(chunked)),
                        PIKE_T_MAPPING,
                        DataModel::Pairs(agg_pairs(chunked)),
                    ),
                )
                &&& r.mapping_ref.id == old(ctx)@.heap.len()
                &&& keys_unique(agg_pairs(chunked))
            }),
    {
        let run = ctx.take_stack_suffix(num_entries);
        let ghost chunks = pairs_from(run@);
        let half = num_entries / 2;

        // Fold the entries, later entry under a repeated key winning, and
        // collect the references the fold gives up.
        let mut pairs: Vec<(svalue, svalue)> = Vec::new();
        let mut freed: Vec<svalue> = Vec::new();
        let mut i: usize = 0;
        while i < half
            invariant
                i <= half,
                half == num_entries / 2,
                run@.len() == num_entries,
                chunks == pairs_from(run@),
                chunks.len() == half,
                pairs@ == agg_pairs(chunks.take(i as int)),
                freed@ == agg_releases(chunks.take(i as int)),
                keys_unique(pairs@),
            decreases half - i,
        {
            let ghost done = chunks.take(i as int);
            let k = run[2 * i];
            let v = run[2 * i + 1];
            proof {
                assert(chunks.take((i as int) + 1).drop_last() =~= done);
                assert(chunks.take((i as int) + 1).last() == chunks[i as int]);
                assert(chunks[i as int] == (k, v));
                lemma_agg_pairs_unique(done);
            }

            // Look for an entry already carrying this key.
            let n = pairs.len();
            let mut fi: usize = 0;
            let mut found = false;
            while fi < n && !found
                invariant
                    fi <= n,
                    n == pairs@.len(),
                    found ==> fi < n && pairs@[fi as int].0 == k,
                    !found ==> forall|j: int| 0 <= j < fi ==> pairs@[j].0 != k,
                decreases n - fi, (if found { 0int } else { 1int }),
            {
                let pk = pairs[fi].0;
                if pk == k {
                    found = true;
                } else {
                    fi = fi + 1;
                }
            }

            if found {
                proof {
                    assert(has_key(pairs@, k));
                    assert(key_index(pairs@, k) == fi as int) by {
                        let ki = key_index(pairs@, k);
                        assert(0 <= ki < pairs@.len() && pairs@[ki].0 == k);
                        assert(keys_unique(pairs@));
                    }
                }
                let old_v = pairs[fi].1;
                let stored = pairs.remove(fi);
                pairs.insert(fi, (stored.0, v));
                freed.push(old_v);
                freed.push(k);
                proof {
                    let folded = agg_pairs(done);
                    assert(old_v == folded[key_index(folded, k)].1);
                    assert(pairs@ =~= insert_pair(folded, (k, v)));
                    assert(freed@ =~= agg_releases(done) + seq![old_v, k]);
                    assert(freed@ =~= agg_releases(chunks.take((i as int) + 1)));
                    lemma_insert_pair_unique(folded, (k, v));
                }
            } else {
                proof {
                    assert(!has_key(pairs@, k));
                }
                pairs.push((k, v));
                proof {
                    assert(pairs@ =~= insert_pair(agg_pairs(done), (k, v)));
                    assert(freed@ =~= agg_releases(done) + Seq::<svalue>::empty());
                    assert(freed@ =~= agg_releases(chunks.take((i as int) + 1)));
                    lemma_insert_pair_unique(agg_pairs(done), (k, v));
                }
            }
            i = i + 1;
        }
        proof {
            assert(chunks.take(half as int) =~= chunks);
        }

        // Give up the folded-away references, then materialise the mapping.
        ctx.release_values(&freed);
        proof {
            crate::interpreter::lemma_release_fwd_len(old(ctx)@.heap, freed@);
            lemma_agg_pairs_unique(chunks);
        }
        let id = ctx.heap_allocate(PIKE_T_MAPPING, ObjData::Pairs(pairs));
        PikeMapping { mapping_ref: PikeMappingRef { id } }
    }

    /// Number of entries.
    pub fn len(&self, ctx: &PikeContext) -> (n: usize)
        requires
            is_mapping(ctx@.heap, self.mapping_ref.id),
        ensures
            n == pairs_of(ctx@.heap, self.mapping_ref.id).len(),
    {
        match ctx.heap_data(self.mapping_ref.id) {
            ObjData::Pairs(v) => v.len(),
            _ => {
                proof {
                    assert(false);
                }
                0
            },
        }
    }

    /// Inserts an entry; the increments of both arguments transfer into the
    /// mapping.  An existing entry with the same key keeps its stored key
    /// and takes the new value: the replaced value's reference and the
    /// now-surplus incoming key's reference are released.
    pub fn insert(&self, key: PikeThing, val: PikeThing, ctx: &mut PikeContext)
        requires
            is_mapping(old(ctx)@.heap, self.mapping_ref.id),
            keys_unique(pairs_of(old(ctx)@.heap, self.mapping_ref.id)),
            ({
                let ps = pairs_of(old(ctx)@.heap, self.mapping_ref.id);
                let k = sval_of_thing(key@);
                has_key(ps, k) ==> {
                    &&& can_release_svals(old(ctx)@.heap, seq![k, ps[key_index(ps, k)].1])
                    &&& obj_live(
                        release_svals_model(old(ctx)@.heap, seq![k, ps[key_index(ps, k)].1]),
                        self.mapping_ref.id,
                    )
                }
            }),
        ensures
            ({
                let ps = pairs_of(old(ctx)@.heap, self.mapping_ref.id);
                let k = sval_of_thing(key@);
                let v = sval_of_thing(val@);
                if has_key(ps, k) {
                    let ki = key_index(ps, k);
                    final(ctx)@ == old(ctx)@.with_heap(
                        set_data_model(
                            release_svals_model(old(ctx)@.heap, seq![k, ps[ki].1]),
                            self.mapping_ref.id,
                            DataModel::Pairs(ps.update(ki, (ps[ki].0, v))),
                        ),
                    )
                } else {
                    final(ctx)@ == old(ctx)@.with_heap(
                        set_data_model(
                            old(ctx)@.heap,
                            self.mapping_ref.id,
                            DataModel::Pairs(ps.push((k, v))),
                        ),
                    )
                }
            }),
            keys_unique(pairs_of(final(ctx)@.heap, self.mapping_ref.id)),
    {
        let id = self.mapping_ref.id;
        let k_sv = key.into_svalue();
        let v_sv = val.into_svalue();
        let ghost ps = pairs_of(old(ctx)@.heap, id);

        // Find the entry carrying the key, if any.
        let n = self.len(ctx);
        let mut i: usize = 0;
        let mut found = false;
        while i < n && !found
            invariant
                is_mapping(ctx@.heap, id),
                ctx@ == old(ctx)@,
                ps == pairs_of(ctx@.heap, id),
                n == ps.len(),
                i <= n,
                found ==> i < n && ps[i as int].0 == k_sv,
                !found ==> forall|j: int| 0 <= j < i ==> ps[j].0 != k_sv,
            decreases n - i, (if found { 0int } else { 1int }),
        {
            let pk = match ctx.heap_data(id) {
                ObjData::Pairs(v) => v[i].0,
                _ => {
                    proof {
                        assert(false);
                    }
                    svalue::undefined()
                },
            };
            if pk == k_sv {
                found = true;
            } else {
                i = i + 1;
            }
        }

        if found {
            proof {
                assert(has_key(ps, k_sv));
                assert(key_index(ps, k_sv) == i as int) by {
                    let ki = key_index(ps, k_sv);
                    assert(0 <= ki < ps.len() && ps[ki].0 == k_sv);
                    assert(keys_unique(ps));
                }
            }
            // Release the replaced value's reference, then the surplus key's.
            let old_v: svalue = match ctx.heap_data(id) {
                ObjData::Pairs(v) => v[i].1,
                _ => {
                    proof {
                        assert(false);
                    }
                    svalue::undefined()
                },
            };
            let ghost run = seq![k_sv, old_v];
            let ghost released = release_svals_model(old(ctx)@.heap, run);
            let ghost mid = crate::interpreter::release_sval_model(old(ctx)@.heap, old_v);
            proof {
                assert(can_release_svals(old(ctx)@.heap, run));
                assert(run.last() == old_v);
                assert(run.drop_last() =~= seq![k_sv]);
                assert(can_release_svals(mid, seq![k_sv]));
                assert(seq![k_sv].last() == k_sv);
                assert(seq![k_sv].drop_last() =~= Seq::<svalue>::empty());
                assert(old_v.wf() && crate::interpreter::sval_held(old(ctx)@.heap, old_v));
                assert(k_sv.wf() && crate::interpreter::sval_held(mid, k_sv));
                assert(released == release_svals_model(mid, run.drop_last()));
                assert(released == release_svals_model(mid, seq![k_sv]));
                assert(release_svals_model(mid, seq![k_sv])
                    == release_svals_model(
                    crate::interpreter::release_sval_model(mid, k_sv),
                    seq![k_sv].drop_last(),
                ));
                assert(release_svals_model(
                    crate::interpreter::release_sval_model(mid, k_sv),
                    Seq::<svalue>::empty(),
                ) == crate::interpreter::release_sval_model(mid, k_sv));
                assert(released == crate::interpreter::release_sval_model(mid, k_sv));
            }
            if old_v.refcounted_type() {
                ctx.heap_release(old_v.ptr_id());
            }
            proof {
                assert(ctx@.heap =~= mid);
            }
            if k_sv.refcounted_type() {
                ctx.heap_release(k_sv.ptr_id());
            }
            proof {
                assert(ctx@.heap =~= released);
                assert(obj_live(ctx@.heap, id));
                assert(pairs_of(ctx@.heap, id) =~= ps);
            }
            let data = ctx.heap_take_data(id);
            match data {
                ObjData::Pairs(mut v) => {
                    let removed = v.remove(i);
                    v.insert(i, (removed.0, v_sv));
                    proof {
                        assert(v@ =~= ps.update(i as int, (ps[i as int].0, v_sv)));
                    }
                    ctx.heap_set_data(id, ObjData::Pairs(v));
                    proof {
                        assert(ctx@.heap =~= set_data_model(
                            released,
                            id,
                            DataModel::Pairs(ps.update(i as int, (ps[i as int].0, v_sv))),
                        ));
                        assert(keys_unique(pairs_of(ctx@.heap, id)));
                    }
                },
                _ => {
                    proof {
                        assert(false);
                    }
                },
            }
        } else {
            proof {
                assert(!has_key(ps, k_sv));
            }
            let data = ctx.heap_take_data(id);
            match data {
                ObjData::Pairs(mut v) => {
                    v.push((k_sv, v_sv));
                    proof {
                        assert(v@ =~= ps.push((k_sv, v_sv)));
                    }
                    ctx.heap_set_data(id, ObjData::Pairs(v));
                    proof {
                        assert(ctx@.heap =~= set_data_model(
                            old(ctx)@.heap,
                            id,
                            DataModel::Pairs(ps.push((k_sv, v_sv))),
                        ));
                        assert(keys_unique(pairs_of(ctx@.heap, id)));
                    }
                },
                _ => {
                    proof {
                        assert(false);
                    }
                },
            }
        }
    }
}

impl crate::traits::FromWithCtx<PikeMappingRef> for PikeMapping {
    open spec fn from_pre(t: PikeMappingRef, m: crate::interpreter::CtxModel) -> bool {
        true
    }

    open spec fn from_post(
        t: PikeMappingRef,
        pre: crate::interpreter::CtxModel,
        post: crate::interpreter::CtxModel,
        r: Self,
    ) -> bool {
        r.mapping_ref == t && post == pre
    }

    /// Binds the handle as its first-class wrapper; the handle's increment
    /// transfers, so nothing on the heap changes.
    fn from_with_ctx(t: PikeMappingRef, ctx: &mut PikeContext) -> (r: Self) {
        PikeMapping::from_ref(t)
    }
}

/// A forward iterator over a mapping's entries.
#[derive(Debug, PartialEq, Eq)]
pub struct PikeMappingIterator {
    /// The mapping being walked; the iterator owns this increment.
    pub mapping: PikeMappingRef,
    /// Index of the next entry to yield.
    pub pos: usize,
}

impl PikeMapping {
    /// Starts a forward iteration; the handle's increment transfers to the
    /// iterator.
    pub fn into_iter(self) -> (it: PikeMappingIterator)
        ensures
            it.mapping == self.mapping_ref,
            it.pos == 0,
    {
        PikeMappingIterator { mapping: self.mapping_ref, pos: 0 }
    }
}

impl PikeMappingIterator {
    /// Yields the next entry as a key/value pair, taking fresh references
    /// for both components, or `None` at the end.
    pub fn next(&mut self, ctx: &mut PikeContext) -> (t: Option<(PikeThing, PikeThing)>)
        requires
            is_mapping(old(ctx)@.heap, old(self).mapping.id),
            old(self).pos < pairs_of(old(ctx)@.heap, old(self).mapping.id).len() ==> ({
                let pair = pairs_of(old(ctx)@.heap, old(self).mapping.id)[old(self).pos as int];
                &&& pair.0.wf() && pair.1.wf()
                &&& crate::interpreter::sval_live(old(ctx)@.heap, pair.0)
                &&& crate::interpreter::sval_live(old(ctx)@.heap, pair.1)
                &&& (pair.0.spec_refcounted() ==> obj_refs(old(ctx)@.heap, pair.0.target()) + 2
                    <= u64::MAX)
                &&& (pair.1.spec_refcounted() ==> obj_refs(old(ctx)@.heap, pair.1.target()) + 2
                    <= u64::MAX)
            }),
        ensures
            final(self).mapping == old(self).mapping,
            old(self).pos < pairs_of(old(ctx)@.heap, old(self).mapping.id).len() ==> ({
                let pair = pairs_of(old(ctx)@.heap, old(self).mapping.id)[old(self).pos as int];
                &&& final(self).pos == old(self).pos + 1
                &&& t matches Some((k, v)) && k@ == crate::pike_thing::thing_of_sval(pair.0)
                    && v@ == crate::pike_thing::thing_of_sval(pair.1)
                &&& final(ctx)@ == old(ctx)@.with_heap(
                    crate::interpreter::add_sval_model(
                        crate::interpreter::add_sval_model(old(ctx)@.heap, pair.0),
                        pair.1,
                    ),
                )
            }),
            old(self).pos >= pairs_of(old(ctx)@.heap, old(self).mapping.id).len() ==> {
                &&& t is None
                &&& *final(self) == *old(self)
                &&& final(ctx)@ == old(ctx)@
            },
    {
        let m = PikeMapping { mapping_ref: PikeMappingRef { id: self.mapping.id } };
        let n = m.len(ctx);
        if self.pos < n {
            let pair = match ctx.heap_data(self.mapping.id) {
                ObjData::Pairs(v) => v[self.pos],
                _ => {
                    proof {
                        assert(false);
                    }
                    (svalue::undefined(), svalue::undefined())
                },
            };
            let k = crate::pike_thing::PikeThing::from_svalue_ref(&pair.0, ctx);
            let v = crate::pike_thing::PikeThing::from_svalue_ref(&pair.1, ctx);
            self.pos = self.pos + 1;
            Some((k, v))
        } else {
            None
        }
    }
}

} // verus!
