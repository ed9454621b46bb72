use pike::heap::ObjData;
use pike::interpreter::{drop_with_context, DeferredQueue, PikeContext};
use pike::pike_array::PikeArrayRef;
use pike::pike_str::PikeStringRef;
use pike::svalue::{PIKE_T_ARRAY, PIKE_T_STRING};

#[test]
fn drain_decrements_exactly_once_per_dropped_handle() {
    let mut ctx = PikeContext::acquire();
    let a = ctx.heap_allocate(PIKE_T_ARRAY, ObjData::Elems(Vec::new()));
    let s = ctx.heap_allocate(PIKE_T_STRING, ObjData::Text(b"x".to_vec()));
    // Three live references to `a`, one to `s`.
    ctx.heap_add_ref(a);
    ctx.heap_add_ref(a);
    assert_eq!(ctx.heap_refs(a), 3);

    // Handles dropped while no token is at hand: decrements are deferred.
    let mut queue = DeferredQueue::new();
    PikeArrayRef::new_without_ref(a).defer_drop(&mut queue);
    PikeStringRef::new_without_ref(s).defer_drop(&mut queue);
    PikeArrayRef::new_without_ref(a).defer_drop(&mut queue);
    assert_eq!(queue.len(), 3);
    // Nothing has been decremented yet.
    assert_eq!(ctx.heap_refs(a), 3);
    assert_eq!(ctx.heap_refs(s), 1);

    ctx.drain_deferred(&mut queue);
    assert_eq!(queue.len(), 0);
    // Exactly one decrement per dropped handle: no omission, no duplicate.
    assert_eq!(ctx.heap_refs(a), 1);
    assert!(ctx.heap_is_live(a));
    assert_eq!(ctx.heap_refs(s), 0);
    assert!(!ctx.heap_is_live(s));
}

#[test]
fn release_drains_before_the_lock_is_given_up() {
    let mut ctx = PikeContext::acquire();
    let a = ctx.heap_allocate(PIKE_T_ARRAY, ObjData::Elems(Vec::new()));
    ctx.heap_add_ref(a);

    let mut queue = DeferredQueue::new();
    PikeArrayRef::new_without_ref(a).defer_drop(&mut queue);

    // Handing the lock back runs the drain first; re-acquiring yields the
    // drained state unchanged.
    let guard = ctx.release(&mut queue);
    assert_eq!(queue.len(), 0);
    let ctx = guard.reacquire();
    assert_eq!(ctx.heap_refs(a), 1);
}

#[test]
fn enqueue_order_is_kept_and_drain_handles_duplicates() {
    let mut ctx = PikeContext::acquire();
    let a = ctx.heap_allocate(PIKE_T_ARRAY, ObjData::Elems(Vec::new()));
    ctx.heap_add_ref(a);
    ctx.heap_add_ref(a);

    let mut queue = DeferredQueue::new();
    drop_with_context(
        &mut queue,
        pike::interpreter::DeferredRelease { id: a, kind: PIKE_T_ARRAY },
    );
    drop_with_context(
        &mut queue,
        pike::interpreter::DeferredRelease { id: a, kind: PIKE_T_ARRAY },
    );
    drop_with_context(
        &mut queue,
        pike::interpreter::DeferredRelease { id: a, kind: PIKE_T_ARRAY },
    );
    ctx.drain_deferred(&mut queue);
    assert_eq!(ctx.heap_refs(a), 0);
    assert!(!ctx.heap_is_live(a));
}
