use pike::heap::ObjData;
use pike::interpreter::{PikeContext, RefOp};
use pike::pike_array::PikeArrayRef;
use pike::svalue::PIKE_T_ARRAY;
use pike::traits::{CloneWithCtx, Refcounted};

#[test]
fn clone_increments_and_drop_decrements() {
    let mut ctx = PikeContext::acquire();
    let id = ctx.heap_allocate(PIKE_T_ARRAY, ObjData::Elems(Vec::new()));
    assert_eq!(ctx.heap_refs(id), 1);

    let h = PikeArrayRef::new_without_ref(id);
    let h2 = h.clone_with_ctx(&mut ctx);
    let h3 = h2.clone_with_ctx(&mut ctx);
    assert_eq!(ctx.heap_refs(id), 3);

    h3.drop_with_ctx(&mut ctx);
    assert_eq!(ctx.heap_refs(id), 2);
    h2.drop_with_ctx(&mut ctx);
    h.drop_with_ctx(&mut ctx);
    assert_eq!(ctx.heap_refs(id), 0);
    assert!(!ctx.heap_is_live(id));
}

#[test]
fn refcount_conservation_over_op_runs() {
    // Refcount after a run of clones and drops equals refcount before,
    // plus clones, minus drops.
    let mut ctx = PikeContext::acquire();
    let a = ctx.heap_allocate(PIKE_T_ARRAY, ObjData::Elems(Vec::new()));
    let b = ctx.heap_allocate(PIKE_T_ARRAY, ObjData::Elems(Vec::new()));

    let ops = vec![
        RefOp::TakeRef(a),
        RefOp::TakeRef(b),
        RefOp::TakeRef(a),
        RefOp::DropRef(a),
        RefOp::TakeRef(a),
        RefOp::DropRef(b),
    ];
    ctx.run_ref_ops(&ops);
    // a: 1 + 3 - 1 = 3; b: 1 + 1 - 1 = 1.
    assert_eq!(ctx.heap_refs(a), 3);
    assert_eq!(ctx.heap_refs(b), 1);
    assert!(ctx.heap_is_live(a));
    assert!(ctx.heap_is_live(b));
}

#[test]
fn from_ptr_adopts_without_increment() {
    let mut ctx = PikeContext::acquire();
    let id = ctx.heap_allocate(PIKE_T_ARRAY, ObjData::Elems(Vec::new()));
    let h = PikeArrayRef::from_ptr(id);
    assert_eq!(ctx.heap_refs(id), 1);
    assert_eq!(h.as_mut_ptr(), id);
    let h2 = PikeArrayRef::from_ptr_add_ref(id, &mut ctx);
    assert_eq!(ctx.heap_refs(id), 2);
    assert_eq!(h2.as_mut_ptr(), id);
}

#[test]
fn call_with_context_runs_over_a_fresh_session() {
    let n = pike::interpreter::PikeContext::call_with_context(|mut ctx| {
        let id = ctx.heap_allocate(PIKE_T_ARRAY, ObjData::Elems(Vec::new()));
        ctx.heap_refs(id)
    });
    assert_eq!(n, 1);
}
