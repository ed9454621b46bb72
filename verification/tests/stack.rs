use pike::heap::ObjData;
use pike::interpreter::PikeContext;
use pike::pike_int::PikeInt;
use pike::pike_thing::PikeThing;
use pike::pike_str::PikeStringRef;
use pike::svalue::PIKE_T_STRING;

#[test]
fn push_pop_round_trip_int() {
    let mut ctx = PikeContext::acquire();
    let before = ctx.stack_len();
    ctx.push_to_stack(PikeThing::Int(PikeInt::new(77)));
    let back = ctx.pop_from_stack();
    // Observably equal: same variant, same payload; stack pointer restored.
    assert_eq!(back, PikeThing::Int(PikeInt::new(77)));
    assert_eq!(ctx.stack_len(), before);
}

#[test]
fn push_pop_round_trip_string_handle() {
    let mut ctx = PikeContext::acquire();
    let id = ctx.heap_allocate(PIKE_T_STRING, ObjData::Text(b"hi".to_vec()));
    let before = ctx.stack_len();
    ctx.push_to_stack(PikeThing::PikeString(PikeStringRef::new_without_ref(id)));
    // The increment travels with the value: pushing is a transfer, not a
    // copy.
    assert_eq!(ctx.heap_refs(id), 1);
    let back = ctx.pop_from_stack();
    assert_eq!(back, PikeThing::PikeString(PikeStringRef::new_without_ref(id)));
    assert_eq!(ctx.stack_len(), before);
    assert_eq!(ctx.heap_refs(id), 1);
}

#[test]
fn push_pop_round_trip_undefined() {
    let mut ctx = PikeContext::acquire();
    ctx.push_to_stack(PikeThing::Undefined);
    assert_eq!(ctx.pop_from_stack(), PikeThing::Undefined);
}

#[test]
fn get_from_stack_peeks_and_increments() {
    let mut ctx = PikeContext::acquire();
    let id = ctx.heap_allocate(PIKE_T_STRING, ObjData::Text(b"s".to_vec()));
    ctx.push_to_stack(PikeThing::Int(PikeInt::new(1)));
    ctx.push_to_stack(PikeThing::PikeString(PikeStringRef::new_without_ref(id)));
    ctx.push_to_stack(PikeThing::Int(PikeInt::new(3)));

    let peeked = ctx.get_from_stack(-2);
    assert_eq!(peeked, PikeThing::PikeString(PikeStringRef::new_without_ref(id)));
    // The slot keeps its own reference; the peek took a fresh one.
    assert_eq!(ctx.heap_refs(id), 2);
    // Nothing was popped.
    assert_eq!(ctx.stack_len(), 3);
}

#[test]
fn pop_n_elems_releases_discarded_slots() {
    let mut ctx = PikeContext::acquire();
    let id = ctx.heap_allocate(PIKE_T_STRING, ObjData::Text(b"s".to_vec()));
    ctx.push_to_stack(PikeThing::Int(PikeInt::new(1)));
    ctx.push_to_stack(PikeThing::PikeString(PikeStringRef::new_without_ref(id)));
    ctx.push_to_stack(PikeThing::Int(PikeInt::new(3)));

    ctx.pop_n_elems(2);
    assert_eq!(ctx.stack_len(), 1);
    // The discarded string slot gave up its reference; the object was
    // reclaimed at count zero.
    assert_eq!(ctx.heap_refs(id), 0);
    assert!(!ctx.heap_is_live(id));
    assert_eq!(ctx.pop_from_stack(), PikeThing::Int(PikeInt::new(1)));
}
