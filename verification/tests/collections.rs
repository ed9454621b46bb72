use pike::heap::ObjData;
use pike::interpreter::PikeContext;
use pike::pike_array::{PikeArray, PikeArrayRef};
use pike::pike_int::PikeInt;
use pike::pike_mapping::PikeMapping;
use pike::pike_multiset::{PikeMultiset, PikeMultisetRef};
use pike::pike_str::{PikeString, PikeStringRef};
use pike::pike_thing::PikeThing;
use pike::traits::{FromWithCtx, IntoWithCtx};
use pike::svalue::{Payload, svalue, PIKE_T_INT, PIKE_T_MULTISET, PIKE_T_STRING};

fn int_thing(i: i64) -> PikeThing {
    PikeThing::Int(PikeInt::new(i))
}

#[test]
fn array_append_len_get() {
    let mut ctx = PikeContext::acquire();
    let mut a = PikeArray::with_capacity(8, &mut ctx);
    assert_eq!(a.len(&ctx), 0);
    a.append(int_thing(10), &mut ctx);
    a.append(int_thing(20), &mut ctx);
    assert_eq!(a.len(&ctx), 2);
    assert_eq!(a.get(0, &mut ctx), int_thing(10));
    assert_eq!(a.get(1, &mut ctx), int_thing(20));
}

#[test]
fn array_with_size_holds_zero_ints() {
    let mut ctx = PikeContext::acquire();
    let a = PikeArray::with_size(3, &mut ctx);
    assert_eq!(a.len(&ctx), 3);
    assert_eq!(a.get(2, &mut ctx), int_thing(0));
}

#[test]
fn array_aggregates_the_stack_in_order() {
    let mut ctx = PikeContext::acquire();
    ctx.push_to_stack(int_thing(1));
    ctx.push_to_stack(int_thing(2));
    ctx.push_to_stack(int_thing(3));
    let a = PikeArray::aggregate_from_stack(2, &mut ctx);
    assert_eq!(ctx.stack_len(), 1);
    assert_eq!(a.len(&ctx), 2);
    assert_eq!(a.get(0, &mut ctx), int_thing(2));
    assert_eq!(a.get(1, &mut ctx), int_thing(3));
}

#[test]
fn array_iterator_walks_all_elements() {
    let mut ctx = PikeContext::acquire();
    let mut a = PikeArray::with_capacity(0, &mut ctx);
    a.append(int_thing(5), &mut ctx);
    a.append(int_thing(6), &mut ctx);
    let id = a.array_ref.id;
    let mut it = a.into_iter();
    assert_eq!(it.next(&mut ctx), Some(int_thing(5)));
    assert_eq!(it.next(&mut ctx), Some(int_thing(6)));
    assert_eq!(it.next(&mut ctx), None);
    assert_eq!(it.array, PikeArrayRef::new_without_ref(id));
}

#[test]
fn mapping_insert_fresh_and_replace() {
    let mut ctx = PikeContext::acquire();
    let m = PikeMapping::with_capacity(4, &mut ctx);
    m.insert(int_thing(1), int_thing(100), &mut ctx);
    m.insert(int_thing(2), int_thing(200), &mut ctx);
    assert_eq!(m.len(&ctx), 2);

    // Replacing under an existing key keeps one entry and releases the
    // replaced value's reference.
    let sid = ctx.heap_allocate(PIKE_T_STRING, ObjData::Text(b"old".to_vec()));
    m.insert(int_thing(3), PikeThing::PikeString(PikeStringRef::new_without_ref(sid)), &mut ctx);
    assert_eq!(m.len(&ctx), 3);
    assert_eq!(ctx.heap_refs(sid), 1);
    m.insert(int_thing(3), int_thing(300), &mut ctx);
    assert_eq!(m.len(&ctx), 3);
    assert_eq!(ctx.heap_refs(sid), 0);
    assert!(!ctx.heap_is_live(sid));

    let mut it = m.into_iter();
    assert_eq!(it.next(&mut ctx), Some((int_thing(1), int_thing(100))));
    assert_eq!(it.next(&mut ctx), Some((int_thing(2), int_thing(200))));
    assert_eq!(it.next(&mut ctx), Some((int_thing(3), int_thing(300))));
    assert_eq!(it.next(&mut ctx), None);
}

#[test]
fn mapping_aggregates_key_value_runs() {
    let mut ctx = PikeContext::acquire();
    ctx.push_to_stack(int_thing(1));
    ctx.push_to_stack(int_thing(10));
    ctx.push_to_stack(int_thing(2));
    ctx.push_to_stack(int_thing(20));
    let m = PikeMapping::aggregate_from_stack(4, &mut ctx);
    assert_eq!(ctx.stack_len(), 0);
    assert_eq!(m.len(&ctx), 2);
}

#[test]
fn multiset_len_and_is_empty() {
    let mut ctx = PikeContext::acquire();
    let zero = svalue { kind: PIKE_T_INT, subkind: 0, payload: Payload::Int(4) };
    let id = ctx.heap_allocate(PIKE_T_MULTISET, ObjData::Elems(vec![zero]));
    let ms = PikeMultiset::from_ref(PikeMultisetRef::new_without_ref(id));
    assert_eq!(ms.len(&ctx), 1);
    assert!(!ms.is_empty(&ctx));

    let empty_id = ctx.heap_allocate(PIKE_T_MULTISET, ObjData::Elems(Vec::new()));
    let empty = PikeMultiset::from_ref(PikeMultisetRef::new_without_ref(empty_id));
    assert!(empty.is_empty(&ctx));
    let mut it = ms.into_iter();
    assert_eq!(it.next(&mut ctx), Some(int_thing(4)));
    assert_eq!(it.next(&mut ctx), None);
}

#[test]
fn strings_keep_their_bytes() {
    let mut ctx = PikeContext::acquire();
    let s = PikeString::from_str_slice("héllo", &mut ctx);
    assert_eq!(s.bytes(&ctx), "héllo".as_bytes().to_vec());
    assert_eq!(s.len(&ctx), "héllo".len());

    let b = PikeString::from_vec(vec![0u8, 255u8, 10u8], &mut ctx);
    assert_eq!(b.bytes(&ctx), vec![0u8, 255u8, 10u8]);

    let c = PikeString::from_vec_slice(&[1u8, 2u8], &mut ctx);
    assert_eq!(c.len(&ctx), 2);
}

#[test]
fn handle_unwrap_binds_the_wrapper() {
    let mut ctx = PikeContext::acquire();
    let a = PikeArray::with_capacity(1, &mut ctx);
    let id = a.array_ref.id;
    let rebound = PikeArrayRef::new_without_ref(id).unwrap();
    assert_eq!(rebound.len(&ctx), 0);
}

#[test]
fn string_from_with_ctx_conversion() {
    let mut ctx = PikeContext::acquire();
    let s = PikeString::from_with_ctx(String::from("abc"), &mut ctx);
    assert_eq!(s.bytes(&ctx), b"abc".to_vec());
    let t: PikeString = String::from("xy").into_with_ctx(&mut ctx);
    assert_eq!(t.len(&ctx), 2);
}

#[test]
fn svalue_add_and_sub_ref() {
    let mut ctx = PikeContext::acquire();
    let id = ctx.heap_allocate(PIKE_T_STRING, ObjData::Text(b"r".to_vec()));
    let sv = svalue { kind: PIKE_T_STRING, subkind: 0, payload: Payload::Ptr(id) };
    assert_eq!(sv.add_ref(&mut ctx), Some(2));
    assert_eq!(sv.sub_ref(&mut ctx), Some(1));
    let cloned = sv.clone_with_ctx(&mut ctx);
    assert_eq!(cloned, sv);
    assert_eq!(ctx.heap_refs(id), 2);
    let plain = svalue { kind: PIKE_T_INT, subkind: 0, payload: Payload::Int(1) };
    assert_eq!(plain.add_ref(&mut ctx), None);
}

#[test]
fn mapping_aggregation_lets_a_later_duplicate_key_win() {
    let mut ctx = PikeContext::acquire();
    let sid = ctx.heap_allocate(PIKE_T_STRING, ObjData::Text(b"early".to_vec()));
    ctx.push_to_stack(int_thing(1));
    ctx.push_to_stack(PikeThing::PikeString(PikeStringRef::new_without_ref(sid)));
    ctx.push_to_stack(int_thing(2));
    ctx.push_to_stack(int_thing(20));
    ctx.push_to_stack(int_thing(1));
    ctx.push_to_stack(int_thing(111));
    let m = PikeMapping::aggregate_from_stack(6, &mut ctx);
    assert_eq!(ctx.stack_len(), 0);
    assert_eq!(m.len(&ctx), 2);
    // The earlier value under the repeated key gave up its reference.
    assert_eq!(ctx.heap_refs(sid), 0);
    assert!(!ctx.heap_is_live(sid));
    let mut it = m.into_iter();
    assert_eq!(it.next(&mut ctx), Some((int_thing(1), int_thing(111))));
    assert_eq!(it.next(&mut ctx), Some((int_thing(2), int_thing(20))));
    assert_eq!(it.next(&mut ctx), None);
}
