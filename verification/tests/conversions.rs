use pike::pike_float::PikeFloat;
use pike::pike_int::PikeInt;
use pike::pike_thing::PikeThing;
use pike::svalue::{
    Payload, svalue, NUMBER_UNDEFINED, PIKE_T_ARRAY, PIKE_T_FLOAT, PIKE_T_FREE, PIKE_T_FUNCTION,
    PIKE_T_INT, PIKE_T_STRING,
};

#[test]
fn int_round_trip() {
    let sv = svalue { kind: PIKE_T_INT, subkind: 0, payload: Payload::Int(-42) };
    let t = PikeThing::from_svalue(sv);
    assert!(matches!(t, PikeThing::Int(PikeInt { integer: -42 })));
    let back = t.into_svalue();
    assert_eq!(back, sv);
}

#[test]
fn undefined_round_trip() {
    let sv = svalue::undefined();
    assert_eq!(sv.kind, PIKE_T_INT);
    assert_eq!(sv.subkind, NUMBER_UNDEFINED);
    let t = PikeThing::from_svalue(sv);
    assert!(matches!(t, PikeThing::Undefined));
    assert_eq!(t.into_svalue(), svalue::undefined());
    assert!(matches!(PikeThing::undefined(), PikeThing::Undefined));
}

#[test]
fn float_round_trip_keeps_bits() {
    let bits = 6.25f64.to_bits();
    let sv = svalue { kind: PIKE_T_FLOAT, subkind: 0, payload: Payload::FloatBits(bits) };
    let t = PikeThing::from_svalue(sv);
    assert!(matches!(t, PikeThing::Float(PikeFloat { bits: b }) if b == bits));
    let back = t.into_svalue();
    assert_eq!(back, sv);
    assert_eq!(f64::from_bits(bits), 6.25f64);
}

#[test]
fn pointer_kinds_round_trip_without_touching_counts() {
    // Converting a raw value to a typed value and back transfers the one
    // ownership increment; the heap is never consulted, so no count moves.
    let sv = svalue { kind: PIKE_T_ARRAY, subkind: 0, payload: Payload::Ptr(7) };
    let t = PikeThing::from_svalue(sv);
    assert!(matches!(&t, PikeThing::Array(a) if a.id == 7));
    assert_eq!(t.into_svalue(), sv);

    let sv2 = svalue { kind: PIKE_T_STRING, subkind: 0, payload: Payload::Ptr(3) };
    let t2 = PikeThing::from_svalue(sv2);
    let t3 = PikeThing::from_svalue(t2.into_svalue());
    let t4 = PikeThing::from_svalue(t3.into_svalue());
    // Zero or more round trips: still exactly the one increment, carried
    // by exactly one live handle.
    assert_eq!(t4.into_svalue(), sv2);
}

#[test]
fn function_round_trip_keeps_index() {
    let sv = svalue { kind: PIKE_T_FUNCTION, subkind: 5, payload: Payload::Ptr(2) };
    let t = PikeThing::from_svalue(sv);
    match &t {
        PikeThing::Function(f) => {
            assert_eq!(f.object_ptr(), 2);
            assert_eq!(f.function_index(), 5);
        },
        other => panic!("wrong variant: {:?}", other),
    }
    assert_eq!(t.into_svalue(), sv);
}

#[test]
fn refcounted_type_mask() {
    let int_sv = svalue { kind: PIKE_T_INT, subkind: 0, payload: Payload::Int(0) };
    assert!(!int_sv.refcounted_type());
    let float_sv = svalue { kind: PIKE_T_FLOAT, subkind: 0, payload: Payload::FloatBits(0) };
    assert!(!float_sv.refcounted_type());
    let arr_sv = svalue { kind: PIKE_T_ARRAY, subkind: 0, payload: Payload::Ptr(0) };
    assert!(arr_sv.refcounted_type());
    let str_sv = svalue { kind: PIKE_T_STRING, subkind: 0, payload: Payload::Ptr(0) };
    assert!(str_sv.refcounted_type());
}

#[test]
fn mark_free_overwrites_the_tag() {
    let mut sv = svalue { kind: PIKE_T_INT, subkind: 0, payload: Payload::Int(9) };
    sv.mark_free();
    assert_eq!(sv.kind, PIKE_T_FREE);
    assert_eq!(sv.payload, Payload::Int(9));
}

#[test]
fn plain_conversions() {
    assert_eq!(PikeInt::from(8i64), PikeInt::new(8));
    assert_eq!(i64::from(PikeInt::new(-3)), -3i64);
    assert_eq!(PikeThing::from(4i64), PikeThing::Int(PikeInt::new(4)));
    assert_eq!(PikeThing::from(()), PikeThing::Undefined);
}
