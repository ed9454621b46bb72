use pike::error::{prepare_error_message, CallOutcome, PikeError};
use pike::heap::ObjData;
use pike::interpreter::PikeContext;
use pike::pike_int::PikeInt;
use pike::pike_array::PikeArray;
use pike::pike_object::PikeObject;
use pike::pike_str::PikeStringRef;
use pike::pike_thing::PikeThing;
use pike::svalue::PIKE_T_STRING;

#[test]
fn thrown_boom_is_caught_with_its_description() {
    let mut ctx = PikeContext::acquire();
    ctx.catch_begin();
    prepare_error_message(&mut ctx, "boom");
    ctx.pike_error();
    let res: Result<(), PikeError> = ctx.catch_pike_error(None);
    match res {
        Err(PikeError::PikeError(desc, thrown)) => {
            assert!(desc.contains("boom"));
            assert_eq!(desc, "boom\n");
            assert!(matches!(thrown, PikeThing::PikeString(_)));
        },
        other => panic!("expected a thrown error, got {:?}", other),
    }
}

#[test]
fn normal_return_comes_back_as_ok() {
    let mut ctx = PikeContext::acquire();
    ctx.catch_begin();
    let res: Result<u32, PikeError> = ctx.catch_pike_error(Some(17));
    assert_eq!(res.unwrap(), 17);
}

#[test]
fn recovery_chain_is_restored_either_way() {
    let mut ctx = PikeContext::acquire();
    ctx.catch_begin();
    ctx.catch_begin();
    let _ok: Result<(), PikeError> = ctx.catch_pike_error(Some(()));
    prepare_error_message(&mut ctx, "x");
    ctx.pike_error();
    let _err: Result<(), PikeError> = ctx.catch_pike_error(None);
    // Both spans unlinked their recovery point: depth is back to zero, so
    // another begin/resolve pair still works.
    ctx.catch_begin();
    let again: Result<i32, PikeError> = ctx.catch_pike_error(Some(5));
    assert_eq!(again.unwrap(), 5);
}

#[test]
fn message_keeps_existing_newline() {
    let mut ctx = PikeContext::acquire();
    ctx.catch_begin();
    prepare_error_message(&mut ctx, "done\n");
    ctx.pike_error();
    let res: Result<(), PikeError> = ctx.catch_pike_error(None);
    match res {
        Err(e) => assert_eq!(e.message(), "done\n"),
        Ok(_) => panic!("expected an error"),
    }
}

#[test]
fn non_string_throw_gets_the_fallback_description() {
    let mut ctx = PikeContext::acquire();
    ctx.catch_begin();
    ctx.throw_value(PikeThing::Int(PikeInt::new(9)));
    let res: Result<(), PikeError> = ctx.catch_pike_error(None);
    match res {
        Err(PikeError::PikeError(desc, thrown)) => {
            assert_eq!(desc, "Failed to describe error");
            assert_eq!(thrown, PikeThing::Int(PikeInt::new(9)));
        },
        other => panic!("expected a thrown error, got {:?}", other),
    }
}

#[test]
fn call_func_returns_and_throws() {
    let mut ctx = PikeContext::acquire();
    let master = PikeObject::<()>::get_master(&mut ctx);

    let ok = master.call_func(
        "describe",
        Vec::new(),
        CallOutcome::Returned(PikeThing::Int(PikeInt::new(4))),
        &mut ctx,
    );
    assert_eq!(ok.unwrap(), PikeThing::Int(PikeInt::new(4)));

    let sid = ctx.heap_allocate(PIKE_T_STRING, ObjData::Text(b"bad call\n".to_vec()));
    let thrown = PikeThing::PikeString(PikeStringRef::new_without_ref(sid));
    let err = master.call_func("describe", Vec::new(), CallOutcome::Threw(thrown), &mut ctx);
    match err {
        Err(PikeError::PikeError(desc, _)) => assert_eq!(desc, "bad call\n"),
        other => panic!("expected a thrown error, got {:?}", other),
    }
}

#[test]
fn generic_error_from_plain_message() {
    let e = PikeError::from(String::from("it broke"));
    assert!(matches!(&e, PikeError::Generic(_)));
    assert_eq!(e.message(), "it broke");
}

#[test]
fn invalid_utf8_throw_gets_the_fallback_description() {
    let mut ctx = PikeContext::acquire();
    let sid = ctx.heap_allocate(PIKE_T_STRING, ObjData::Text(vec![0xffu8, 0xfe, 0x01]));
    ctx.catch_begin();
    ctx.throw_value(PikeThing::PikeString(PikeStringRef::new_without_ref(sid)));
    let res: Result<(), PikeError> = ctx.catch_pike_error(None);
    match res {
        Err(PikeError::PikeError(desc, _)) => assert_eq!(desc, "Failed to describe error"),
        other => panic!("expected a thrown error, got {:?}", other),
    }
}

#[test]
fn array_led_error_describes_through_its_leading_string() {
    let mut ctx = PikeContext::acquire();
    let sid = ctx.heap_allocate(PIKE_T_STRING, ObjData::Text(b"went wrong\n".to_vec()));
    let mut arr = PikeArray::with_capacity(2, &mut ctx);
    arr.append(PikeThing::PikeString(PikeStringRef::new_without_ref(sid)), &mut ctx);
    arr.append(PikeThing::Int(PikeInt::new(0)), &mut ctx);
    ctx.catch_begin();
    ctx.throw_value(PikeThing::Array(arr.array_ref));
    let res: Result<(), PikeError> = ctx.catch_pike_error(None);
    match res {
        Err(PikeError::PikeError(desc, thrown)) => {
            assert_eq!(desc, "went wrong\n");
            assert!(matches!(thrown, PikeThing::Array(_)));
        },
        other => panic!("expected a thrown error, got {:?}", other),
    }
}

#[test]
fn call_func_rejects_a_nul_name_up_front() {
    let mut ctx = PikeContext::acquire();
    let master = PikeObject::<()>::get_master(&mut ctx);
    let depth_before = ctx.recovery_depth();
    let res = master.call_func(
        "a\0b",
        Vec::new(),
        CallOutcome::Returned(PikeThing::Int(PikeInt::new(1))),
        &mut ctx,
    );
    match res {
        Err(PikeError::Generic(m)) => assert_eq!(m, "nul byte found in provided data"),
        other => panic!("expected a generic error, got {:?}", other),
    }
    // Nothing foreign was invoked: the interpreter state is untouched.
    assert_eq!(ctx.recovery_depth(), depth_before);
    assert_eq!(ctx.stack_len(), 0);
}
