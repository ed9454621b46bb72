use pike::error::PikeError;
use pike::export::{
    descriptor, into_export, marshal_args, match_type, pike_return_type, ArgPat, Export,
    ExportArg, ExportType, FnArg, FnSig, TypeShape,
};
use pike::interpreter::PikeContext;
use pike::pike_int::PikeInt;
use pike::pike_str::PikeString;
use pike::pike_thing::PikeThing;

fn sig(inputs: Vec<FnArg>, output: Option<TypeShape>) -> FnSig {
    FnSig {
        has_lifetimes: false,
        has_generics: false,
        has_where_clause: false,
        is_variadic: false,
        inputs,
        output,
    }
}

fn int_export() -> Export {
    // An export declared with one integer argument, returning a string.
    Export {
        ident: String::from("takes_int"),
        args: vec![ExportArg { name: String::from("n"), ty: ExportType::Int }],
        return_ty: ExportType::OwnedString,
        is_constructor: false,
        struct_ty: None,
        fun: 1,
    }
}

#[test]
fn classification_follows_the_closed_table() {
    assert_eq!(match_type(&TypeShape::Named(String::from("i64"))), ExportType::Int);
    assert_eq!(match_type(&TypeShape::Named(String::from("u8"))), ExportType::Int);
    assert_eq!(match_type(&TypeShape::Named(String::from("f32"))), ExportType::Float);
    assert_eq!(match_type(&TypeShape::Named(String::from("String"))), ExportType::OwnedString);
    assert_eq!(match_type(&TypeShape::Named(String::from("PikeThing"))), ExportType::PikeThing);
    assert_eq!(match_type(&TypeShape::Named(String::from("Widget"))), ExportType::Wrapped);
    assert_eq!(
        match_type(&TypeShape::Reference(Box::new(TypeShape::Named(String::from("str"))))),
        ExportType::StrRef
    );
    assert_eq!(
        match_type(&TypeShape::Reference(Box::new(TypeShape::Named(String::from("Widget"))))),
        ExportType::WrappedRef
    );
    assert_eq!(
        match_type(&TypeShape::Reference(Box::new(TypeShape::Slice(Box::new(TypeShape::Named(
            String::from("u8")
        )))))),
        ExportType::Slice
    );
    assert_eq!(match_type(&TypeShape::Tuple(0)), ExportType::Unit);
    assert_eq!(match_type(&TypeShape::Tuple(2)), ExportType::Unknown);
    assert_eq!(
        match_type(&TypeShape::ResultOf(Box::new(TypeShape::Named(String::from("i32"))))),
        ExportType::ResultOf(Box::new(ExportType::Int))
    );
    assert_eq!(
        match_type(&TypeShape::Paren(Box::new(TypeShape::Named(String::from("f64"))))),
        ExportType::Float
    );
}

#[test]
fn signature_classification_and_rejections() {
    let ok = into_export(
        String::from("f"),
        &sig(
            vec![FnArg::Captured(
                ArgPat::Ident {
                    name: String::from("x"),
                    by_ref: false,
                    mutable: false,
                    has_subpat: false,
                },
                TypeShape::Named(String::from("i64")),
            )],
            Some(TypeShape::Named(String::from("String"))),
        ),
    )
    .unwrap();
    assert_eq!(ok.args.len(), 1);
    assert_eq!(ok.args[0].ty, ExportType::Int);
    assert_eq!(ok.return_ty, ExportType::OwnedString);

    let mut s = sig(vec![], None);
    s.has_generics = true;
    assert_eq!(into_export(String::from("f"), &s).unwrap_err(), "Generics are not supported");

    let s2 = sig(vec![FnArg::SelfValue], None);
    assert_eq!(into_export(String::from("f"), &s2).unwrap_err(), "`self` is not supported");

    let s3 = sig(
        vec![FnArg::Captured(
            ArgPat::Ident {
                name: String::from("x"),
                by_ref: false,
                mutable: true,
                has_subpat: false,
            },
            TypeShape::Named(String::from("i64")),
        )],
        None,
    );
    assert_eq!(into_export(String::from("f"), &s3).unwrap_err(), "`mut` bindings are not supported");
}

#[test]
fn descriptor_strings_are_exact() {
    assert_eq!(descriptor(&int_export()), "function(int:string)");

    let e2 = Export {
        ident: String::from("no_args"),
        args: vec![],
        return_ty: ExportType::Unit,
        is_constructor: false,
        struct_ty: None,
        fun: 2,
    };
    assert_eq!(descriptor(&e2), "function(void:void)");

    let e3 = Export {
        ident: String::from("meth"),
        args: vec![
            ExportArg { name: String::from("__self"), ty: ExportType::SelfRef },
            ExportArg { name: String::from("s"), ty: ExportType::StrRef },
            ExportArg { name: String::from("t"), ty: ExportType::PikeThing },
        ],
        return_ty: ExportType::ResultOf(Box::new(ExportType::Int)),
        is_constructor: false,
        struct_ty: Some(String::from("Widget")),
        fun: 3,
    };
    assert_eq!(descriptor(&e3), "function(string,mixed:int)");
    assert_eq!(pike_return_type(&ExportType::PikeThing), "mixed");
}

#[test]
fn wrong_number_of_arguments_is_raised() {
    // Declared with one integer argument, invoked with zero arguments.
    let mut ctx = PikeContext::acquire();
    let res = marshal_args(&int_export(), 0, &mut ctx);
    match res {
        Err(PikeError::Args(m)) => assert_eq!(m, "Wrong number of arguments"),
        other => panic!("expected an arity error, got {:?}", other),
    }
}

#[test]
fn wrong_argument_type_is_raised() {
    // Declared with one integer argument, invoked with one string argument.
    let mut ctx = PikeContext::acquire();
    let s = PikeString::from_str_slice("oops", &mut ctx);
    ctx.push_to_stack(PikeThing::PikeString(s.string_ref));
    let res = marshal_args(&int_export(), 1, &mut ctx);
    match res {
        Err(PikeError::Args(m)) => assert_eq!(m, "Wrong argument type, expected int."),
        other => panic!("expected a type error, got {:?}", other),
    }
}

#[test]
fn matching_arguments_are_marshaled() {
    let mut ctx = PikeContext::acquire();
    ctx.push_to_stack(PikeThing::Int(PikeInt::new(12)));
    let res = marshal_args(&int_export(), 1, &mut ctx).unwrap();
    assert_eq!(res.len(), 1);
    assert_eq!(res[0], PikeThing::Int(PikeInt::new(12)));
    // The slot stays on the stack; the marshaled copy is the caller's.
    assert_eq!(ctx.stack_len(), 1);
}

#[test]
fn finish_export_pushes_result_or_raises() {
    let mut ctx = PikeContext::acquire();
    ctx.catch_begin();
    pike::export::finish_export(Ok(PikeThing::Int(PikeInt::new(5))), &mut ctx);
    assert_eq!(ctx.pop_from_stack(), PikeThing::Int(PikeInt::new(5)));

    pike::export::finish_export(
        Err(PikeError::Generic(String::from("broken"))),
        &mut ctx,
    );
    let caught: Result<(), PikeError> = ctx.catch_pike_error(None);
    match caught {
        Err(PikeError::PikeError(desc, _)) => assert_eq!(desc, "broken\n"),
        other => panic!("expected the raised error, got {:?}", other),
    }
}

#[test]
fn constructor_result_becomes_object_storage() {
    let mut ctx = PikeContext::acquire();
    let mut slot: pike::storage::ObjectStorage<u64> = pike::storage::ObjectStorage::new_uninit();
    ctx.catch_begin();
    pike::export::finish_create_export(Ok(99u64), &mut slot, &mut ctx);
    assert_eq!(*slot.wrapped(), 99);
    let ok: Result<(), PikeError> = ctx.catch_pike_error(Some(()));
    assert!(ok.is_ok());

    ctx.catch_begin();
    pike::export::finish_create_export::<u64>(
        Err(PikeError::Generic(String::from("ctor failed"))),
        &mut slot,
        &mut ctx,
    );
    let caught: Result<(), PikeError> = ctx.catch_pike_error(None);
    match caught {
        Err(PikeError::PikeError(desc, _)) => assert_eq!(desc, "ctor failed\n"),
        other => panic!("expected the raised error, got {:?}", other),
    }
}

#[test]
fn wrapped_result_is_delivered_as_a_new_object() {
    let mut ctx = PikeContext::acquire();
    pike::pike_program::PikeProgram::<u64>::start_new_program("w.rs", 1, &mut ctx);
    let prog = pike::pike_program::PikeProgram::<u64>::finish_program(&mut ctx);
    let (thing, slot) = pike::export::finish_wrapped_export(&prog, 5u64, &mut ctx);
    assert!(matches!(thing, PikeThing::Object(_)));
    assert_eq!(*slot.wrapped(), 5);
}

#[test]
fn rejection_diagnostics_are_exact() {
    let mut s = sig(vec![], None);
    s.has_lifetimes = true;
    assert_eq!(
        into_export(String::from("f"), &s).unwrap_err(),
        "Lifetimes are not yet not supported"
    );
    let s2 = sig(vec![FnArg::Inferred], None);
    assert_eq!(
        into_export(String::from("f"), &s2).unwrap_err(),
        "inferred argument types are not supported"
    );
}
