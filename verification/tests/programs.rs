use pike::export::{register_class, Export, ExportArg, ExportType};
use pike::heap::ObjData;
use pike::interpreter::PikeContext;
use pike::pike_program::PikeProgram;
use pike::traits::{CloneWithCtx, Refcounted};

#[test]
fn compilation_protocol_builds_a_program() {
    let mut ctx = PikeContext::acquire();
    PikeProgram::<u64>::start_new_program("widget.rs", 1, &mut ctx);
    PikeProgram::<u64>::add_pike_func("poke", "function(int:void)", 41, &mut ctx);
    PikeProgram::<u64>::add_pike_func("peek", "function(void:int)", 42, &mut ctx);
    let prog = PikeProgram::<u64>::finish_program(&mut ctx);
    assert!(ctx.compiler_id().is_none());

    match ctx.heap_data(prog.program_ref.id) {
        ObjData::Program(body) => {
            assert_eq!(body.funcs.len(), 2);
            assert_eq!(body.funcs[0].name, "poke");
            assert_eq!(body.funcs[0].type_str, "function(int:void)");
            assert_eq!(body.funcs[1].fun, 42);
            assert!(body.has_storage);
        },
        other => panic!("expected a program body, got {:?}", other),
    }
}

#[test]
fn clone_object_and_storage_attach() {
    let mut ctx = PikeContext::acquire();
    PikeProgram::<String>::start_new_program_with_default("w.rs", 1, &mut ctx);
    let prog = PikeProgram::<String>::finish_program(&mut ctx);

    let (obj, slot) = prog.clone_object_with_data(String::from("payload"), &mut ctx).unwrap();
    assert_eq!(ctx.heap_refs(obj.object_ref.id), 1);
    assert_eq!(*obj.wrapped(&slot), "payload");

    let plain = prog.clone_object(&mut ctx).unwrap();
    assert!(ctx.heap_is_live(plain.object_ref.id));
}

#[test]
fn register_class_registers_functions_and_constant() {
    let mut ctx = PikeContext::acquire();
    // The module's own compilation is active while classes register.
    PikeProgram::<()>::start_new_program("module.rs", 1, &mut ctx);
    let module_id = ctx.compiler_id().unwrap();

    let exports = vec![
        Export {
            ident: String::from("create"),
            args: vec![ExportArg { name: String::from("n"), ty: ExportType::Int }],
            return_ty: ExportType::Unit,
            is_constructor: true,
            struct_ty: Some(String::from("Counter")),
            fun: 7,
        },
        Export {
            ident: String::from("value"),
            args: vec![ExportArg { name: String::from("__self"), ty: ExportType::SelfRef }],
            return_ty: ExportType::Int,
            is_constructor: false,
            struct_ty: Some(String::from("Counter")),
            fun: 8,
        },
    ];
    let prog = register_class::<u64>("Counter", &exports, &mut ctx);

    // The class program holds one function per export, under its
    // descriptor.
    match ctx.heap_data(prog.program_ref.id) {
        ObjData::Program(body) => {
            assert_eq!(body.funcs.len(), 2);
            assert_eq!(body.funcs[0].name, "create");
            assert_eq!(body.funcs[0].type_str, "function(int:void)");
            assert_eq!(body.funcs[1].name, "value");
            assert_eq!(body.funcs[1].type_str, "function(void:int)");
        },
        other => panic!("expected a program body, got {:?}", other),
    }
    // The handle and the enclosing compilation's constant table each hold a
    // reference.
    assert_eq!(ctx.heap_refs(prog.program_ref.id), 2);
    match ctx.heap_data(module_id) {
        ObjData::Program(body) => {
            assert_eq!(body.constants.len(), 1);
            assert_eq!(body.constants[0].name, "Counter");
            assert_eq!(body.constants[0].prog, prog.program_ref.id);
        },
        other => panic!("expected a program body, got {:?}", other),
    }
}

#[test]
fn current_compilation_takes_a_reference() {
    let mut ctx = PikeContext::acquire();
    PikeProgram::<()>::start_new_program("m.rs", 1, &mut ctx);
    let cur = PikeProgram::<()>::current_compilation(&mut ctx);
    assert_eq!(ctx.heap_refs(cur.program_ref.id), 2);
    let cur2 = cur.program_ref.clone_with_ctx(&mut ctx);
    assert_eq!(ctx.heap_refs(cur2.as_mut_ptr()), 3);
}

#[test]
fn program_constant_takes_a_reference() {
    let mut ctx = PikeContext::acquire();
    PikeProgram::<()>::start_new_program("m.rs", 1, &mut ctx);
    PikeProgram::<()>::start_new_program("inner.rs", 2, &mut ctx);
    let inner = PikeProgram::<()>::finish_program(&mut ctx);
    assert_eq!(ctx.heap_refs(inner.program_ref.id), 1);
    PikeProgram::<()>::add_program_constant("Inner", &inner, &mut ctx);
    assert_eq!(ctx.heap_refs(inner.program_ref.id), 2);
}
