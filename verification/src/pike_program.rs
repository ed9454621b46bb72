//! Handle and first-class wrapper for foreign program (class) objects, and
//! the class-compilation protocol.
//!
//! A program is built by starting a compilation, adding functions and
//! constants to it, and finishing it; the model keeps the program under
//! construction as a heap object referenced by the compiler state.
//! Program handles carry the same phantom storage parameter as object
//! handles.

use std::marker::PhantomData;

use vstd::prelude::*;
use vstd::string::StringExecFns;

use crate::heap::{
    add_ref_model, alloc_model, obj_data, obj_kind, obj_live, obj_refs, release_model,
    set_data_model, ConstDecl, DataModel, FuncDecl, ObjData, ObjModel, ProgBody, ProgModel,
};
use crate::error::chars_no_nul;
use crate::interpreter::{drop_with_context, CtxModel, DeferredQueue, DeferredRelease, PikeContext};
use crate::pike_object::{PikeObject, PikeObjectRef};
use crate::storage::{ObjectStorage, PROG_EVENT_EXIT, PROG_EVENT_INIT};
use crate::svalue::{PIKE_T_OBJECT, PIKE_T_PROGRAM};
use crate::traits::{CloneWithCtx, Refcounted};

verus! {

/// A handle owning one refcount increment on a foreign program object.
#[derive(Debug, PartialEq, Eq)]
pub struct PikeProgramRef<TStorage> {
    /// Heap id of the program: the model's stand-in for the raw pointer.
    pub id: usize,
    /// Phantom marker for the storage shape; no runtime representation.
    pub _storage: PhantomData<TStorage>,
}

impl<TStorage> CloneWithCtx for PikeProgramRef<TStorage> {
    open spec fn rc_target(&self) -> usize {
        self.id
    }

    open spec fn same_ref(&self, other: &Self) -> bool {
        self.id == other.id
    }

    fn clone_with_ctx(&self, ctx: &mut PikeContext) -> (r: Self) {
        ctx.heap_add_ref(self.id);
        PikeProgramRef { id: self.id, _storage: PhantomData }
    }
}

impl<TStorage> Refcounted for PikeProgramRef<TStorage> {
    open spec fn id_spec(&self) -> usize {
        self.id
    }

    fn from_ptr(id: usize) -> (r: Self) {
        PikeProgramRef { id, _storage: PhantomData }
    }

    fn from_ptr_add_ref(id: usize, ctx: &mut PikeContext) -> (r: Self) {
        ctx.heap_add_ref(id);
        PikeProgramRef { id, _storage: PhantomData }
    }

    fn as_mut_ptr(&self) -> (id: usize) {
        self.id
    }
}

impl<TStorage> PikeProgramRef<TStorage> {
    /// Relinquishes the handle, with or without the lock: its increment
    /// transfers to a release record on the deferred queue.
    pub fn defer_drop(self, queue: &mut DeferredQueue)
        ensures
            final(queue)@ =~= old(queue)@.push(
                DeferredRelease { id: self.id, kind: PIKE_T_PROGRAM },
            ),
    {
        drop_with_context(queue, DeferredRelease { id: self.id, kind: PIKE_T_PROGRAM });
    }

    /// Releases the handle's increment immediately, under the lock.
    pub fn drop_with_ctx(self, ctx: &mut PikeContext)
        requires
            obj_live(old(ctx)@.heap, self.id),
            obj_refs(old(ctx)@.heap, self.id) >= 1,
        ensures
            final(ctx)@ == old(ctx)@.with_heap(release_model(old(ctx)@.heap, self.id)),
    {
        ctx.heap_release(self.id);
    }
}

/// The object `id` is a live program.
pub open spec fn is_program(heap: Seq<ObjModel>, id: usize) -> bool {
    obj_live(heap, id) && obj_kind(heap, id) == PIKE_T_PROGRAM && obj_data(heap, id) is Program
}

/// The body of program `id`.
pub open spec fn prog_of(heap: Seq<ObjModel>, id: usize) -> ProgModel {
    obj_data(heap, id)->Program_0
}

/// A compilation is active and its innermost program object is
/// well-formed.
pub open spec fn compiling(m: CtxModel) -> bool {
    m.compiler.len() > 0 && is_program(m.heap, m.compiler.last() as usize)
}

/// First-class program wrapper, used while the lock is held.
#[derive(Debug, PartialEq, Eq)]
pub struct PikeProgram<TStorage> {
    /// The underlying handle.
    pub program_ref: PikeProgramRef<TStorage>,
}

impl<TStorage> PikeProgram<TStorage> {
    /// Wraps an existing handle.
    pub fn from_ref(program_ref: PikeProgramRef<TStorage>) -> (r: Self)
        ensures
            r.program_ref == program_ref,
    {
        PikeProgram { program_ref }
    }

    /// Starts compiling a new program (class) with storage of shape
    /// `TStorage`, whose instances begin with a zeroed, uninitialised slot.
    /// The file name and line are source-position hints for the runtime's
    /// diagnostics; the model does not keep them.  The file name crosses
    /// the boundary as a C string, so it may not contain NUL.
    pub fn start_new_program(filename: &str, line: u32, ctx: &mut PikeContext)
        requires
            chars_no_nul(filename@),
        ensures
            final(ctx)@ == (CtxModel {
                compiler: old(ctx)@.compiler.push(old(ctx)@.heap.len() as usize),
                ..old(ctx)@.with_heap(
                    alloc_model(
                        old(ctx)@.heap,
                        PIKE_T_PROGRAM,
                        DataModel::Program(
                            ProgModel {
                                funcs: Seq::empty(),
                                constants: Seq::empty(),
                                has_storage: true,
                            },
                        ),
                    ),
                )
            }),
    {
        let body = ProgBody { funcs: Vec::new(), constants: Vec::new(), has_storage: true };
        proof {
            assert(body@ =~= (ProgModel {
                funcs: Seq::empty(),
                constants: Seq::empty(),
                has_storage: true,
            }));
        }
        let id = ctx.heap_allocate(PIKE_T_PROGRAM, ObjData::Program(body));
        ctx.push_compiler_raw(id);
    }

    /// Finishes the current compilation: the compiler's reference to the
    /// new program transfers to the returned wrapper.
    pub fn finish_program(ctx: &mut PikeContext) -> (r: Self)
        requires
            old(ctx)@.compiler.len() > 0,
        ensures
            final(ctx)@ == (CtxModel {
                compiler: old(ctx)@.compiler.drop_last(),
                ..old(ctx)@
            }),
            r.program_ref.id == old(ctx)@.compiler.last(),
    {
        let id = ctx.pop_compiler_raw();
        PikeProgram { program_ref: PikeProgramRef { id, _storage: PhantomData } }
    }

    /// The program currently being compiled, with a fresh reference.
    pub fn current_compilation(ctx: &mut PikeContext) -> (r: Self)
        requires
            old(ctx)@.compiler.len() > 0,
            obj_live(old(ctx)@.heap, old(ctx)@.compiler.last() as usize),
            obj_refs(old(ctx)@.heap, old(ctx)@.compiler.last() as usize) < u64::MAX,
        ensures
            final(ctx)@ == old(ctx)@.with_heap(
                add_ref_model(old(ctx)@.heap, old(ctx)@.compiler.last() as usize),
            ),
            r.program_ref.id == old(ctx)@.compiler.last(),
    {
        let id = ctx.compiler_id().unwrap();
        ctx.heap_add_ref(id);
        PikeProgram { program_ref: PikeProgramRef { id, _storage: PhantomData } }
    }

    /// Adds a function to the program currently being compiled, under the
    /// given name and foreign type descriptor; `fun` stands for the native
    /// entry-point address.  Name and descriptor cross the boundary as C
    /// strings, so neither may contain NUL.
    pub fn add_pike_func(name: &str, type_str: &str, fun: u64, ctx: &mut PikeContext)
        requires
            compiling(old(ctx)@),
            chars_no_nul(name@),
            chars_no_nul(type_str@),
        ensures
            final(ctx)@ == old(ctx)@.with_heap(
                set_data_model(
                    old(ctx)@.heap,
                    old(ctx)@.compiler.last() as usize,
                    DataModel::Program(
                        ProgModel {
                            funcs: prog_of(old(ctx)@.heap, old(ctx)@.compiler.last() as usize).funcs.push(
                                crate::heap::FuncDeclModel {
                                    name: name@,
                                    type_str: type_str@,
                                    fun,
                                },
                            ),
                            ..prog_of(old(ctx)@.heap, old(ctx)@.compiler.last() as usize)
                        },
                    ),
                ),
            ),
    {
        let id = ctx.compiler_id().unwrap();
        let data = ctx.heap_take_data(id);
        match data {
            ObjData::Program(mut body) => {
                let decl = FuncDecl {
                    name: String::from_str(name),
                    type_str: String::from_str(type_str),
                    fun,
                };
                body.funcs.push(decl);
                proof {
                    assert(body@.funcs =~= prog_of(old(ctx)@.heap, id).funcs.push(
                        crate::heap::FuncDeclModel { name: name@, type_str: type_str@, fun },
                    ));
                    assert(body@.constants =~= prog_of(old(ctx)@.heap, id).constants);
                }
                ctx.heap_set_data(id, ObjData::Program(body));
                proof {
                    assert(ctx@.heap =~= set_data_model(
                        old(ctx)@.heap,
                        id,
                        DataModel::Program(
                            ProgModel {
                                funcs: prog_of(old(ctx)@.heap, id).funcs.push(
                                    crate::heap::FuncDeclModel {
                                        name: name@,
                                        type_str: type_str@,
                                        fun,
                                    },
                                ),
                                ..prog_of(old(ctx)@.heap, id)
                            },
                        ),
                    ));
                }
            },
            _ => {
                proof {
                    assert(false);
                }
            },
        }
    }

    /// Adds the given program to the program currently being compiled as a
    /// constant under `name`, taking a fresh reference for the constant
    /// table.  The name crosses the boundary as a C string, so it may not
    /// contain NUL.
    pub fn add_program_constant(name: &str, prog: &PikeProgram<TStorage>, ctx: &mut PikeContext)
        requires
            compiling(old(ctx)@),
            chars_no_nul(name@),
            obj_live(old(ctx)@.heap, prog.program_ref.id),
            obj_refs(old(ctx)@.heap, prog.program_ref.id) < u64::MAX,
        ensures
            final(ctx)@ == old(ctx)@.with_heap(
                set_data_model(
                    add_ref_model(old(ctx)@.heap, prog.program_ref.id),
                    old(ctx)@.compiler.last() as usize,
                    DataModel::Program(
                        ProgModel {
                            constants: prog_of(old(ctx)@.heap, old(ctx)@.compiler.last() as usize).constants
                                .push(
                                crate::heap::ConstDeclModel {
                                    name: name@,
                                    prog: prog.program_ref.id,
                                },
                            ),
                            ..prog_of(old(ctx)@.heap, old(ctx)@.compiler.last() as usize)
                        },
                    ),
                ),
            ),
    {
        let id = ctx.compiler_id().unwrap();
        ctx.heap_add_ref(prog.program_ref.id);
        let ghost mid = ctx@.heap;
        let data = ctx.heap_take_data(id);
        match data {
            ObjData::Program(mut body) => {
                body.constants.push(
                    ConstDecl { name: String::from_str(name), prog: prog.program_ref.id },
                );
                proof {
                    assert(body@.constants =~= prog_of(mid, id).constants.push(
                        crate::heap::ConstDeclModel { name: name@, prog: prog.program_ref.id },
                    ));
                    assert(body@.funcs =~= prog_of(mid, id).funcs);
                }
                ctx.heap_set_data(id, ObjData::Program(body));
                proof {
                    assert(prog_of(mid, id) == prog_of(old(ctx)@.heap, id));
                    assert(ctx@.heap =~= set_data_model(
                        add_ref_model(old(ctx)@.heap, prog.program_ref.id),
                        id,
                        DataModel::Program(
                            ProgModel {
                                constants: prog_of(old(ctx)@.heap, id).constants.push(
                                    crate::heap::ConstDeclModel {
                                        name: name@,
                                        prog: prog.program_ref.id,
                                    },
                                ),
                                ..prog_of(old(ctx)@.heap, id)
                            },
                        ),
                    ));
                }
            },
            _ => {
                proof {
                    assert(false);
                }
            },
        }
    }

    /// Instantiates the program: allocates a fresh object whose storage
    /// slot starts uninitialised, as the runtime's "init" event leaves it.
    /// The runtime's construction path can throw; the model's cannot, so
    /// the result is always `Ok`.
    pub fn clone_object(&self, ctx: &mut PikeContext) -> (r: Result<
        PikeObject<()>,
        crate::error::PikeError,
    >)
        requires
            obj_live(old(ctx)@.heap, self.program_ref.id),
        ensures
            final(ctx)@ == old(ctx)@.with_heap(
                alloc_model(old(ctx)@.heap, PIKE_T_OBJECT, DataModel::Opaque),
            ),
            (r matches Ok(o) && o.object_ref.id == old(ctx)@.heap.len()),
    {
        let id = ctx.heap_allocate(PIKE_T_OBJECT, ObjData::Opaque);
        Ok(PikeObject::from_ref(PikeObjectRef::<()>::from_ptr(id)))
    }

    /// Instantiates the program and attaches the given data as the new
    /// object's extension storage.  The storage slot is handed back with
    /// the object; in the running system it lives inside the object's
    /// storage area.
    pub fn clone_object_with_data(&self, data: TStorage, ctx: &mut PikeContext) -> (r: Result<
        (PikeObject<TStorage>, ObjectStorage<TStorage>),
        crate::error::PikeError,
    >)
        requires
            obj_live(old(ctx)@.heap, self.program_ref.id),
        ensures
            final(ctx)@ == old(ctx)@.with_heap(
                alloc_model(old(ctx)@.heap, PIKE_T_OBJECT, DataModel::Opaque),
            ),
            (r matches Ok((o, slot)) && {
                &&& o.object_ref.id == old(ctx)@.heap.len()
                &&& (slot.value matches Some(v) && v == data)
                &&& !slot.released
            }),
    {
        let id = ctx.heap_allocate(PIKE_T_OBJECT, ObjData::Opaque);
        let mut slot = ObjectStorage::<TStorage>::new_uninit();
        slot.attach(data);
        Ok((PikeObject::from_ref(PikeObjectRef::<TStorage>::from_ptr(id)), slot))
    }

    /// Handles a lifecycle event for an object whose storage starts zeroed:
    /// "init" leaves the slot uninitialised, "exit" reclaims it exactly
    /// once; other events are ignored.
    pub fn prog_event_callback(event: u32, storage: &mut ObjectStorage<TStorage>)
        ensures
            event == PROG_EVENT_INIT ==> final(storage).value is None && !final(storage).released,
            event == PROG_EVENT_EXIT ==> *final(storage) == ObjectStorage::<TStorage>::spec_exit(
                *old(storage),
            ).0,
            event != PROG_EVENT_INIT && event != PROG_EVENT_EXIT ==> *final(storage) == *old(
                storage,
            ),
    {
        if event == PROG_EVENT_INIT {
            *storage = ObjectStorage::<TStorage>::new_uninit();
        } else if event == PROG_EVENT_EXIT {
            let _taken = storage.on_exit();
        }
    }
}

impl<TStorage: Default> PikeProgram<TStorage> {
    /// Starts compiling a new program whose instances begin with
    /// default-initialised storage rather than a zeroed slot.  The file
    /// name may not contain NUL.
    pub fn start_new_program_with_default(filename: &str, line: u32, ctx: &mut PikeContext)
        requires
            chars_no_nul(filename@),
        ensures
            final(ctx)@ == (CtxModel {
                compiler: old(ctx)@.compiler.push(old(ctx)@.heap.len() as usize),
                ..old(ctx)@.with_heap(
                    alloc_model(
                        old(ctx)@.heap,
                        PIKE_T_PROGRAM,
                        DataModel::Program(
                            ProgModel {
                                funcs: Seq::empty(),
                                constants: Seq::empty(),
                                has_storage: true,
                            },
                        ),
                    ),
                )
            }),
    {
        PikeProgram::<TStorage>::start_new_program(filename, line, ctx);
    }

    /// Handles a lifecycle event for an object with default-initialised
    /// storage: "init" attaches the default value, "exit" reclaims the
    /// slot exactly once; other events are ignored.
    pub fn prog_event_callback_default(event: u32, storage: &mut ObjectStorage<TStorage>)
        ensures
            event == PROG_EVENT_INIT ==> final(storage).value is Some && !final(storage).released,
            event == PROG_EVENT_EXIT ==> *final(storage) == ObjectStorage::<TStorage>::spec_exit(
                *old(storage),
            ).0,
            event != PROG_EVENT_INIT && event != PROG_EVENT_EXIT ==> *final(storage) == *old(
                storage,
            ),
    {
        if event == PROG_EVENT_INIT {
            storage.on_init_default();
        } else if event == PROG_EVENT_EXIT {
            let _taken = storage.on_exit();
        }
    }
}

} // verus!
