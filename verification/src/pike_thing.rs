//! The typed-value container: the closed sum type mirroring the foreign
//! runtime's dynamic value representation, built atop the refcounted
//! handles.
//!
//! Conversions between [`svalue`] and [`PikeThing`] are *move* conversions:
//! the raw value's ownership increment transfers into the new handle and
//! back, so for one refcount unit never both destructors run — and never
//! neither.

use vstd::prelude::*;

use crate::heap::{obj_live, obj_refs, ObjModel};
use crate::interpreter::{add_sval_model, sval_live, sval_room, CtxModel, PikeContext};
use crate::pike_array::PikeArrayRef;
use crate::pike_float::PikeFloat;
use crate::pike_function::PikeFunctionRef;
use crate::pike_int::PikeInt;
use crate::pike_mapping::PikeMappingRef;
use crate::pike_multiset::PikeMultisetRef;
use crate::pike_object::PikeObjectRef;
use crate::pike_program::PikeProgramRef;
use crate::pike_str::PikeStringRef;
use crate::pike_type::PikeTypeRef;
use crate::svalue::{
    Payload, svalue, NUMBER_UNDEFINED, PIKE_T_ARRAY, PIKE_T_FLOAT, PIKE_T_FUNCTION, PIKE_T_INT,
    PIKE_T_MAPPING, PIKE_T_MULTISET, PIKE_T_OBJECT, PIKE_T_PROGRAM, PIKE_T_STRING, PIKE_T_TYPE,
};
use crate::traits::{CloneWithCtx, Refcounted};

verus! {

/// Ghost image of a typed value: the variant plus its payload (heap id,
/// primitive, or object id and function index).
pub enum ThingModel {
    /// An array handle.
    Array(usize),
    /// A float, as its bit pattern.
    Float(u64),
    /// A function: object id and function index.
    Function(usize, u16),
    /// An integer.
    Int(i64),
    /// A mapping handle.
    Mapping(usize),
    /// A multiset handle.
    PikeMultiset(usize),
    /// An object handle.
    Object(usize),
    /// A string handle.
    PikeString(usize),
    /// A program handle.
    Program(usize),
    /// A type-descriptor handle.
    Type(usize),
    /// The distinguished undefined value.
    Undefined,
}

/// The typed value, owning one refcount increment for each pointer-bearing
/// variant.
#[derive(Debug, PartialEq, Eq)]
pub enum PikeThing {
    /// An array.
    Array(PikeArrayRef),
    /// A float.
    Float(PikeFloat),
    /// A function.
    Function(PikeFunctionRef),
    /// An integer.
    Int(PikeInt),
    /// A mapping.
    Mapping(PikeMappingRef),
    /// A multiset.
    PikeMultiset(PikeMultisetRef),
    /// An object.
    Object(PikeObjectRef<()>),
    /// A string.
    PikeString(PikeStringRef),
    /// A program.
    Program(PikeProgramRef<()>),
    /// A type descriptor.
    Type(PikeTypeRef),
    /// The distinguished undefined value.
    Undefined,
}

impl View for PikeThing {
    type V = ThingModel;

    open spec fn view(&self) -> ThingModel {
        match self {
            PikeThing::Array(a) => ThingModel::Array(a.id),
            PikeThing::Float(f) => ThingModel::Float(f.bits),
            PikeThing::Function(f) => ThingModel::Function(f.pikeobj.id, f.fun_idx),
            PikeThing::Int(i) => ThingModel::Int(i.integer),
            PikeThing::Mapping(m) => ThingModel::Mapping(m.id),
            PikeThing::PikeMultiset(m) => ThingModel::PikeMultiset(m.id),
            PikeThing::Object(o) => ThingModel::Object(o.id),
            PikeThing::PikeString(s) => ThingModel::PikeString(s.id),
            PikeThing::Program(p) => ThingModel::Program(p.id),
            PikeThing::Type(t) => ThingModel::Type(t.id),
            PikeThing::Undefined => ThingModel::Undefined,
        }
    }
}

/// The typed value a raw value converts to: dispatch on the kind, adopt the
/// payload; an integer with the reserved subkind becomes `Undefined`.
pub open spec fn thing_of_sval(sv: svalue) -> ThingModel {
    if sv.kind == PIKE_T_ARRAY {
        ThingModel::Array(sv.target())
    } else if sv.kind == PIKE_T_FLOAT {
        ThingModel::Float(sv.payload->FloatBits_0)
    } else if sv.kind == PIKE_T_FUNCTION {
        ThingModel::Function(sv.target(), sv.subkind)
    } else if sv.kind == PIKE_T_INT {
        if sv.subkind == NUMBER_UNDEFINED {
            ThingModel::Undefined
        } else {
            ThingModel::Int(sv.payload->Int_0)
        }
    } else if sv.kind == PIKE_T_MAPPING {
        ThingModel::Mapping(sv.target())
    } else if sv.kind == PIKE_T_MULTISET {
        ThingModel::PikeMultiset(sv.target())
    } else if sv.kind == PIKE_T_OBJECT {
        ThingModel::Object(sv.target())
    } else if sv.kind == PIKE_T_STRING {
        ThingModel::PikeString(sv.target())
    } else if sv.kind == PIKE_T_PROGRAM {
        ThingModel::Program(sv.target())
    } else {
        ThingModel::Type(sv.target())
    }
}

/// The raw value a typed value converts to.
pub open spec fn sval_of_thing(t: ThingModel) -> svalue {
    match t {
        ThingModel::Array(id) => svalue {
            kind: PIKE_T_ARRAY,
            subkind: 0,
            payload: Payload::Ptr(id),
        },
        ThingModel::Float(bits) => svalue {
            kind: PIKE_T_FLOAT,
            subkind: 0,
            payload: Payload::FloatBits(bits),
        },
        ThingModel::Function(id, idx) => svalue {
            kind: PIKE_T_FUNCTION,
            subkind: idx,
            payload: Payload::Ptr(id),
        },
        ThingModel::Int(i) => svalue { kind: PIKE_T_INT, subkind: 0, payload: Payload::Int(i) },
        ThingModel::Mapping(id) => svalue {
            kind: PIKE_T_MAPPING,
            subkind: 0,
            payload: Payload::Ptr(id),
        },
        ThingModel::PikeMultiset(id) => svalue {
            kind: PIKE_T_MULTISET,
            subkind: 0,
            payload: Payload::Ptr(id),
        },
        ThingModel::Object(id) => svalue {
            kind: PIKE_T_OBJECT,
            subkind: 0,
            payload: Payload::Ptr(id),
        },
        ThingModel::PikeString(id) => svalue {
            kind: PIKE_T_STRING,
            subkind: 0,
            payload: Payload::Ptr(id),
        },
        ThingModel::Program(id) => svalue {
            kind: PIKE_T_PROGRAM,
            subkind: 0,
            payload: Payload::Ptr(id),
        },
        ThingModel::Type(id) => svalue { kind: PIKE_T_TYPE, subkind: 0, payload: Payload::Ptr(id) },
        ThingModel::Undefined => svalue::spec_undefined(),
    }
}

/// A raw value in the exact form the typed-value conversion produces:
/// well-formed, with the subkind in use only where it means something.
pub open spec fn sval_canonical(sv: svalue) -> bool {
    &&& sv.wf()
    &&& (sv.kind == PIKE_T_INT ==> sv.subkind == 0 || sv == svalue::spec_undefined())
    &&& (sv.kind == PIKE_T_FLOAT ==> sv.subkind == 0)
    &&& (sv.spec_refcounted() && sv.kind != PIKE_T_FUNCTION ==> sv.subkind == 0)
}

/// Converting a typed value to a raw value and back yields the same typed
/// value: the ownership increment makes the round trip intact.
pub proof fn lemma_thing_sval_roundtrip(t: ThingModel)
    ensures
        thing_of_sval(sval_of_thing(t)) == t,
        sval_canonical(sval_of_thing(t)),
{
}

/// Converting a canonical raw value to a typed value and back yields the
/// same raw value.
pub proof fn lemma_sval_thing_roundtrip(sv: svalue)
    requires
        sval_canonical(sv),
    ensures
        sval_of_thing(thing_of_sval(sv)) == sv,
{
}

/// The raw value after carrying it through `n` typed/raw conversion round
/// trips.
pub open spec fn roundtrips(sv: svalue, n: nat) -> svalue
    decreases n,
{
    if n == 0 {
        sv
    } else {
        sval_of_thing(thing_of_sval(roundtrips(sv, (n - 1) as nat)))
    }
}

/// No double decrement: a canonical raw value carried through any number
/// of typed/raw conversion round trips still stands for exactly one
/// reference to the same target, and releasing the final owner decrements
/// the target's count exactly once — never zero, never twice.  The
/// conversions themselves cannot touch a count: neither direction takes a
/// context token, so no heap access exists to hide one.
pub proof fn lemma_no_double_decrement(heap: Seq<ObjModel>, sv: svalue, n: nat)
    requires
        sval_canonical(sv),
        crate::interpreter::sval_held(heap, sv),
    ensures
        roundtrips(sv, n) == sv,
        crate::interpreter::release_sval_model(heap, roundtrips(sv, n))
            == crate::interpreter::release_sval_model(heap, sv),
        sv.spec_refcounted() ==> obj_refs(
            crate::interpreter::release_sval_model(heap, sv),
            sv.target(),
        ) == obj_refs(heap, sv.target()) - 1,
    decreases n,
{
    if n > 0 {
        lemma_no_double_decrement(heap, sv, (n - 1) as nat);
        lemma_sval_thing_roundtrip(sv);
    }
}

/// Pushing a typed value and popping it back returns an observably equal
/// value — same variant, same payload — and leaves the stack, the heap and
/// the rest of the interpreter state as they were.
pub proof fn lemma_stack_push_pop_roundtrip(m: CtxModel, t: ThingModel)
    ensures
        ({
            let pushed = m.with_stack(m.stack.push(sval_of_thing(t)));
            &&& pushed.stack.len() == m.stack.len() + 1
            &&& thing_of_sval(pushed.stack.last()) == t
            &&& pushed.with_stack(pushed.stack.drop_last()) =~= m
        }),
{
    lemma_thing_sval_roundtrip(t);
    assert(m.stack.push(sval_of_thing(t)).drop_last() =~= m.stack);
}

impl PikeThing {
    /// Converts a raw value into a typed value, adopting its ownership
    /// increment; the raw value is consumed, so the increment is never
    /// released twice.  An unknown kind is ruled out by the precondition:
    /// in the running system it means the binding and the runtime have
    /// desynchronised, and nothing can be promised.
    pub fn from_svalue(sv: svalue) -> (t: Self)
        requires
            sv.wf(),
        ensures
            t@ == thing_of_sval(sv),
    {
        if sv.kind == PIKE_T_ARRAY {
            PikeThing::Array(PikeArrayRef::from_ptr(sv.ptr_id()))
        } else if sv.kind == PIKE_T_FLOAT {
            PikeThing::Float(PikeFloat::new(sv.float_bits()))
        } else if sv.kind == PIKE_T_FUNCTION {
            PikeThing::Function(PikeFunctionRef::new_without_ref(sv.ptr_id(), sv.subkind))
        } else if sv.kind == PIKE_T_INT {
            if sv.subkind == NUMBER_UNDEFINED {
                PikeThing::Undefined
            } else {
                PikeThing::Int(PikeInt::new(sv.int_value()))
            }
        } else if sv.kind == PIKE_T_MAPPING {
            PikeThing::Mapping(PikeMappingRef::from_ptr(sv.ptr_id()))
        } else if sv.kind == PIKE_T_MULTISET {
            PikeThing::PikeMultiset(PikeMultisetRef::from_ptr(sv.ptr_id()))
        } else if sv.kind == PIKE_T_OBJECT {
            PikeThing::Object(PikeObjectRef::<()>::from_ptr(sv.ptr_id()))
        } else if sv.kind == PIKE_T_STRING {
            PikeThing::PikeString(PikeStringRef::from_ptr(sv.ptr_id()))
        } else if sv.kind == PIKE_T_PROGRAM {
            PikeThing::Program(PikeProgramRef::<()>::from_ptr(sv.ptr_id()))
        } else {
            PikeThing::Type(PikeTypeRef::from_ptr(sv.ptr_id()))
        }
    }

    /// Converts the typed value back into a raw value; the ownership
    /// increment transfers out, and the typed value is consumed.
    pub fn into_svalue(self) -> (sv: svalue)
        ensures
            sv == sval_of_thing(self@),
            sval_canonical(sv),
    {
        match self {
            PikeThing::Array(a) => svalue {
                kind: PIKE_T_ARRAY,
                subkind: 0,
                payload: Payload::Ptr(a.as_mut_ptr()),
            },
            PikeThing::Float(f) => svalue {
                kind: PIKE_T_FLOAT,
                subkind: 0,
                payload: Payload::FloatBits(f.bits),
            },
            PikeThing::Function(f) => svalue {
                kind: PIKE_T_FUNCTION,
                subkind: f.function_index(),
                payload: Payload::Ptr(f.object_ptr()),
            },
            PikeThing::Int(i) => svalue {
                kind: PIKE_T_INT,
                subkind: 0,
                payload: Payload::Int(i.integer),
            },
            PikeThing::Mapping(m) => svalue {
                kind: PIKE_T_MAPPING,
                subkind: 0,
                payload: Payload::Ptr(m.as_mut_ptr()),
            },
            PikeThing::PikeMultiset(m) => svalue {
                kind: PIKE_T_MULTISET,
                subkind: 0,
                payload: Payload::Ptr(m.as_mut_ptr()),
            },
            PikeThing::Object(o) => svalue {
                kind: PIKE_T_OBJECT,
                subkind: 0,
                payload: Payload::Ptr(o.as_mut_ptr()),
            },
            PikeThing::PikeString(s) => svalue {
                kind: PIKE_T_STRING,
                subkind: 0,
                payload: Payload::Ptr(s.as_mut_ptr()),
            },
            PikeThing::Program(p) => svalue {
                kind: PIKE_T_PROGRAM,
                subkind: 0,
                payload: Payload::Ptr(p.as_mut_ptr()),
            },
            PikeThing::Type(t) => svalue {
                kind: PIKE_T_TYPE,
                subkind: 0,
                payload: Payload::Ptr(t.as_mut_ptr()),
            },
            PikeThing::Undefined => svalue::undefined(),
        }
    }

    /// The distinguished undefined value.
    pub fn undefined() -> (t: Self)
        ensures
            t@ == ThingModel::Undefined,
    {
        PikeThing::Undefined
    }

    /// The heap object a pointer-bearing value designates.
    pub open spec fn target_of(t: ThingModel) -> usize {
        sval_of_thing(t).target()
    }

    /// The value designates a refcounted heap object.
    pub open spec fn is_refcounted(t: ThingModel) -> bool {
        sval_of_thing(t).spec_refcounted()
    }

    /// Builds a typed value from a borrowed raw value, taking a fresh
    /// reference (the original slot keeps its own).
    pub fn from_svalue_ref(sval: &svalue, ctx: &mut PikeContext) -> (t: Self)
        requires
            sval.wf(),
            sval_live(old(ctx)@.heap, *sval),
            sval_room(old(ctx)@.heap, *sval),
        ensures
            t@ == thing_of_sval(*sval),
            final(ctx)@ == old(ctx)@.with_heap(add_sval_model(old(ctx)@.heap, *sval)),
    {
        if sval.refcounted_type() {
            let id = sval.ptr_id();
            ctx.heap_add_ref(id);
        }
        Self::from_svalue(*sval)
    }

    /// Duplicates the typed value under a context token, taking one more
    /// reference for pointer-bearing variants.
    pub fn clone_with_ctx(&self, ctx: &mut PikeContext) -> (t: Self)
        requires
            Self::is_refcounted(self@) ==> {
                &&& obj_live(old(ctx)@.heap, Self::target_of(self@))
                &&& obj_refs(old(ctx)@.heap, Self::target_of(self@)) < u64::MAX
            },
        ensures
            t@ == self@,
            final(ctx)@ == old(ctx)@.with_heap(
                add_sval_model(old(ctx)@.heap, sval_of_thing(self@)),
            ),
    {
        match self {
            PikeThing::Array(a) => PikeThing::Array(a.clone_with_ctx(ctx)),
            PikeThing::Float(f) => PikeThing::Float(PikeFloat { bits: f.bits }),
            PikeThing::Function(f) => PikeThing::Function(f.clone_with_ctx(ctx)),
            PikeThing::Int(i) => PikeThing::Int(PikeInt { integer: i.integer }),
            PikeThing::Mapping(m) => PikeThing::Mapping(m.clone_with_ctx(ctx)),
            PikeThing::PikeMultiset(m) => PikeThing::PikeMultiset(m.clone_with_ctx(ctx)),
            PikeThing::Object(o) => PikeThing::Object(o.clone_with_ctx(ctx)),
            PikeThing::PikeString(s) => PikeThing::PikeString(s.clone_with_ctx(ctx)),
            PikeThing::Program(p) => PikeThing::Program(p.clone_with_ctx(ctx)),
            PikeThing::Type(t) => PikeThing::Type(t.clone_with_ctx(ctx)),
            PikeThing::Undefined => PikeThing::Undefined,
        }
    }

    /// Gives up the value's increment immediately, under the lock.
    pub fn drop_with_ctx(self, ctx: &mut PikeContext)
        requires
            Self::is_refcounted(self@) ==> {
                &&& obj_live(old(ctx)@.heap, Self::target_of(self@))
                &&& obj_refs(old(ctx)@.heap, Self::target_of(self@)) >= 1
            },
        ensures
            final(ctx)@ == old(ctx)@.with_heap(
                crate::interpreter::release_sval_model(old(ctx)@.heap, sval_of_thing(self@)),
            ),
    {
        let sv = self.into_svalue();
        if sv.refcounted_type() {
            let id = sv.ptr_id();
            ctx.heap_release(id);
        }
    }

    /// Binds the value to a context for staging (serialisation and other
    /// lock-bound work done outside the verified core).
    pub fn unwrap(self) -> (r: PikeThingWithCtx)
        ensures
            r.thing@ == self@,
    {
        PikeThingWithCtx { thing: self }
    }
}

/// A typed value staged for lock-bound interchange work; the holder attests
/// that a context token is at hand.
#[derive(Debug, PartialEq, Eq)]
pub struct PikeThingWithCtx {
    /// The staged value.
    pub thing: PikeThing,
}

impl PikeContext {
    /// Pushes a typed value onto the foreign evaluation stack, converting
    /// it to a raw value; its increment transfers into the stack slot.
    pub fn push_to_stack(&mut self, thing: PikeThing)
        ensures
            final(self)@ == old(self)@.with_stack(
                old(self)@.stack.push(sval_of_thing(thing@)),
            ),
    {
        let sv = thing.into_svalue();
        self.push_svalue(sv);
    }

    /// Pops the top of the foreign evaluation stack as a typed value; the
    /// slot's increment transfers to the returned value and the slot is
    /// vacated.
    pub fn pop_from_stack(&mut self) -> (t: PikeThing)
        requires
            old(self)@.stack.len() > 0,
            old(self)@.stack.last().wf(),
        ensures
            t@ == thing_of_sval(old(self)@.stack.last()),
            final(self)@ == old(self)@.with_stack(old(self)@.stack.drop_last()),
    {
        let sv = self.pop_svalue();
        PikeThing::from_svalue(sv)
    }

    /// Reads the stack slot `pos` entries below the stack pointer (`pos` is
    /// negative; `-1` is the top) without popping it, taking a fresh
    /// reference: the slot keeps its own.
    pub fn get_from_stack(&mut self, pos: isize) -> (t: PikeThing)
        requires
            isize::MIN < pos < 0,
            -pos <= old(self)@.stack.len(),
            old(self)@.stack[old(self)@.stack.len() + pos].wf(),
            sval_live(old(self)@.heap, old(self)@.stack[old(self)@.stack.len() + pos]),
            sval_room(old(self)@.heap, old(self)@.stack[old(self)@.stack.len() + pos]),
        ensures
            t@ == thing_of_sval(old(self)@.stack[old(self)@.stack.len() + pos]),
            final(self)@ == old(self)@.with_heap(
                add_sval_model(
                    old(self)@.heap,
                    old(self)@.stack[old(self)@.stack.len() + pos],
                ),
            ),
    {
        let sv = self.peek_svalue(pos);
        PikeThing::from_svalue_ref(&sv, self)
    }
}

impl From<i64> for PikeThing {
    /// Wraps an integer as a typed value.
    fn from(i: i64) -> (r: Self) {
        PikeThing::Int(PikeInt { integer: i })
    }
}

impl vstd::std_specs::convert::FromSpecImpl<i64> for PikeThing {
    open spec fn obeys_from_spec() -> bool {
        true
    }

    open spec fn from_spec(i: i64) -> Self {
        PikeThing::Int(PikeInt { integer: i })
    }
}

impl From<()> for PikeThing {
    /// The unit value crosses as the distinguished undefined value.
    fn from(u: ()) -> (r: Self) {
        PikeThing::Undefined
    }
}

impl vstd::std_specs::convert::FromSpecImpl<()> for PikeThing {
    open spec fn obeys_from_spec() -> bool {
        true
    }

    open spec fn from_spec(u: ()) -> Self {
        PikeThing::Undefined
    }
}

} // verus!
