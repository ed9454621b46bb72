//! The raw tagged-union value representation of the foreign runtime.
//!
//! A foreign value is a discriminant pair (`kind`, `subkind`) plus a payload
//! that is either a primitive (integer, float bit pattern) or a reference to a
//! foreign heap object.  Heap objects are modelled by an index into the model
//! heap (see [`crate::heap`]); the index stands for the raw pointer of the
//! real runtime.

use vstd::prelude::*;

use crate::heap::{obj_live, obj_refs};
use crate::interpreter::{add_sval_model, PikeContext};

verus! {

/// Type tag of an integer value.
pub const PIKE_T_INT: u16 = 0;
/// Type tag of a floating-point value.
pub const PIKE_T_FLOAT: u16 = 1;
/// Type tag of an array object.
pub const PIKE_T_ARRAY: u16 = 8;
/// Type tag of a mapping (key/value) object.
pub const PIKE_T_MAPPING: u16 = 9;
/// Type tag of a multiset object.
pub const PIKE_T_MULTISET: u16 = 10;
/// Type tag of an object instance.
pub const PIKE_T_OBJECT: u16 = 11;
/// Type tag of a function value (object pointer plus function index).
pub const PIKE_T_FUNCTION: u16 = 12;
/// Type tag of a program (class) object.
pub const PIKE_T_PROGRAM: u16 = 13;
/// Type tag of a string object.
pub const PIKE_T_STRING: u16 = 14;
/// Type tag of a type-descriptor object.
pub const PIKE_T_TYPE: u16 = 15;
/// Tag written over a value slot whose contents have been handed elsewhere.
pub const PIKE_T_FREE: u16 = 19;
/// Integer subkind marking the distinguished "undefined" value.
pub const NUMBER_UNDEFINED: u16 = 1;

/// Payload of a raw value: one primitive or one reference to a heap object.
#[derive(Clone, Copy, Debug, PartialEq, Eq, Structural)]
pub enum Payload {
    /// Integer payload of an integer value.
    Int(i64),
    /// IEEE-754 bit pattern of a float value (kept opaque by the model).
    FloatBits(u64),
    /// Index of a foreign heap object in the model heap.
    Ptr(usize),
}

/// The raw tagged-union value, as the foreign stack and heap store it.
///
/// Invariant ([`svalue::wf`]): the payload variant agrees with `kind`, and
/// for pointer-bearing kinds the payload names a heap object.  Whether that
/// object is live, and whether this value still owns a refcount increment on
/// it, is tracked by the model heap, not by the value itself.
#[allow(non_camel_case_types)]
#[derive(Clone, Copy, Debug, PartialEq, Eq, Structural)]
pub struct svalue {
    /// Type tag.
    pub kind: u16,
    /// Sub-tag: function index for functions, "undefined" mark for integers.
    pub subkind: u16,
    /// The payload.
    pub payload: Payload,
}

impl svalue {
    /// The payload variant agrees with the type tag.
    pub open spec fn wf(self) -> bool {
        &&& (self.kind == PIKE_T_INT || self.kind == PIKE_T_FLOAT
            || (PIKE_T_ARRAY <= self.kind && self.kind <= PIKE_T_TYPE))
        &&& (self.kind == PIKE_T_INT ==> self.payload is Int)
        &&& (self.kind == PIKE_T_FLOAT ==> self.payload is FloatBits)
        &&& (PIKE_T_ARRAY <= self.kind && self.kind <= PIKE_T_TYPE ==> self.payload is Ptr)
    }

    /// The kind carries a reference to a refcounted heap object.
    pub open spec fn spec_refcounted(self) -> bool {
        PIKE_T_ARRAY <= self.kind && self.kind <= PIKE_T_TYPE
    }

    /// The heap object this value refers to (meaningful for refcounted kinds).
    pub open spec fn target(self) -> usize {
        self.payload->Ptr_0
    }

    /// The distinguished "undefined" value: an integer with a reserved subkind.
    pub fn undefined() -> (r: Self)
        ensures
            r == Self::spec_undefined(),
    {
        svalue { kind: PIKE_T_INT, subkind: NUMBER_UNDEFINED, payload: Payload::Int(0) }
    }

    /// What [`svalue::undefined`] returns.
    pub open spec fn spec_undefined() -> Self {
        svalue { kind: PIKE_T_INT, subkind: NUMBER_UNDEFINED, payload: Payload::Int(0) }
    }

    /// True iff this value's kind refers to a refcounted heap object.
    ///
    /// Computed, as the foreign runtime does, by masking the tag with the
    /// complement of `PIKE_T_ARRAY - 1`: the refcounted tags are exactly the
    /// ones at or above `PIKE_T_ARRAY`.
    pub fn refcounted_type(&self) -> (r: bool)
        requires
            self.wf(),
        ensures
            r == self.spec_refcounted(),
    {
        let masked = self.kind & !(PIKE_T_ARRAY - 1);
        proof {
            let k = self.kind;
            assert(k <= 15 ==> (((k & !7u16) != 0) == (8 <= k && k <= 15))) by (bit_vector);
        }
        masked != 0
    }

    /// The integer payload of an integer value.
    pub fn int_value(&self) -> (i: i64)
        requires
            self.payload is Int,
        ensures
            i == self.payload->Int_0,
    {
        match self.payload {
            Payload::Int(i) => i,
            _ => 0,
        }
    }

    /// The bit pattern of a float value.
    pub fn float_bits(&self) -> (b: u64)
        requires
            self.payload is FloatBits,
        ensures
            b == self.payload->FloatBits_0,
    {
        match self.payload {
            Payload::FloatBits(b) => b,
            _ => 0,
        }
    }

    /// The id of the heap object a pointer-bearing value refers to.
    pub fn ptr_id(&self) -> (id: usize)
        requires
            self.payload is Ptr,
        ensures
            id == self.target(),
    {
        match self.payload {
            Payload::Ptr(id) => id,
            _ => 0,
        }
    }

    /// Overwrites the tag to mark the slot's contents as transferred away,
    /// so a later destructor pass will not release them again.
    pub fn mark_free(&mut self)
        ensures
            *final(self) == (svalue { kind: PIKE_T_FREE, ..*old(self) }),
    {
        self.kind = PIKE_T_FREE;
    }

    /// Takes one more reference to the object a refcounted value designates
    /// and reports the new count; a primitive value is left alone.
    pub fn add_ref(&self, ctx: &mut PikeContext) -> (r: Option<u64>)
        requires
            self.wf(),
            self.spec_refcounted() ==> obj_live(old(ctx)@.heap, self.target()) && obj_refs(
                old(ctx)@.heap,
                self.target(),
            ) < u64::MAX,
        ensures
            final(ctx)@ == old(ctx)@.with_heap(add_sval_model(old(ctx)@.heap, *self)),
            self.spec_refcounted() ==> r == Some(
                (obj_refs(old(ctx)@.heap, self.target()) + 1) as u64,
            ),
            !self.spec_refcounted() ==> r is None,
    {
        if self.refcounted_type() {
            let id = self.ptr_id();
            ctx.heap_add_ref(id);
            Some(ctx.heap_refs(id))
        } else {
            None
        }
    }

    /// Gives up one reference to the object a refcounted value designates
    /// and reports the new count, leaving the slot's reclamation to the
    /// caller; a primitive value is left alone.
    pub fn sub_ref(&self, ctx: &mut PikeContext) -> (r: Option<u64>)
        requires
            self.wf(),
            self.spec_refcounted() ==> obj_live(old(ctx)@.heap, self.target()) && obj_refs(
                old(ctx)@.heap,
                self.target(),
            ) >= 1,
        ensures
            self.spec_refcounted() ==> final(ctx)@ == old(ctx)@.with_heap(
                crate::heap::sub_ref_model(old(ctx)@.heap, self.target()),
            ) && r == Some((obj_refs(old(ctx)@.heap, self.target()) - 1) as u64),
            !self.spec_refcounted() ==> final(ctx)@ == old(ctx)@ && r is None,
    {
        if self.refcounted_type() {
            let id = self.ptr_id();
            let n = ctx.heap_sub_ref(id);
            Some(n)
        } else {
            None
        }
    }

    /// Copies the value, taking one more reference for refcounted kinds.
    pub fn clone_with_ctx(&self, ctx: &mut PikeContext) -> (r: Self)
        requires
            self.wf(),
            self.spec_refcounted() ==> obj_live(old(ctx)@.heap, self.target()) && obj_refs(
                old(ctx)@.heap,
                self.target(),
            ) < u64::MAX,
        ensures
            r == *self,
            final(ctx)@ == old(ctx)@.with_heap(add_sval_model(old(ctx)@.heap, *self)),
    {
        self.add_ref(ctx);
        *self
    }
}

impl Default for svalue {
    /// The default raw value is the distinguished undefined value.
    fn default() -> (r: Self)
        ensures
            r == svalue::spec_undefined(),
    {
        svalue::undefined()
    }
}

/// True iff the value's kind refers to a refcounted heap object; the
/// runtime's tag mask test, usable without holding a value's method.
pub fn refcounted_type(sv: &svalue) -> (r: bool)
    requires
        sv.wf(),
    ensures
        r == sv.spec_refcounted(),
{
    sv.refcounted_type()
}

} // verus!
