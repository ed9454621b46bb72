//! The error bridge: translating the foreign runtime's non-local-jump error
//! mechanism into `Result`, and back.
//!
//! A recovery point is installed with [`PikeContext::catch_begin`]; foreign
//! work then either completes or performs a throw, which lands the thrown
//! value in the context; [`PikeContext::catch_pike_error`] resolves the span,
//! unlinking the recovery point and turning a throw into an `Err` carrying a
//! human-readable description next to the thrown value itself.
//! The outward direction stages a message with [`prepare_error_message`] and
//! jumps with [`PikeContext::pike_error`].

use vstd::prelude::*;
use vstd::string::StrSliceExecFns;
use vstd::string::StringSliceAdditionalSpecFns;
use vstd::string::StringExecFns;
use vstd::utf8::{decode_utf8, valid_utf8};

use crate::heap::{alloc_model, obj_data, obj_kind, obj_live, ObjData, ObjModel};
use crate::interpreter::{CtxModel, PikeContext};
use crate::pike_thing::{sval_of_thing, thing_of_sval, PikeThing, ThingModel};
use crate::svalue::{Payload, svalue, PIKE_T_ARRAY, PIKE_T_STRING};

verus! {

/// An error crossing the extension boundary.
#[derive(Debug, PartialEq, Eq)]
pub enum PikeError {
    /// Wrong arity or argument type, detected in generated glue.
    Args(String),
    /// Any other failure raised by extension logic.
    Generic(String),
    /// An error thrown by foreign code: its description and the thrown
    /// value itself, kept for programmatic inspection.
    PikeError(String, PikeThing),
}

impl PikeError {
    /// The human-readable description of the error.
    pub open spec fn message_spec(&self) -> Seq<char> {
        match self {
            PikeError::Args(s) => s@,
            PikeError::Generic(s) => s@,
            PikeError::PikeError(s, _) => s@,
        }
    }

    /// The human-readable description of the error.
    pub fn message(&self) -> (m: String)
        ensures
            m@ == self.message_spec(),
    {
        match self {
            PikeError::Args(s) => s.clone(),
            PikeError::Generic(s) => s.clone(),
            PikeError::PikeError(s, _) => s.clone(),
        }
    }
}

impl From<String> for PikeError {
    /// Wraps a plain message as a generic error.
    fn from(s: String) -> (r: Self) {
        PikeError::Generic(s)
    }
}

impl vstd::std_specs::convert::FromSpecImpl<String> for PikeError {
    open spec fn obeys_from_spec() -> bool {
        true
    }

    open spec fn from_spec(s: String) -> Self {
        PikeError::Generic(s)
    }
}

/// The observable outcome of a span of foreign work: it returned a value,
/// or it performed a throw whose value arrives here.
#[derive(Debug, PartialEq, Eq)]
pub enum CallOutcome {
    /// The work returned this value; its ownership passes through.
    Returned(PikeThing),
    /// The work threw this value instead of returning.
    Threw(PikeThing),
}

/// The object `id` is a live string.
pub open spec fn is_string(heap: Seq<ObjModel>, id: usize) -> bool {
    obj_live(heap, id) && obj_kind(heap, id) == PIKE_T_STRING && obj_data(heap, id) is Text
}

/// The bytes of string `id`.
pub open spec fn text_of(heap: Seq<ObjModel>, id: usize) -> Seq<u8> {
    obj_data(heap, id)->Text_0
}

/// The text a thrown value describes itself with: the contents of a thrown
/// string, or of the leading string of a thrown array (the runtime's error
/// shape), if there is one.
pub open spec fn thrown_text(heap: Seq<ObjModel>, t: ThingModel) -> Option<Seq<u8>> {
    match t {
        ThingModel::PikeString(id) => if is_string(heap, id) {
            Some(text_of(heap, id))
        } else {
            None
        },
        ThingModel::Array(id) => if crate::pike_array::is_array(heap, id) {
            let elems = crate::pike_array::elems_of(heap, id);
            if elems.len() > 0 && elems[0].kind == PIKE_T_STRING && elems[0].payload is Ptr
                && is_string(heap, elems[0].target()) {
                Some(text_of(heap, elems[0].target()))
            } else {
                None
            }
        } else {
            None
        },
        _ => None,
    }
}

/// The description the master object's describer yields for a thrown value:
/// its self-describing text where it decodes as UTF-8, a fixed fallback
/// otherwise.
pub open spec fn description_of(heap: Seq<ObjModel>, t: ThingModel) -> Seq<char> {
    match thrown_text(heap, t) {
        Some(bytes) => if valid_utf8(bytes) {
            decode_utf8(bytes)
        } else {
            "Failed to describe error"@
        },
        None => "Failed to describe error"@,
    }
}

/// Error-bridge round trip: a message staged as a fresh string object is
/// recovered verbatim by the describer when the caught value is that
/// string — the description of the thrown message is its own decoded text.
pub proof fn lemma_staged_description(heap: Seq<ObjModel>, bytes: Seq<u8>)
    requires
        heap.len() < usize::MAX,
        valid_utf8(terminated(bytes)),
    ensures
        description_of(
            alloc_model(heap, PIKE_T_STRING, crate::heap::DataModel::Text(terminated(bytes))),
            ThingModel::PikeString(heap.len() as usize),
        ) == decode_utf8(terminated(bytes)),
{
    let staged = alloc_model(heap, PIKE_T_STRING, crate::heap::DataModel::Text(terminated(bytes)));
    let id = heap.len() as usize;
    assert(staged[id as int].data == crate::heap::DataModel::Text(terminated(bytes)));
    assert(is_string(staged, id));
    assert(text_of(staged, id) == terminated(bytes));
}

/// Relies on `String::from_utf8`: it returns `Ok` exactly on valid UTF-8
/// input, decoding it, and `Err` otherwise.
#[verifier::external_body]
fn bytes_to_string(v: Vec<u8>) -> (r: Option<String>)
    ensures
        r is Some <==> valid_utf8(v@),
        r matches Some(s) ==> s@ == decode_utf8(v@),
{
    String::from_utf8(v).ok()
}

/// Looks up a human-readable description for a thrown value, as the
/// runtime's master object does: a thrown string (or error array led by
/// one) describes itself; anything else gets a fixed fallback.
fn describe_pike_error(pike_error: &PikeThing, ctx: &PikeContext) -> (desc: String)
    ensures
        desc@ == description_of(ctx@.heap, pike_error@),
{
    let fallback = "Failed to describe error";
    let text_id: Option<usize> = match pike_error {
        PikeThing::PikeString(s) => Some(s.id),
        PikeThing::Array(a) => {
            if a.id < ctx.heap_len() && ctx.heap_is_live(a.id) && ctx.heap_kind(a.id)
                == PIKE_T_ARRAY {
                match ctx.heap_data(a.id) {
                    ObjData::Elems(v) => {
                        if v.len() > 0 {
                            let first = v[0];
                            if first.kind == PIKE_T_STRING {
                                match first.payload {
                                    Payload::Ptr(id) => Some(id),
                                    _ => None,
                                }
                            } else {
                                None
                            }
                        } else {
                            None
                        }
                    },
                    _ => None,
                }
            } else {
                None
            }
        },
        _ => None,
    };
    match text_id {
        Some(id) => {
            if id < ctx.heap_len() && ctx.heap_is_live(id) && ctx.heap_kind(id) == PIKE_T_STRING {
                match ctx.heap_data(id) {
                    ObjData::Text(bytes) => {
                        let copy = bytes.clone();
                        proof {
                            assert(copy@ =~= text_of(ctx@.heap, id));
                        }
                        match bytes_to_string(copy) {
                            Some(s) => s,
                            None => String::from_str(fallback),
                        }
                    },
                    _ => String::from_str(fallback),
                }
            } else {
                String::from_str(fallback)
            }
        },
        None => String::from_str(fallback),
    }
}

/// The text contains no NUL character, so its C-string conversion at the
/// foreign boundary cannot fail.
pub open spec fn chars_no_nul(s: Seq<char>) -> bool {
    forall|i: int| 0 <= i < s.len() ==> s[i] != '\0'
}

/// The UTF-8 encoding of the text contains a NUL byte, which no C string
/// can carry across the foreign boundary.
pub open spec fn has_nul_byte(s: &str) -> bool {
    exists|i: int| 0 <= i < s.spec_bytes().len() && s.spec_bytes()[i] == 0u8
}

/// Decides whether the text contains a NUL byte.
pub fn contains_nul_byte(s: &str) -> (r: bool)
    ensures
        r == has_nul_byte(s),
{
    let bytes = s.as_bytes_vec();
    let n = bytes.len();
    let mut i: usize = 0;
    while i < n
        invariant
            i <= n,
            n == bytes@.len(),
            bytes@ == s.spec_bytes(),
            forall|j: int| 0 <= j < i ==> bytes@[j] != 0u8,
        decreases n - i,
    {
        if bytes[i] == 0u8 {
            return true;
        }
        i = i + 1;
    }
    false
}

/// The message bytes as staged on the stack: newline-terminated.
pub open spec fn terminated(bytes: Seq<u8>) -> Seq<u8> {
    if bytes.len() > 0 && bytes.last() == 10u8 {
        bytes
    } else {
        bytes.push(10u8)
    }
}

/// Stages an error message for a later [`PikeContext::pike_error`] call:
/// allocates a string holding the message, newline-terminated, and pushes
/// it on the foreign stack, where the runtime can reclaim it after the
/// jump.  The message may not contain NUL bytes.
pub fn prepare_error_message(ctx: &mut PikeContext, message: &str)
    requires
        forall|i: int|
            0 <= i < message.spec_bytes().len() ==> message.spec_bytes()[i] != 0u8,
    ensures
        final(ctx)@ == old(ctx)@.with_heap(
            alloc_model(
                old(ctx)@.heap,
                PIKE_T_STRING,
                crate::heap::DataModel::Text(terminated(message.spec_bytes())),
            ),
        ).with_stack(
            old(ctx)@.stack.push(
                svalue {
                    kind: PIKE_T_STRING,
                    subkind: 0,
                    payload: Payload::Ptr(old(ctx)@.heap.len() as usize),
                },
            ),
        ),
{
    let mut bytes = message.as_bytes_vec();
    if bytes.len() == 0 || bytes[bytes.len() - 1] != 10u8 {
        bytes.push(10u8);
    }
    proof {
        assert(bytes@ =~= terminated(message.spec_bytes()));
    }
    let id = ctx.heap_allocate(PIKE_T_STRING, ObjData::Text(bytes));
    ctx.push_svalue(svalue { kind: PIKE_T_STRING, subkind: 0, payload: Payload::Ptr(id) });
}

impl PikeContext {
    /// Installs a recovery point for foreign work about to run.
    pub fn catch_begin(&mut self)
        requires
            old(self)@.recoveries < u64::MAX,
        ensures
            final(self)@ == (CtxModel {
                recoveries: (old(self)@.recoveries + 1) as u64,
                ..old(self)@
            }),
    {
        let r = self.recoveries_raw();
        self.set_recoveries_raw(r + 1);
    }

    /// A foreign throw arriving at the nearest recovery point: the thrown
    /// value's ownership lands in the context.  Models the runtime's side
    /// of the non-local jump; extension code itself throws through
    /// [`PikeContext::pike_error`].
    pub fn throw_value(&mut self, value: PikeThing)
        requires
            old(self)@.recoveries >= 1,
            old(self)@.thrown is None,
        ensures
            final(self)@ == (CtxModel {
                thrown: Some(sval_of_thing(value@)),
                ..old(self)@
            }),
    {
        let sv = value.into_svalue();
        self.set_thrown_raw(Some(sv));
    }

    /// Performs the non-local jump that raises a staged error: the message
    /// previously pushed by [`prepare_error_message`] comes off the stack
    /// and becomes the thrown value.  In the running system control never
    /// returns to the raiser; in the model the jump's landing is the next
    /// [`PikeContext::catch_pike_error`] call.
    pub fn pike_error(&mut self)
        requires
            old(self)@.recoveries >= 1,
            old(self)@.thrown is None,
            old(self)@.stack.len() > 0,
            old(self)@.stack.last().wf(),
            old(self)@.stack.last().kind == PIKE_T_STRING,
        ensures
            final(self)@ == (CtxModel {
                thrown: Some(old(self)@.stack.last()),
                ..old(self)@.with_stack(old(self)@.stack.drop_last())
            }),
    {
        let sv = self.pop_svalue();
        self.set_thrown_raw(Some(sv));
    }

    /// Resolves a span of foreign work guarded by a recovery point,
    /// unlinking the point.  `outcome` is what the work returned, or `None`
    /// where it jumped instead — exactly one of the two happens.  A normal
    /// return comes back as `Ok`; a throw is read out of the context,
    /// described, and handed back as `Err` together with the thrown value,
    /// whose ownership moves into the error.
    pub fn catch_pike_error<TRes>(&mut self, outcome: Option<TRes>) -> (r: Result<
        TRes,
        PikeError,
    >)
        requires
            old(self)@.recoveries >= 1,
            (old(self)@.thrown is Some) <==> (outcome is None),
            old(self)@.thrown matches Some(sv) ==> sv.wf(),
        ensures
            final(self)@ == (CtxModel {
                recoveries: (old(self)@.recoveries - 1) as u64,
                thrown: None,
                ..old(self)@
            }),
            outcome matches Some(v) ==> (r matches Ok(rv) && rv == v),
            outcome is None ==> (r matches Err(e) && e matches PikeError::PikeError(d, th) && d@
                == description_of(old(self)@.heap, thing_of_sval(old(self)@.thrown->0)) && th@
                == thing_of_sval(old(self)@.thrown->0)),
    {
        let r = self.recoveries_raw();
        self.set_recoveries_raw(r - 1);
        match outcome {
            Some(v) => Ok(v),
            None => {
                let sv = self.thrown_raw().unwrap();
                self.set_thrown_raw(None);
                let thrown = PikeThing::from_svalue(sv);
                let desc = describe_pike_error(&thrown, self);
                Err(PikeError::PikeError(desc, thrown))
            },
        }
    }
}

} // verus!
