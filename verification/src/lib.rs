//! Safe, verified model of a binding layer over an embeddable dynamic-language
//! interpreter's native object model.
//!
//! The foreign runtime keeps every value as a manually refcounted heap object
//! whose refcount may only be mutated while a global interpreter lock is held.
//! This crate models that world explicitly: the interpreter state (heap,
//! evaluation stack, error-recovery chain, compiler) is a value owned by the
//! lock token, [`interpreter::PikeContext`], and every operation that touches
//! foreign state takes the token.  Refcount conservation, deferred-release
//! draining, value conversions and the generated-glue calling convention are
//! all stated as contracts and proved.

pub mod error;
pub mod export;
pub mod heap;
pub mod interpreter;
pub mod module;
pub mod pike_array;
pub mod pike_float;
pub mod pike_function;
pub mod pike_int;
pub mod pike_mapping;
pub mod pike_multiset;
pub mod pike_object;
pub mod pike_program;
pub mod pike_str;
pub mod pike_thing;
pub mod pike_type;
pub mod storage;
pub mod svalue;
pub mod traits;

