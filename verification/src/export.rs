//! The code-generation layer: classifying annotated Rust signatures into a
//! closed set of marshaling categories, building the foreign function-type
//! descriptor, and the runtime behaviour of the generated entry-point glue
//! (argument-count and argument-type checking, result delivery, error
//! raising, and class registration).
//!
//! The generation-time input is a parsed signature, modelled by [`FnSig`]
//! and [`TypeShape`]; unsupported shapes are rejected with the generator's
//! diagnostics.  The glue generated for an export is a fixed template over
//! the classification; its runtime behaviour is what [`marshal_args`],
//! [`finish_export`] and [`register_class`] implement and prove.

use vstd::prelude::*;
use vstd::string::StrSliceExecFns;
use vstd::string::StringExecFns;
use vstd::string::StringSliceAdditionalSpecFns;

use crate::error::PikeError;
use crate::interpreter::{add_sval_model, sval_live, sval_room, PikeContext};
use crate::pike_thing::{thing_of_sval, PikeThing, ThingModel};
use crate::svalue::svalue;

verus! {

/// Model of a Rust type as it appears in an exported signature.
#[derive(Debug, PartialEq, Eq)]
pub enum TypeShape {
    /// A bare single-segment path, e.g. `i64` or `MyType`.
    Named(String),
    /// A multi-segment or globally qualified path; carries the last
    /// segment's name.
    Qualified(String),
    /// A path whose last segment is `Result` with this first type argument.
    ResultOf(Box<TypeShape>),
    /// A reference `&T`.
    Reference(Box<TypeShape>),
    /// A slice `[T]` (under a reference in real signatures).
    Slice(Box<TypeShape>),
    /// A tuple with this many elements; zero is the unit type.
    Tuple(usize),
    /// A parenthesised type.
    Paren(Box<TypeShape>),
    /// Any other shape.
    Other,
}

/// A marshaling category: what the generated glue does with one parameter
/// or return position.  The closed table is the point: anything outside it
/// is rejected at generation time.
#[derive(Debug, PartialEq, Eq)]
pub enum ExportType {
    /// The method's `&self`; marshaled from the current object's storage.
    SelfRef,
    /// The unit type; no value crosses.
    Unit,
    /// An integer-like parameter or return.
    Int,
    /// A float-like parameter or return.
    Float,
    /// A borrowed string parameter.
    StrRef,
    /// An owned string.
    OwnedString,
    /// A bare `Fn` trait parameter.
    Fn,
    /// A foreign function value.
    PikeFunction,
    /// Any typed value.
    PikeThing,
    /// A foreign string value.
    PikeString,
    /// A `Result` of another category.
    ResultOf(Box<ExportType>),
    /// Another exported type taken by value.
    Wrapped,
    /// Another exported type taken by reference.
    WrappedRef,
    /// A slice parameter (not marshalable).
    Slice,
    /// Anything outside the closed table.
    Unknown,
}

impl Clone for ExportType {
    /// A structural copy.
    fn clone(&self) -> (r: Self)
        ensures
            r == *self,
        decreases *self,
    {
        match self {
            ExportType::SelfRef => ExportType::SelfRef,
            ExportType::Unit => ExportType::Unit,
            ExportType::Int => ExportType::Int,
            ExportType::Float => ExportType::Float,
            ExportType::StrRef => ExportType::StrRef,
            ExportType::OwnedString => ExportType::OwnedString,
            ExportType::Fn => ExportType::Fn,
            ExportType::PikeFunction => ExportType::PikeFunction,
            ExportType::PikeThing => ExportType::PikeThing,
            ExportType::PikeString => ExportType::PikeString,
            ExportType::ResultOf(inner) => ExportType::ResultOf(Box::new((&**inner).clone())),
            ExportType::Wrapped => ExportType::Wrapped,
            ExportType::WrappedRef => ExportType::WrappedRef,
            ExportType::Slice => ExportType::Slice,
            ExportType::Unknown => ExportType::Unknown,
        }
    }
}

/// Compares two string slices by contents.
fn str_eq(a: &str, b: &str) -> (r: bool)
    ensures
        r == (a@ == b@),
{
    let av = a.as_bytes_vec();
    let bv = b.as_bytes_vec();
    if av.len() != bv.len() {
        proof {
            assert(a@ != b@);
        }
        return false;
    }
    let n = av.len();
    let mut i: usize = 0;
    while i < n
        invariant
            i <= n,
            n == av@.len() == bv@.len(),
            av@ == a.spec_bytes(),
            bv@ == b.spec_bytes(),
            forall|j: int| 0 <= j < i ==> av@[j] == bv@[j],
        decreases n - i,
    {
        if av[i] != bv[i] {
            proof {
                assert(a.spec_bytes() != b.spec_bytes());
                assert(a@ != b@);
            }
            return false;
        }
        i = i + 1;
    }
    proof {
        assert(a.spec_bytes() =~= b.spec_bytes());
        vstd::utf8::encode_utf8_decode_utf8(a@);
        vstd::utf8::encode_utf8_decode_utf8(b@);
        assert(a@ == b@);
    }
    true
}

/// The category a type shape classifies into: the generator's closed type
/// table.
pub open spec fn spec_match_type(ty: TypeShape) -> ExportType
    decreases ty,
{
    match ty {
        TypeShape::Reference(inner) => match *inner {
            TypeShape::Named(name) => if name@ == "str"@ {
                ExportType::StrRef
            } else {
                ExportType::WrappedRef
            },
            TypeShape::Slice(_) => ExportType::Slice,
            TypeShape::Qualified(_) => ExportType::WrappedRef,
            other => spec_match_type(other),
        },
        TypeShape::ResultOf(inner) => ExportType::ResultOf(Box::new(spec_match_type(*inner))),
        TypeShape::Named(name) => {
            if name@ == "i64"@ || name@ == "u64"@ || name@ == "i32"@ || name@ == "u32"@ || name@
                == "i16"@ || name@ == "u16"@ || name@ == "i8"@ || name@ == "u8"@ {
                ExportType::Int
            } else if name@ == "f64"@ || name@ == "f32"@ {
                ExportType::Float
            } else if name@ == "String"@ {
                ExportType::OwnedString
            } else if name@ == "Fn"@ {
                ExportType::Fn
            } else if name@ == "PikeFunction"@ {
                ExportType::PikeFunction
            } else if name@ == "PikeThing"@ {
                ExportType::PikeThing
            } else if name@ == "PikeString"@ {
                ExportType::PikeString
            } else {
                ExportType::Wrapped
            }
        },
        TypeShape::Qualified(_) => ExportType::Wrapped,
        TypeShape::Tuple(n) => if n == 0 {
            ExportType::Unit
        } else {
            ExportType::Unknown
        },
        TypeShape::Paren(inner) => spec_match_type(*inner),
        _ => ExportType::Unknown,
    }
}

/// Classifies a parsed type into its marshaling category.
pub fn match_type(ty: &TypeShape) -> (r: ExportType)
    ensures
        r == spec_match_type(*ty),
    decreases *ty,
{
    match ty {
        TypeShape::Reference(inner) => match &**inner {
            TypeShape::Named(name) => {
                if str_eq(name.as_str(), "str") {
                    ExportType::StrRef
                } else {
                    ExportType::WrappedRef
                }
            },
            TypeShape::Slice(_) => ExportType::Slice,
            TypeShape::Qualified(_) => ExportType::WrappedRef,
            other => match_type(other),
        },
        TypeShape::ResultOf(inner) => ExportType::ResultOf(Box::new(match_type(&**inner))),
        TypeShape::Named(name) => {
            let s = name.as_str();
            if str_eq(s, "i64") || str_eq(s, "u64") || str_eq(s, "i32") || str_eq(s, "u32")
                || str_eq(s, "i16") || str_eq(s, "u16") || str_eq(s, "i8") || str_eq(s, "u8") {
                ExportType::Int
            } else if str_eq(s, "f64") || str_eq(s, "f32") {
                ExportType::Float
            } else if str_eq(s, "String") {
                ExportType::OwnedString
            } else if str_eq(s, "Fn") {
                ExportType::Fn
            } else if str_eq(s, "PikeFunction") {
                ExportType::PikeFunction
            } else if str_eq(s, "PikeThing") {
                ExportType::PikeThing
            } else if str_eq(s, "PikeString") {
                ExportType::PikeString
            } else {
                ExportType::Wrapped
            }
        },
        TypeShape::Qualified(_) => ExportType::Wrapped,
        TypeShape::Tuple(n) => {
            if *n == 0 {
                ExportType::Unit
            } else {
                ExportType::Unknown
            }
        },
        TypeShape::Paren(inner) => match_type(&**inner),
        _ => ExportType::Unknown,
    }
}

/// The binder pattern of one parameter of a parsed signature.
#[derive(Debug, PartialEq, Eq)]
pub enum ArgPat {
    /// The `_` pattern.
    Wild,
    /// A plain identifier binding, possibly with modifiers.
    Ident {
        /// The bound name.
        name: String,
        /// Bound with `ref`.
        by_ref: bool,
        /// Bound with `mut`.
        mutable: bool,
        /// Carries a subpattern (`name @ pat`).
        has_subpat: bool,
    },
    /// Any other pattern.
    Other,
}

/// One parameter of a parsed signature.
#[derive(Debug, PartialEq, Eq)]
pub enum FnArg {
    /// `&self`.
    SelfRef,
    /// `self` by value.
    SelfValue,
    /// A parameter with no binder (bare type).
    Ignored(TypeShape),
    /// A parameter with a binder pattern and a type.
    Captured(ArgPat, TypeShape),
    /// A parameter with an inferred type.
    Inferred,
}

/// A parsed Rust function signature, as handed in by the attribute layer.
#[derive(Debug, PartialEq, Eq)]
pub struct FnSig {
    /// The signature declares lifetimes.
    pub has_lifetimes: bool,
    /// The signature declares type parameters.
    pub has_generics: bool,
    /// The signature has a `where` clause.
    pub has_where_clause: bool,
    /// The signature is variadic.
    pub is_variadic: bool,
    /// The parameters, in order.
    pub inputs: Vec<FnArg>,
    /// The declared return type; none means the default unit.
    pub output: Option<TypeShape>,
}

/// One classified parameter of an export.
#[derive(Debug, PartialEq, Eq)]
pub struct ExportArg {
    /// The binder name the generated glue uses (empty for positional
    /// binders).
    pub name: String,
    /// The parameter's marshaling category.
    pub ty: ExportType,
}

/// A classified export: everything the generator needs to emit glue for one
/// function.
#[derive(Debug, PartialEq, Eq)]
pub struct Export {
    /// The exported function's name.
    pub ident: String,
    /// The classified parameters, in order.
    pub args: Vec<ExportArg>,
    /// The classified return position.
    pub return_ty: ExportType,
    /// Whether this export is a constructor (its result becomes the new
    /// object's storage instead of a pushed value).
    pub is_constructor: bool,
    /// The type the export's `impl` block belongs to, if any.
    pub struct_ty: Option<String>,
    /// Token standing for the generated native entry point's address.
    pub fun: u64,
}

/// Whether one parameter is acceptable to the generator.
pub open spec fn arg_acceptable(a: FnArg) -> bool {
    match a {
        FnArg::SelfRef => true,
        FnArg::SelfValue => false,
        FnArg::Ignored(_) => true,
        FnArg::Captured(pat, _) => match pat {
            ArgPat::Wild => true,
            ArgPat::Ident { name, by_ref, mutable, has_subpat } => !by_ref && !mutable
                && !has_subpat,
            ArgPat::Other => false,
        },
        FnArg::Inferred => false,
    }
}

/// The generator accepts the whole signature.
pub open spec fn sig_acceptable(sig: FnSig) -> bool {
    &&& !sig.has_lifetimes
    &&& !sig.has_generics
    &&& !sig.has_where_clause
    &&& !sig.is_variadic
    &&& forall|i: int| 0 <= i < sig.inputs@.len() ==> arg_acceptable(#[trigger] sig.inputs@[i])
}

/// The category of one parameter.
pub open spec fn spec_arg_type(a: FnArg) -> ExportType {
    match a {
        FnArg::SelfRef => ExportType::SelfRef,
        FnArg::Ignored(ty) => spec_match_type(ty),
        FnArg::Captured(_, ty) => spec_match_type(ty),
        _ => ExportType::Unknown,
    }
}

/// The category of the return position.
pub open spec fn spec_return_type(sig: FnSig) -> ExportType {
    match sig.output {
        Option::None => ExportType::Unit,
        Option::Some(ty) => spec_match_type(ty),
    }
}

/// The diagnostic an unacceptable parameter draws.
pub open spec fn arg_reject_msg(a: FnArg) -> Seq<char> {
    match a {
        FnArg::SelfValue => "`self` is not supported"@,
        FnArg::Captured(pat, _) => match pat {
            ArgPat::Ident { name, by_ref, mutable, has_subpat } => if by_ref {
                "`ref` bindings are not supported"@
            } else if mutable {
                "`mut` bindings are not supported"@
            } else {
                "Subpatterns are not supported"@
            },
            ArgPat::Other => "Argument patterns are not supported"@,
            _ => Seq::empty(),
        },
        FnArg::Inferred => "inferred argument types are not supported"@,
        _ => Seq::empty(),
    }
}

/// The diagnostic of the first unacceptable parameter.
pub open spec fn first_reject_msg(inputs: Seq<FnArg>) -> Seq<char>
    decreases inputs.len(),
{
    if inputs.len() == 0 {
        Seq::empty()
    } else if !arg_acceptable(inputs.first()) {
        arg_reject_msg(inputs.first())
    } else {
        first_reject_msg(inputs.drop_first())
    }
}

/// The diagnostic a rejected signature draws: the first failing check, in
/// the order the generator tests them.
pub open spec fn reject_msg(sig: FnSig) -> Seq<char> {
    if sig.has_lifetimes {
        "Lifetimes are not yet not supported"@
    } else if sig.has_generics {
        "Generics are not supported"@
    } else if sig.has_where_clause {
        "`where` clauses are not supported"@
    } else if sig.is_variadic {
        "Variadic functions are not supported"@
    } else {
        first_reject_msg(sig.inputs@)
    }
}

/// The first unacceptable parameter determines the diagnostic.
proof fn lemma_first_reject_at(inputs: Seq<FnArg>, i: int)
    requires
        0 <= i < inputs.len(),
        !arg_acceptable(inputs[i]),
        forall|j: int| 0 <= j < i ==> arg_acceptable(#[trigger] inputs[j]),
    ensures
        first_reject_msg(inputs) == arg_reject_msg(inputs[i]),
    decreases i,
{
    if i > 0 {
        lemma_first_reject_at(inputs.drop_first(), i - 1);
    }
}

/// Classifies a whole signature into an export, rejecting unsupported
/// shapes with the generator's diagnostic.
pub fn into_export(ident: String, sig: &FnSig) -> (r: Result<Export, String>)
    ensures
        r is Ok <==> sig_acceptable(*sig),
        r matches Err(m) ==> m@ == reject_msg(*sig),
        r matches Ok(e) ==> {
            &&& e.ident@ == ident@
            &&& e.args@.len() == sig.inputs@.len()
            &&& forall|i: int|
                0 <= i < sig.inputs@.len() ==> (#[trigger] e.args@[i]).ty == spec_arg_type(
                    sig.inputs@[i],
                )
            &&& e.return_ty == spec_return_type(*sig)
            &&& !e.is_constructor
            &&& e.struct_ty is None
        },
{
    if sig.has_lifetimes {
        return Err(String::from_str("Lifetimes are not yet not supported"));
    }
    if sig.has_generics {
        return Err(String::from_str("Generics are not supported"));
    }
    if sig.has_where_clause {
        return Err(String::from_str("`where` clauses are not supported"));
    }
    if sig.is_variadic {
        return Err(String::from_str("Variadic functions are not supported"));
    }

    let return_ty = match &sig.output {
        Option::None => ExportType::Unit,
        Option::Some(ty) => match_type(ty),
    };

    let mut args: Vec<ExportArg> = Vec::new();
    let mut i: usize = 0;
    while i < sig.inputs.len()
        invariant
            !sig.has_lifetimes,
            !sig.has_generics,
            !sig.has_where_clause,
            !sig.is_variadic,
            i <= sig.inputs@.len(),
            args@.len() == i,
            forall|j: int| 0 <= j < i ==> arg_acceptable(#[trigger] sig.inputs@[j]),
            forall|j: int|
                0 <= j < i ==> (#[trigger] args@[j]).ty == spec_arg_type(sig.inputs@[j]),
        decreases sig.inputs@.len() - i,
    {
        let arg = vstd::std_specs::vec::vec_index(&sig.inputs, i);
        match arg {
            FnArg::SelfRef => {
                args.push(ExportArg { name: String::from_str("__self"), ty: ExportType::SelfRef });
            },
            FnArg::SelfValue => {
                proof {
                    lemma_first_reject_at(sig.inputs@, i as int);
                }
                return Err(String::from_str("`self` is not supported"));
            },
            FnArg::Ignored(ty) => {
                args.push(ExportArg { name: String::new(), ty: match_type(ty) });
            },
            FnArg::Captured(pat, ty) => {
                match pat {
                    ArgPat::Wild => {
                        args.push(ExportArg { name: String::new(), ty: match_type(ty) });
                    },
                    ArgPat::Ident { name, by_ref, mutable, has_subpat } => {
                        if *by_ref {
                            proof {
                                lemma_first_reject_at(sig.inputs@, i as int);
                            }
                            return Err(String::from_str("`ref` bindings are not supported"));
                        }
                        if *mutable {
                            proof {
                                lemma_first_reject_at(sig.inputs@, i as int);
                            }
                            return Err(String::from_str("`mut` bindings are not supported"));
                        }
                        if *has_subpat {
                            proof {
                                lemma_first_reject_at(sig.inputs@, i as int);
                            }
                            return Err(String::from_str("Subpatterns are not supported"));
                        }
                        args.push(ExportArg { name: name.clone(), ty: match_type(ty) });
                    },
                    ArgPat::Other => {
                        proof {
                            lemma_first_reject_at(sig.inputs@, i as int);
                        }
                        return Err(String::from_str("Argument patterns are not supported"));
                    },
                }
            },
            FnArg::Inferred => {
                proof {
                    lemma_first_reject_at(sig.inputs@, i as int);
                }
                return Err(String::from_str("inferred argument types are not supported"));
            },
        }
        i = i + 1;
    }

    Ok(Export { ident, args, return_ty, is_constructor: false, struct_ty: None, fun: 0 })
}

/// The return position can be registered with the runtime.
pub open spec fn supported_return(t: ExportType) -> bool
    decreases t,
{
    match t {
        ExportType::Unit => true,
        ExportType::Int => true,
        ExportType::Float => true,
        ExportType::StrRef => true,
        ExportType::OwnedString => true,
        ExportType::Fn => true,
        ExportType::PikeFunction => true,
        ExportType::PikeThing => true,
        ExportType::PikeString => true,
        ExportType::Wrapped => true,
        ExportType::ResultOf(inner) => supported_return(*inner),
        _ => false,
    }
}

/// The foreign type name of a return position.
pub open spec fn return_name_chars(t: ExportType) -> Seq<char>
    decreases t,
{
    match t {
        ExportType::Unit => "void"@,
        ExportType::Int => "int"@,
        ExportType::Float => "float"@,
        ExportType::StrRef => "string"@,
        ExportType::OwnedString => "string"@,
        ExportType::Fn => "function"@,
        ExportType::PikeFunction => "function"@,
        ExportType::PikeThing => "mixed"@,
        ExportType::PikeString => "string"@,
        ExportType::Wrapped => "object"@,
        ExportType::ResultOf(inner) => return_name_chars(*inner),
        _ => Seq::empty(),
    }
}

/// The foreign type name the registered signature declares for a return
/// position.
pub fn pike_return_type(ty: &ExportType) -> (r: &str)
    requires
        supported_return(*ty),
    ensures
        r@ == return_name_chars(*ty),
    decreases *ty,
{
    match ty {
        ExportType::Unit => "void",
        ExportType::Int => "int",
        ExportType::Float => "float",
        ExportType::StrRef => "string",
        ExportType::OwnedString => "string",
        ExportType::Fn => "function",
        ExportType::PikeFunction => "function",
        ExportType::PikeThing => "mixed",
        ExportType::PikeString => "string",
        ExportType::Wrapped => "object",
        ExportType::ResultOf(inner) => pike_return_type(&**inner),
        _ => {
            proof {
                assert(false);
            }
            ""
        },
    }
}

/// A parameter position the generated glue can marshal.
pub open spec fn supported_arg(t: ExportType) -> bool {
    match t {
        ExportType::Int => true,
        ExportType::Float => true,
        ExportType::StrRef => true,
        ExportType::OwnedString => true,
        ExportType::Fn => true,
        ExportType::PikeFunction => true,
        ExportType::PikeThing => true,
        ExportType::PikeString => true,
        ExportType::WrappedRef => true,
        _ => false,
    }
}

/// The foreign type name of a parameter position.
pub open spec fn arg_name_chars(t: ExportType) -> Seq<char> {
    match t {
        ExportType::Int => "int"@,
        ExportType::Float => "float"@,
        ExportType::StrRef => "string"@,
        ExportType::OwnedString => "string"@,
        ExportType::Fn => "function"@,
        ExportType::PikeFunction => "function"@,
        ExportType::PikeThing => "mixed"@,
        ExportType::PikeString => "string"@,
        ExportType::WrappedRef => "object"@,
        _ => Seq::empty(),
    }
}

/// The foreign type name the registered signature declares for a parameter.
pub fn pike_arg_type(ty: &ExportType) -> (r: &str)
    requires
        supported_arg(*ty),
    ensures
        r@ == arg_name_chars(*ty),
{
    match ty {
        ExportType::Int => "int",
        ExportType::Float => "float",
        ExportType::StrRef => "string",
        ExportType::OwnedString => "string",
        ExportType::Fn => "function",
        ExportType::PikeFunction => "function",
        ExportType::PikeThing => "mixed",
        ExportType::PikeString => "string",
        ExportType::WrappedRef => "object",
        _ => {
            proof {
                assert(false);
            }
            ""
        },
    }
}

/// The parameter categories of an export, in order.
pub open spec fn arg_types_of(e: Export) -> Seq<ExportType> {
    Seq::new(e.args@.len(), |i: int| e.args@[i].ty)
}

/// The parameters that consume a stack slot: everything but `&self`.
pub open spec fn kept_args(tys: Seq<ExportType>) -> Seq<ExportType>
    decreases tys.len(),
{
    if tys.len() == 0 {
        Seq::empty()
    } else if tys.first() is SelfRef {
        kept_args(tys.drop_first())
    } else {
        seq![tys.first()] + kept_args(tys.drop_first())
    }
}

/// Every stack-consuming parameter of the export is marshalable.
pub open spec fn export_args_supported(e: Export) -> bool {
    forall|i: int|
        0 <= i < kept_args(arg_types_of(e)).len() ==> supported_arg(
            #[trigger] kept_args(arg_types_of(e))[i],
        )
}

/// The comma-joined foreign names of a run of parameters.
pub open spec fn joined_chars(ks: Seq<ExportType>) -> Seq<char>
    decreases ks.len(),
{
    if ks.len() == 0 {
        Seq::empty()
    } else if ks.len() == 1 {
        arg_name_chars(ks[0])
    } else {
        arg_name_chars(ks[0]) + ","@ + joined_chars(ks.drop_first())
    }
}

/// The parameter part of a descriptor: `void` where nothing is taken.
pub open spec fn args_part_chars(ks: Seq<ExportType>) -> Seq<char> {
    if ks.len() == 0 {
        "void"@
    } else {
        joined_chars(ks)
    }
}

/// The foreign function-type descriptor the export registers under:
/// `function(` the parameter names `:` the return name `)`.
pub open spec fn descriptor_chars(e: Export) -> Seq<char> {
    "function("@ + args_part_chars(kept_args(arg_types_of(e))) + ":"@ + return_name_chars(
        e.return_ty,
    ) + ")"@
}

/// The stack-consuming parameters of an export.
fn kept_types(e: &Export) -> (r: Vec<ExportType>)
    ensures
        r@ == kept_args(arg_types_of(*e)),
{
    let ghost tys = arg_types_of(*e);
    proof {
        assert(tys.skip(0) =~= tys);
    }
    let mut out: Vec<ExportType> = Vec::new();
    let mut i: usize = 0;
    while i < e.args.len()
        invariant
            i <= e.args@.len(),
            tys == arg_types_of(*e),
            tys.len() == e.args@.len(),
            out@ + kept_args(tys.skip(i as int)) =~= kept_args(tys),
        decreases e.args@.len() - i,
    {
        let ghost rem = tys.skip(i as int);
        let ghost pre = out@;
        let a = vstd::std_specs::vec::vec_index(&e.args, i);
        proof {
            assert(rem.first() == a.ty);
            assert(tys.skip((i as int) + 1) =~= rem.drop_first());
        }
        match &a.ty {
            ExportType::SelfRef => {},
            _ => {
                out.push(a.ty.clone());
                proof {
                    assert(kept_args(rem) == seq![rem.first()] + kept_args(rem.drop_first()));
                    assert(out@ =~= pre + seq![a.ty]);
                    assert(out@ + kept_args(rem.drop_first()) =~= pre + kept_args(rem));
                }
            },
        }
        i = i + 1;
    }
    proof {
        assert(tys.skip(tys.len() as int) =~= Seq::<ExportType>::empty());
        assert(out@ + Seq::<ExportType>::empty() =~= out@);
    }
    out
}

/// The comma-joined foreign names of the parameters from `i` on.
fn join_arg_names(kept: &Vec<ExportType>, i: usize) -> (r: String)
    requires
        i < kept@.len(),
        forall|j: int| 0 <= j < kept@.len() ==> supported_arg(#[trigger] kept@[j]),
    ensures
        r@ == joined_chars(kept@.skip(i as int)),
    decreases kept@.len() - i,
{
    let ghost rem = kept@.skip(i as int);
    let part = String::from_str(pike_arg_type(vstd::std_specs::vec::vec_index(kept, i)));
    proof {
        assert(rem.first() == kept@[i as int]);
        assert(kept@.skip((i as int) + 1) =~= rem.drop_first());
    }
    if i == kept.len() - 1 {
        proof {
            assert(rem.len() == 1);
        }
        part
    } else {
        let rest = join_arg_names(kept, i + 1);
        let with_comma = part.concat(",");
        with_comma.concat(rest.as_str())
    }
}

/// Builds the foreign function-type descriptor an export registers under.
pub fn descriptor(e: &Export) -> (r: String)
    requires
        supported_return(e.return_ty),
        export_args_supported(*e),
    ensures
        r@ == descriptor_chars(*e),
{
    let kept = kept_types(e);
    let head = String::from_str("function(");
    let with_args = if kept.len() == 0 {
        proof {
            assert(kept@.skip(0) =~= kept@);
        }
        head.concat("void")
    } else {
        proof {
            assert(kept@.skip(0) =~= kept@);
        }
        let joined = join_arg_names(&kept, 0);
        head.concat(joined.as_str())
    };
    let with_colon = with_args.concat(":");
    let with_ret = with_colon.concat(pike_return_type(&e.return_ty));
    with_ret.concat(")")
}

/// What the glue checks a stack slot against for one parameter category.
pub open spec fn tag_ok(t: ExportType, sv: svalue) -> bool {
    match t {
        ExportType::Int => thing_of_sval(sv) is Int,
        ExportType::Float => thing_of_sval(sv) is Float,
        ExportType::StrRef => thing_of_sval(sv) is PikeString,
        ExportType::OwnedString => thing_of_sval(sv) is PikeString,
        ExportType::PikeString => thing_of_sval(sv) is PikeString,
        ExportType::Fn => thing_of_sval(sv) is Function,
        ExportType::PikeFunction => thing_of_sval(sv) is Function,
        ExportType::PikeThing => true,
        ExportType::WrappedRef => thing_of_sval(sv) is Object,
        _ => false,
    }
}

/// The diagnostic the glue raises when a stack slot has the wrong tag.
pub open spec fn mismatch_msg_chars(t: ExportType) -> Seq<char> {
    match t {
        ExportType::Int => "Wrong argument type, expected int."@,
        ExportType::Float => "Wrong argument type, expected float."@,
        ExportType::StrRef => "Wrong argument type, expected string."@,
        ExportType::OwnedString => "Wrong argument type, expected string."@,
        ExportType::PikeString => "Wrong argument type, expected string."@,
        ExportType::Fn => "Wrong argument type, expected function."@,
        ExportType::PikeFunction => "Wrong argument type, expected function."@,
        ExportType::WrappedRef => "Wrong argument type, expected object."@,
        _ => Seq::empty(),
    }
}

/// Checks a stack slot against one parameter category.
fn tag_check(t: &ExportType, sv: svalue) -> (r: bool)
    requires
        supported_arg(*t),
        sv.wf(),
    ensures
        r == tag_ok(*t, sv),
{
    match t {
        ExportType::Int => sv.kind == crate::svalue::PIKE_T_INT && sv.subkind
            != crate::svalue::NUMBER_UNDEFINED,
        ExportType::Float => sv.kind == crate::svalue::PIKE_T_FLOAT,
        ExportType::StrRef => sv.kind == crate::svalue::PIKE_T_STRING,
        ExportType::OwnedString => sv.kind == crate::svalue::PIKE_T_STRING,
        ExportType::PikeString => sv.kind == crate::svalue::PIKE_T_STRING,
        ExportType::Fn => sv.kind == crate::svalue::PIKE_T_FUNCTION,
        ExportType::PikeFunction => sv.kind == crate::svalue::PIKE_T_FUNCTION,
        ExportType::PikeThing => true,
        ExportType::WrappedRef => sv.kind == crate::svalue::PIKE_T_OBJECT,
        _ => {
            proof {
                assert(false);
            }
            false
        },
    }
}

/// The diagnostic raised for a wrong tag in one parameter position.
fn mismatch_msg(t: &ExportType) -> (r: String)
    requires
        supported_arg(*t),
        !(t is PikeThing),
    ensures
        r@ == mismatch_msg_chars(*t),
{
    match t {
        ExportType::Int => String::from_str("Wrong argument type, expected int."),
        ExportType::Float => String::from_str("Wrong argument type, expected float."),
        ExportType::StrRef => String::from_str("Wrong argument type, expected string."),
        ExportType::OwnedString => String::from_str("Wrong argument type, expected string."),
        ExportType::PikeString => String::from_str("Wrong argument type, expected string."),
        ExportType::Fn => String::from_str("Wrong argument type, expected function."),
        ExportType::PikeFunction => String::from_str("Wrong argument type, expected function."),
        ExportType::WrappedRef => String::from_str("Wrong argument type, expected object."),
        _ => {
            proof {
                assert(false);
            }
            String::new()
        },
    }
}

/// The heap after taking one reference for each value of a run, first
/// value first.
pub open spec fn add_svals_model(
    heap: Seq<crate::heap::ObjModel>,
    svs: Seq<svalue>,
) -> Seq<crate::heap::ObjModel>
    decreases svs.len(),
{
    if svs.len() == 0 {
        heap
    } else {
        add_svals_model(add_sval_model(heap, svs.first()), svs.drop_first())
    }
}

/// The run of stack slots an invocation with `args` arguments hands to the
/// export: the top `args` entries, bottom first.
pub open spec fn arg_slots(m: crate::interpreter::CtxModel, args: usize) -> Seq<svalue> {
    m.stack.skip(m.stack.len() - args as int)
}

/// Every handed slot can be read and re-referenced, with room for one
/// fresh reference per handed slot.
pub open spec fn arg_slots_ok(m: crate::interpreter::CtxModel, args: usize) -> bool {
    &&& args <= m.stack.len()
    &&& forall|i: int|
        0 <= i < args as int ==> {
            &&& (#[trigger] arg_slots(m, args)[i]).wf()
            &&& sval_live(m.heap, arg_slots(m, args)[i])
            &&& (arg_slots(m, args)[i].spec_refcounted() ==> crate::heap::obj_refs(
                m.heap,
                arg_slots(m, args)[i].target(),
            ) + args <= u64::MAX)
        }
}

/// All handed slots carry the tags the export's parameters expect.
pub open spec fn all_tags_ok(kept: Seq<ExportType>, slots: Seq<svalue>) -> bool {
    forall|i: int| 0 <= i < kept.len() ==> tag_ok(#[trigger] kept[i], slots[i])
}

/// The runtime argument-marshaling step of a generated entry point, called
/// with `args` values on top of the stack.  The count is validated against
/// the export's declared arity, each slot's tag against the declared
/// category; on success every argument is read off its slot with a fresh
/// reference.  On any error nothing is touched and the exact diagnostic is
/// returned for the raise step.
pub fn marshal_args(export: &Export, args: usize, ctx: &mut PikeContext) -> (r: Result<
    Vec<PikeThing>,
    PikeError,
>)
    requires
        export_args_supported(*export),
        arg_slots_ok(old(ctx)@, args),
    ensures
        ({
            let kept = kept_args(arg_types_of(*export));
            let slots = arg_slots(old(ctx)@, args);
            &&& (args != kept.len() ==> {
                &&& final(ctx)@ == old(ctx)@
                &&& r matches Err(e) && e matches PikeError::Args(m) && m@
                    == "Wrong number of arguments"@
            })
            &&& (args == kept.len() && !all_tags_ok(kept, slots) ==> {
                &&& final(ctx)@ == old(ctx)@
                &&& r matches Err(e) && e matches PikeError::Args(m) && exists|j: int|
                    {
                        &&& 0 <= j < kept.len()
                        &&& !tag_ok(kept[j], slots[j])
                        &&& (forall|l: int| 0 <= l < j ==> tag_ok(#[trigger] kept[l], slots[l]))
                        &&& m@ == mismatch_msg_chars(kept[j])
                    }
            })
            &&& (args == kept.len() && all_tags_ok(kept, slots) ==> {
                &&& final(ctx)@ == old(ctx)@.with_heap(add_svals_model(old(ctx)@.heap, slots))
                &&& r matches Ok(things) && {
                    &&& things@.len() == args
                    &&& forall|i: int|
                        0 <= i < args as int ==> (#[trigger] things@[i])@ == thing_of_sval(
                            slots[i],
                        )
                }
            })
        }),
{
    let ghost slots = arg_slots(old(ctx)@, args);
    let kept = kept_types(export);
    if args != kept.len() {
        return Err(PikeError::Args(String::from_str("Wrong number of arguments")));
    }
    let sl = ctx.stack_len();
    let base = sl - args;

    // First pass: validate every tag before touching any count.
    let mut i: usize = 0;
    while i < args
        invariant
            i <= args,
            args == kept@.len(),
            kept@ == kept_args(arg_types_of(*export)),
            export_args_supported(*export),
            arg_slots_ok(ctx@, args),
            ctx@ == old(ctx)@,
            slots == arg_slots(old(ctx)@, args),
            base + args == sl,
            sl == ctx@.stack.len(),
            forall|j: int| 0 <= j < i ==> tag_ok(#[trigger] kept@[j], slots[j]),
        decreases args - i,
    {
        let sv = ctx.stack_at(base + i);
        proof {
            assert(sv == slots[i as int]);
        }
        let ty = vstd::std_specs::vec::vec_index(&kept, i);
        if !tag_check(ty, sv) {
            proof {
                assert(!tag_ok(kept@[i as int], slots[i as int]));
            }
            return Err(PikeError::Args(mismatch_msg(ty)));
        }
        i = i + 1;
    }

    // Second pass: read each slot with a fresh reference.
    proof {
        assert(slots.skip(0) =~= slots);
        assert(ctx@ == old(ctx)@.with_heap(ctx@.heap));
    }
    let mut things: Vec<PikeThing> = Vec::new();
    let mut k: usize = 0;
    while k < args
        invariant
            k <= args,
            args == kept@.len(),
            arg_slots_ok(old(ctx)@, args),
            slots == arg_slots(old(ctx)@, args),
            base + args == sl,
            sl == old(ctx)@.stack.len(),
            ctx@ == old(ctx)@.with_heap(ctx@.heap),
            ctx@.heap.len() == old(ctx)@.heap.len(),
            forall|o: int|
                0 <= o < ctx@.heap.len() ==> {
                    &&& (#[trigger] ctx@.heap[o]).live == old(ctx)@.heap[o].live
                    &&& ctx@.heap[o].refs <= old(ctx)@.heap[o].refs + k
                },
            add_svals_model(ctx@.heap, slots.skip(k as int)) == add_svals_model(
                old(ctx)@.heap,
                slots,
            ),
            things@.len() == k,
            forall|i2: int|
                0 <= i2 < k ==> (#[trigger] things@[i2])@ == thing_of_sval(slots[i2]),
        decreases args - k,
    {
        let ghost rem = slots.skip(k as int);
        let ghost pre_heap = ctx@.heap;
        let sv = ctx.stack_at(base + k);
        proof {
            assert(sv == slots[k as int]);
            assert(rem.first() == sv);
            assert(slots.skip((k as int) + 1) =~= rem.drop_first());
            assert(sval_live(ctx@.heap, sv));
            assert(sval_room(ctx@.heap, sv));
        }
        let t = PikeThing::from_svalue_ref(&sv, ctx);
        proof {
            assert(ctx@.heap =~= add_sval_model(pre_heap, sv));
            assert(add_svals_model(pre_heap, rem) == add_svals_model(
                add_sval_model(pre_heap, rem.first()),
                rem.drop_first(),
            ));
        }
        things.push(t);
        k = k + 1;
    }
    proof {
        assert(slots.skip(args as int) =~= Seq::<svalue>::empty());
    }
    Ok(things)
}

/// The result-delivery step of a generated entry point: a computed value is
/// pushed for the caller; an error is staged as a message and raised
/// through the non-local jump (the thrown value is the staged message
/// string).
pub fn finish_export(res: Result<PikeThing, PikeError>, ctx: &mut PikeContext)
    requires
        old(ctx)@.recoveries >= 1,
        old(ctx)@.thrown is None,
        res matches Err(e) ==> forall|i: int|
            0 <= i < vstd::utf8::encode_utf8(e.message_spec()).len() ==> (
            #[trigger] vstd::utf8::encode_utf8(e.message_spec())[i]) != 0u8,
    ensures
        res matches Ok(v) ==> final(ctx)@ == old(ctx)@.with_stack(
            old(ctx)@.stack.push(crate::pike_thing::sval_of_thing(v@)),
        ),
        res matches Err(e) ==> final(ctx)@ == (crate::interpreter::CtxModel {
            thrown: Some(
                svalue {
                    kind: crate::svalue::PIKE_T_STRING,
                    subkind: 0,
                    payload: crate::svalue::Payload::Ptr(old(ctx)@.heap.len() as usize),
                },
            ),
            ..old(ctx)@.with_heap(
                crate::heap::alloc_model(
                    old(ctx)@.heap,
                    crate::svalue::PIKE_T_STRING,
                    crate::heap::DataModel::Text(
                        crate::error::terminated(vstd::utf8::encode_utf8(e.message_spec())),
                    ),
                ),
            )
        }),
{
    match res {
        Ok(v) => {
            ctx.push_to_stack(v);
        },
        Err(e) => {
            let msg = e.message();
            crate::error::prepare_error_message(ctx, msg.as_str());
            ctx.pike_error();
        },
    }
}

/// The result-delivery step of a constructor-shaped export: the computed
/// value becomes the current object's extension storage instead of a pushed
/// value; an error is staged and raised as for any export.
pub fn finish_create_export<TStorage>(
    res: Result<TStorage, PikeError>,
    storage: &mut crate::storage::ObjectStorage<TStorage>,
    ctx: &mut PikeContext,
)
    requires
        old(ctx)@.recoveries >= 1,
        old(ctx)@.thrown is None,
        !old(storage).released,
        res matches Err(e) ==> forall|i: int|
            0 <= i < vstd::utf8::encode_utf8(e.message_spec()).len() ==> (
            #[trigger] vstd::utf8::encode_utf8(e.message_spec())[i]) != 0u8,
    ensures
        res matches Ok(v) ==> {
            &&& final(ctx)@ == old(ctx)@
            &&& final(storage).value matches Some(sv) && sv == v
            &&& !final(storage).released
        },
        res matches Err(e) ==> {
            &&& *final(storage) == *old(storage)
            &&& final(ctx)@ == (crate::interpreter::CtxModel {
                thrown: Some(
                    crate::svalue::svalue {
                        kind: crate::svalue::PIKE_T_STRING,
                        subkind: 0,
                        payload: crate::svalue::Payload::Ptr(old(ctx)@.heap.len() as usize),
                    },
                ),
                ..old(ctx)@.with_heap(
                    crate::heap::alloc_model(
                        old(ctx)@.heap,
                        crate::svalue::PIKE_T_STRING,
                        crate::heap::DataModel::Text(
                            crate::error::terminated(vstd::utf8::encode_utf8(e.message_spec())),
                        ),
                    ),
                )
            })
        },
{
    match res {
        Ok(v) => {
            storage.attach(v);
        },
        Err(e) => {
            let msg = e.message();
            crate::error::prepare_error_message(ctx, msg.as_str());
            ctx.pike_error();
        },
    }
}

/// The result-delivery step for an export returning another exported type:
/// the value is wrapped by instantiating the type's registered program with
/// the value as storage, and the new object is what reaches the caller.
pub fn finish_wrapped_export<TStorage>(
    prog: &crate::pike_program::PikeProgram<TStorage>,
    data: TStorage,
    ctx: &mut PikeContext,
) -> (r: (PikeThing, crate::storage::ObjectStorage<TStorage>))
    requires
        crate::heap::obj_live(old(ctx)@.heap, prog.program_ref.id),
    ensures
        final(ctx)@ == old(ctx)@.with_heap(
            crate::heap::alloc_model(
                old(ctx)@.heap,
                crate::svalue::PIKE_T_OBJECT,
                crate::heap::DataModel::Opaque,
            ),
        ),
        r.0@ == ThingModel::Object(old(ctx)@.heap.len() as usize),
        r.1.value matches Some(v) && v == data,
        !r.1.released,
{
    let created = prog.clone_object_with_data(data, ctx);
    match created {
        Ok((obj, slot)) => (PikeThing::Object(obj.object_ref.cast_storage()), slot),
        Err(_) => {
            proof {
                assert(false);
            }
            unreached()
        },
    }
}

/// Appending NUL-free texts yields a NUL-free text.
proof fn lemma_no_nul_concat(a: Seq<char>, b: Seq<char>)
    requires
        crate::error::chars_no_nul(a),
        crate::error::chars_no_nul(b),
    ensures
        crate::error::chars_no_nul(a + b),
{
    assert forall|i: int| 0 <= i < (a + b).len() implies (a + b)[i] != '\0' by {
        if i < a.len() {
            assert((a + b)[i] == a[i]);
        } else {
            assert((a + b)[i] == b[i - a.len()]);
        }
    }
}

/// No foreign type name of a parameter position contains NUL.
proof fn lemma_arg_name_no_nul(t: ExportType)
    requires
        supported_arg(t),
    ensures
        crate::error::chars_no_nul(arg_name_chars(t)),
{
    reveal_strlit("int");
    reveal_strlit("float");
    reveal_strlit("string");
    reveal_strlit("function");
    reveal_strlit("mixed");
    reveal_strlit("object");
}

/// No foreign type name of a return position contains NUL.
proof fn lemma_return_name_no_nul(t: ExportType)
    requires
        supported_return(t),
    ensures
        crate::error::chars_no_nul(return_name_chars(t)),
    decreases t,
{
    reveal_strlit("void");
    reveal_strlit("int");
    reveal_strlit("float");
    reveal_strlit("string");
    reveal_strlit("function");
    reveal_strlit("mixed");
    reveal_strlit("object");
    match t {
        ExportType::ResultOf(inner) => {
            lemma_return_name_no_nul(*inner);
        },
        _ => {},
    }
}

/// The comma-joined parameter names of a marshalable run contain no NUL.
proof fn lemma_joined_no_nul(ks: Seq<ExportType>)
    requires
        forall|i: int| 0 <= i < ks.len() ==> supported_arg(#[trigger] ks[i]),
    ensures
        crate::error::chars_no_nul(joined_chars(ks)),
    decreases ks.len(),
{
    if ks.len() == 0 {
    } else if ks.len() == 1 {
        lemma_arg_name_no_nul(ks[0]);
    } else {
        lemma_arg_name_no_nul(ks[0]);
        reveal_strlit(",");
        assert(forall|i: int|
            0 <= i < ks.drop_first().len() ==> supported_arg(#[trigger] ks.drop_first()[i]));
        lemma_joined_no_nul(ks.drop_first());
        lemma_no_nul_concat(arg_name_chars(ks[0]), ","@);
        lemma_no_nul_concat(arg_name_chars(ks[0]) + ","@, joined_chars(ks.drop_first()));
    }
}

/// A generated function-type descriptor contains no NUL, so it can always
/// cross the boundary as a C string.
pub proof fn lemma_descriptor_no_nul(e: Export)
    requires
        supported_return(e.return_ty),
        export_args_supported(e),
    ensures
        crate::error::chars_no_nul(descriptor_chars(e)),
{
    reveal_strlit("function(");
    reveal_strlit("void");
    reveal_strlit(":");
    reveal_strlit(")");
    let ks = kept_args(arg_types_of(e));
    if ks.len() == 0 {
        assert(crate::error::chars_no_nul(args_part_chars(ks)));
    } else {
        lemma_joined_no_nul(ks);
    }
    lemma_return_name_no_nul(e.return_ty);
    lemma_no_nul_concat("function("@, args_part_chars(ks));
    lemma_no_nul_concat("function("@ + args_part_chars(ks), ":"@);
    lemma_no_nul_concat("function("@ + args_part_chars(ks) + ":"@, return_name_chars(e.return_ty));
    lemma_no_nul_concat(
        "function("@ + args_part_chars(ks) + ":"@ + return_name_chars(e.return_ty),
        ")"@,
    );
}

/// The functions a class registration declares: one per export, under its
/// name, descriptor and entry-point token.
pub open spec fn class_func_decls(exports: Seq<Export>) -> Seq<crate::heap::FuncDeclModel> {
    Seq::new(
        exports.len(),
        |i: int|
            crate::heap::FuncDeclModel {
                name: exports[i].ident@,
                type_str: descriptor_chars(exports[i]),
                fun: exports[i].fun,
            },
    )
}

/// The registration sequence generated for an exported `impl` block: start
/// a class compilation with storage, register one function per export under
/// its descriptor, finish the program, and bind it as a constant of the
/// enclosing compilation under the class name.  The returned handle keeps
/// the program for later instantiation.
pub fn register_class<TStorage>(
    class_name: &str,
    exports: &Vec<Export>,
    ctx: &mut PikeContext,
) -> (r: crate::pike_program::PikeProgram<TStorage>)
    requires
        crate::pike_program::compiling(old(ctx)@),
        crate::error::chars_no_nul(class_name@),
        forall|i: int|
            0 <= i < exports@.len() ==> supported_return((#[trigger] exports@[i]).return_ty)
                && export_args_supported(exports@[i]) && crate::error::chars_no_nul(
                exports@[i].ident@,
            ),
    ensures
        ({
            let pid = old(ctx)@.heap.len() as usize;
            let mid = old(ctx)@.compiler.last() as usize;
            let enclosing = crate::pike_program::prog_of(old(ctx)@.heap, mid);
            let body = crate::heap::ProgModel {
                funcs: class_func_decls(exports@),
                constants: Seq::empty(),
                has_storage: true,
            };
            let with_class = crate::heap::alloc_model(
                old(ctx)@.heap,
                crate::svalue::PIKE_T_PROGRAM,
                crate::heap::DataModel::Program(body),
            );
            let with_const_ref = crate::heap::add_ref_model(with_class, pid);
            let bound = crate::heap::set_data_model(
                with_const_ref,
                mid,
                crate::heap::DataModel::Program(
                    crate::heap::ProgModel {
                        constants: enclosing.constants.push(
                            crate::heap::ConstDeclModel { name: class_name@, prog: pid },
                        ),
                        ..enclosing
                    },
                ),
            );
            &&& final(ctx)@ == old(ctx)@.with_heap(bound)
            &&& r.program_ref.id == pid
        }),
{
    let ghost orig = old(ctx)@;
    let pid = ctx.heap_len();
    let ghost mid_g = orig.compiler.last() as usize;
    let ghost decls = class_func_decls(exports@);
    let ghost body0 = crate::heap::ProgModel {
        funcs: Seq::empty(),
        constants: Seq::empty(),
        has_storage: true,
    };
    let ghost h_class = crate::heap::alloc_model(
        orig.heap,
        crate::svalue::PIKE_T_PROGRAM,
        crate::heap::DataModel::Program(body0),
    );

    crate::pike_program::PikeProgram::<TStorage>::start_new_program(class_name, 0, ctx);
    proof {
        assert(ctx@.compiler.last() == pid);
        assert(ctx@.heap[pid as int] == (crate::heap::ObjModel {
            kind: crate::svalue::PIKE_T_PROGRAM,
            refs: 1,
            live: true,
            data: crate::heap::DataModel::Program(body0),
        }));
        assert(crate::pike_program::is_program(ctx@.heap, pid));
        assert(decls.take(0) =~= Seq::<crate::heap::FuncDeclModel>::empty());
        assert(ctx@.heap =~= crate::heap::set_data_model(
            h_class,
            pid,
            crate::heap::DataModel::Program(
                crate::heap::ProgModel { funcs: decls.take(0), ..body0 },
            ),
        ));
    }

    let mut i: usize = 0;
    while i < exports.len()
        invariant
            i <= exports@.len(),
            decls == class_func_decls(exports@),
            pid == orig.heap.len(),
            h_class == crate::heap::alloc_model(
                orig.heap,
                crate::svalue::PIKE_T_PROGRAM,
                crate::heap::DataModel::Program(body0),
            ),
            crate::error::chars_no_nul(class_name@),
            forall|j: int|
                0 <= j < exports@.len() ==> supported_return((#[trigger] exports@[j]).return_ty)
                    && export_args_supported(exports@[j]) && crate::error::chars_no_nul(
                    exports@[j].ident@,
                ),
            ctx@ == (crate::interpreter::CtxModel {
                compiler: orig.compiler.push(pid),
                ..orig.with_heap(ctx@.heap)
            }),
            ctx@.heap =~= crate::heap::set_data_model(
                h_class,
                pid,
                crate::heap::DataModel::Program(
                    crate::heap::ProgModel { funcs: decls.take(i as int), ..body0 },
                ),
            ),
            crate::pike_program::is_program(ctx@.heap, pid),
            crate::pike_program::prog_of(ctx@.heap, pid) == (crate::heap::ProgModel {
                funcs: decls.take(i as int),
                ..body0
            }),
        decreases exports@.len() - i,
    {
        let ghost pre = ctx@.heap;
        let e = vstd::std_specs::vec::vec_index(exports, i);
        let desc = descriptor(e);
        proof {
            lemma_descriptor_no_nul(*e);
        }
        crate::pike_program::PikeProgram::<TStorage>::add_pike_func(
            e.ident.as_str(),
            desc.as_str(),
            e.fun,
            ctx,
        );
        proof {
            assert(decls.take(i as int).push(
                crate::heap::FuncDeclModel {
                    name: e.ident@,
                    type_str: descriptor_chars(*e),
                    fun: e.fun,
                },
            ) =~= decls.take((i as int) + 1));
            assert(ctx@.heap =~= crate::heap::set_data_model(
                h_class,
                pid,
                crate::heap::DataModel::Program(
                    crate::heap::ProgModel { funcs: decls.take((i as int) + 1), ..body0 },
                ),
            ));
            assert(crate::pike_program::prog_of(ctx@.heap, pid) == (crate::heap::ProgModel {
                funcs: decls.take((i as int) + 1),
                ..body0
            }));
        }
        i = i + 1;
    }
    let ghost full_body = crate::heap::ProgModel { funcs: decls, ..body0 };
    proof {
        assert(decls.take(exports@.len() as int) =~= decls);
        assert(ctx@.heap =~= crate::heap::alloc_model(
            orig.heap,
            crate::svalue::PIKE_T_PROGRAM,
            crate::heap::DataModel::Program(full_body),
        ));
    }

    let prog = crate::pike_program::PikeProgram::<TStorage>::finish_program(ctx);
    let ghost before_const = ctx@.heap;
    proof {
        assert(ctx@.compiler =~= orig.compiler);
        assert(crate::pike_program::compiling(orig));
        assert(crate::pike_program::is_program(orig.heap, mid_g));
        assert(mid_g < orig.heap.len());
        assert(ctx@.heap[mid_g as int] == orig.heap[mid_g as int]);
        assert(crate::pike_program::is_program(ctx@.heap, mid_g));
        assert(crate::pike_program::compiling(ctx@));
        assert(crate::pike_program::prog_of(ctx@.heap, mid_g) == crate::pike_program::prog_of(
            orig.heap,
            mid_g,
        ));
        assert(prog.program_ref.id == pid);
        assert(crate::heap::obj_live(ctx@.heap, pid));
        assert(crate::heap::obj_refs(ctx@.heap, pid) == 1);
    }
    crate::pike_program::PikeProgram::<TStorage>::add_program_constant(class_name, &prog, ctx);
    proof {
        let enclosing = crate::pike_program::prog_of(orig.heap, mid_g);
        let with_class = crate::heap::alloc_model(
            orig.heap,
            crate::svalue::PIKE_T_PROGRAM,
            crate::heap::DataModel::Program(full_body),
        );
        assert(before_const =~= with_class);
        assert(ctx@.heap =~= crate::heap::set_data_model(
            crate::heap::add_ref_model(with_class, pid),
            mid_g,
            crate::heap::DataModel::Program(
                crate::heap::ProgModel {
                    constants: enclosing.constants.push(
                        crate::heap::ConstDeclModel { name: class_name@, prog: pid },
                    ),
                    ..enclosing
                },
            ),
        ));
        assert(ctx@ =~= orig.with_heap(ctx@.heap));
    }
    prog
}

} // verus!
