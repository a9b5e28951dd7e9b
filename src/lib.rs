use vstd::prelude::*;

/// Arities of functions.
pub mod arg_count;
/// Errors and the non-local return signal.
pub mod error;
/// The engine: function table, globals, reference cells, and the evaluator.
pub mod execution_engine;
/// Expression trees.
pub mod expression;
/// Function bodies and the writer that builds them.
pub mod function;
/// Function references, their kinds and frame layouts.
pub mod function_ref;
/// A host language of 64-bit integers.
pub mod integers;
/// Properties of evaluation, proved over its semantics.
pub mod laws;
/// The meaning of evaluation, as spec functions.
pub mod semantics;
/// A size-indexed pool of reusable slices.
pub mod slice_pool;
/// Values and the traits a host language implements.
pub mod value;
/// A front end that collects functions and globals into an engine.
pub mod vm_writer;

use crate::value::{BinaryOperator, Datum, Initializer, Native, UnaryOperator, Value};

verus! {

/// The values that an engine over the type system `TS` works with.
pub type Val<TS> = Value<<TS as TypeSystem>::Datum, <TS as TypeSystem>::Native>;

/// The type system of a host language: its data, operators, initializers, host
/// functions and global context.
pub trait TypeSystem: Sized {
    type Datum: Datum;
    type Native: Native<Self::Datum, Self::GlobalContext>;
    type UnaryOp: UnaryOperator<Self::Datum, Self::Native>;
    type BinaryOp: BinaryOperator<Self::Datum, Self::Native>;
    type Init: Initializer<Self::Datum, Self::Native, Self::GlobalContext>;
    type TypeId;
    type GlobalContext;

    /// The list value that gathers the trailing arguments of a variadic call.
    spec fn spec_gen_list(items: Seq<Value<Self::Datum, Self::Native>>) -> Value<Self::Datum, Self::Native>;

    fn gen_list(items: Vec<Value<Self::Datum, Self::Native>>) -> (r: Value<Self::Datum, Self::Native>)
        ensures
            r == Self::spec_gen_list(items@),
    ;
}

} // verus!
