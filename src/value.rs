use vstd::prelude::*;
use crate::error::FreightError;
use crate::function_ref::{FunctionRef, FunctionType, NativeFunction};

verus! {

/// A value as the engine moves it around.
///
/// `Reference` is a handle to a reference cell owned by the engine: every copy of
/// the handle observes assignments made through any other copy. All other values
/// are plain owners.
#[derive(Clone, Debug, PartialEq)]
pub enum Value<D, N> {
    /// The null, unset value.
    Null,
    /// A datum of the host language.
    Data(D),
    /// A callable function.
    Function(FunctionRef<N>),
    /// A handle to a reference cell of the engine.
    Reference(usize),
}

impl<D, N> Default for Value<D, N> {
    fn default() -> (r: Self)
        ensures
            r is Null,
    {
        Value::Null
    }
}

impl<D, N> From<FunctionRef<N>> for Value<D, N> {
    fn from(f: FunctionRef<N>) -> (r: Self)
        ensures
            r == Value::<D, N>::Function(f),
    {
        Value::Function(f)
    }
}

impl<D, N> vstd::std_specs::convert::FromSpecImpl<FunctionRef<N>> for Value<D, N> {
    open spec fn obeys_from_spec() -> bool {
        true
    }

    open spec fn from_spec(f: FunctionRef<N>) -> Self {
        Value::Function(f)
    }
}

/// A datum of the host language.
pub trait Datum: Sized {
    /// An independent copy of the datum.
    fn deep_clone(&self) -> (r: Self)
        ensures
            r == *self,
    ;
}

/// A host function. It sees the engine's global context and the values of its
/// arguments, and nothing else of the engine.
pub trait Native<D, C>: Sized {
    spec fn spec_invoke(&self, args: Seq<Value<D, Self>>, ctx: C) -> (Result<Value<D, Self>, FreightError>, C);

    fn invoke(&self, args: &Vec<Value<D, Self>>, ctx: &mut C) -> (r: Result<Value<D, Self>, FreightError>)
        ensures
            (r, *final(ctx)) == self.spec_invoke(args@, *old(ctx)),
    ;

    fn duplicate(&self) -> (r: Self)
        ensures
            r == *self,
    ;
}

/// A unary operator of the host language.
pub trait UnaryOperator<D, N>: Sized {
    spec fn spec_apply_1(&self, v: Value<D, N>) -> Value<D, N>;

    fn apply_1(&self, v: &Value<D, N>) -> (r: Value<D, N>)
        ensures
            r == self.spec_apply_1(*v),
    ;
}

/// A binary operator of the host language.
pub trait BinaryOperator<D, N>: Sized {
    spec fn spec_apply_2(&self, a: Value<D, N>, b: Value<D, N>) -> Value<D, N>;

    fn apply_2(&self, a: &Value<D, N>, b: &Value<D, N>) -> (r: Value<D, N>)
        ensures
            r == self.spec_apply_2(*a, *b),
    ;
}

/// An n-ary constructor of the host language.
pub trait Initializer<D, N, C>: Sized {
    spec fn spec_initialize(&self, args: Seq<Value<D, N>>, ctx: C) -> (Value<D, N>, C);

    fn initialize(&self, args: Vec<Value<D, N>>, ctx: &mut C) -> (r: Value<D, N>)
        ensures
            (r, *final(ctx)) == self.spec_initialize(args@, *old(ctx)),
    ;
}

/// Copies a function reference field by field.
pub fn duplicate_ref<D, C, N: Native<D, C>>(f: &FunctionRef<N>) -> (r: FunctionRef<N>)
    ensures
        r == *f,
{
    let function_type = match &f.function_type {
        FunctionType::Static => FunctionType::Static,
        FunctionType::CapturingDef => FunctionType::CapturingDef,
        FunctionType::CapturingRef(env) => FunctionType::CapturingRef(*env),
        FunctionType::Native(n) => FunctionType::Native(NativeFunction(n.0.duplicate())),
    };
    FunctionRef {
        arg_count: f.arg_count,
        stack_size: f.stack_size,
        location: f.location,
        function_type,
        layout: f.layout,
    }
}

/// Copies a value; a reference handle is copied as a handle to the same cell.
pub fn duplicate_value<D: Datum, C, N: Native<D, C>>(v: &Value<D, N>) -> (r: Value<D, N>)
    ensures
        r == *v,
{
    match v {
        Value::Null => Value::Null,
        Value::Data(d) => Value::Data(d.deep_clone()),
        Value::Function(f) => Value::Function(duplicate_ref::<D, C, N>(f)),
        Value::Reference(c) => Value::Reference(*c),
    }
}

} // verus!
