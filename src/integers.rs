use vstd::prelude::*;
use crate::error::FreightError;
use crate::value::{BinaryOperator, Datum, Initializer, Native, UnaryOperator, Value};
use crate::TypeSystem;

verus! {

/// A small host language whose data are 64-bit integers with wrapping arithmetic.
pub struct Integers;

impl Datum for i64 {
    fn deep_clone(&self) -> (r: i64)
        ensures
            r == *self,
    {
        *self
    }
}

#[derive(Clone, Copy, Debug, PartialEq, Eq, Structural)]
pub enum IntUnary {
    Inc,
    Neg,
}

#[derive(Clone, Copy, Debug, PartialEq, Eq, Structural)]
pub enum IntBinary {
    Add,
    Sub,
    Mul,
}

/// The only initializer: it builds the null value.
#[derive(Clone, Copy, Debug, PartialEq, Eq, Structural)]
pub struct NullInit;

/// Host functions of the integer language.
#[derive(Clone, Copy, Debug, PartialEq, Eq, Structural)]
pub enum IntNative {
    /// The wrapping sum of the integer arguments; other arguments count as zero.
    Sum,
    /// The first argument, or null when there is none.
    First,
}

/// An integer value of the integer language.
pub open spec fn int_value(v: i64) -> Value<i64, IntNative> {
    Value::Data(v)
}

/// The wrapping sum of the integers among `args`.
pub open spec fn sum_of(args: Seq<Value<i64, IntNative>>) -> i64
    decreases args.len(),
{
    if args.len() == 0 {
        0
    } else {
        let rest = sum_of(args.drop_last());
        match args.last() {
            Value::Data(x) => rest.wrapping_add(x),
            _ => rest,
        }
    }
}

impl UnaryOperator<i64, IntNative> for IntUnary {
    open spec fn spec_apply_1(&self, v: Value<i64, IntNative>) -> Value<i64, IntNative> {
        match v {
            Value::Data(x) => match self {
                IntUnary::Inc => Value::Data(x.wrapping_add(1)),
                IntUnary::Neg => Value::Data(0i64.wrapping_sub(x)),
            },
            _ => Value::Null,
        }
    }

    fn apply_1(&self, v: &Value<i64, IntNative>) -> (r: Value<i64, IntNative>) {
        match v {
            Value::Data(x) => match self {
                IntUnary::Inc => Value::Data(x.wrapping_add(1)),
                IntUnary::Neg => Value::Data(0i64.wrapping_sub(*x)),
            },
            _ => Value::Null,
        }
    }
}

impl BinaryOperator<i64, IntNative> for IntBinary {
    open spec fn spec_apply_2(&self, a: Value<i64, IntNative>, b: Value<i64, IntNative>) -> Value<i64, IntNative> {
        match (a, b) {
            (Value::Data(x), Value::Data(y)) => match self {
                IntBinary::Add => Value::Data(x.wrapping_add(y)),
                IntBinary::Sub => Value::Data(x.wrapping_sub(y)),
                IntBinary::Mul => Value::Data(x.wrapping_mul(y)),
            },
            _ => Value::Null,
        }
    }

    fn apply_2(&self, a: &Value<i64, IntNative>, b: &Value<i64, IntNative>) -> (r: Value<i64, IntNative>) {
        match (a, b) {
            (Value::Data(x), Value::Data(y)) => match self {
                IntBinary::Add => Value::Data(x.wrapping_add(*y)),
                IntBinary::Sub => Value::Data(x.wrapping_sub(*y)),
                IntBinary::Mul => Value::Data(x.wrapping_mul(*y)),
            },
            _ => Value::Null,
        }
    }
}

impl Initializer<i64, IntNative, ()> for NullInit {
    open spec fn spec_initialize(&self, args: Seq<Value<i64, IntNative>>, ctx: ()) -> (Value<i64, IntNative>, ()) {
        (Value::Null, ctx)
    }

    fn initialize(&self, args: Vec<Value<i64, IntNative>>, ctx: &mut ()) -> (r: Value<i64, IntNative>) {
        Value::Null
    }
}

impl Native<i64, ()> for IntNative {
    open spec fn spec_invoke(&self, args: Seq<Value<i64, IntNative>>, ctx: ()) -> (Result<Value<i64, IntNative>, FreightError>, ()) {
        match self {
            IntNative::Sum => (Ok(Value::Data(sum_of(args))), ctx),
            IntNative::First => (Ok(if args.len() > 0 { args[0] } else { Value::Null }), ctx),
        }
    }

    fn invoke(&self, args: &Vec<Value<i64, IntNative>>, ctx: &mut ()) -> (r: Result<Value<i64, IntNative>, FreightError>) {
        match self {
            IntNative::Sum => {
                let mut total: i64 = 0;
                let mut i: usize = 0;
                while i < args.len()
                    invariant
                        i <= args@.len(),
                        total == sum_of(args@.subrange(0, i as int)),
                    decreases args@.len() - i,
                {
                    let ghost prefix = args@.subrange(0, i + 1);
                    assert(prefix.drop_last() =~= args@.subrange(0, i as int));
                    match &args[i] {
                        Value::Data(x) => total = total.wrapping_add(*x),
                        _ => {},
                    }
                    i = i + 1;
                }
                assert(args@.subrange(0, args@.len() as int) =~= args@);
                Ok(Value::Data(total))
            },
            IntNative::First => if args.len() > 0 {
                Ok(match &args[0] {
                    Value::Null => Value::Null,
                    Value::Data(x) => Value::Data(*x),
                    Value::Function(f) => Value::Function(*f),
                    Value::Reference(c) => Value::Reference(*c),
                })
            } else {
                Ok(Value::Null)
            },
        }
    }

    fn duplicate(&self) -> (r: IntNative) {
        *self
    }
}

impl TypeSystem for Integers {
    type Datum = i64;
    type Native = IntNative;
    type UnaryOp = IntUnary;
    type BinaryOp = IntBinary;
    type Init = NullInit;
    type TypeId = ();
    type GlobalContext = ();

    /// The integer language has no list datum: the gathered arguments of a
    /// variadic call are represented by how many there are.
    open spec fn spec_gen_list(items: Seq<Value<i64, IntNative>>) -> Value<i64, IntNative> {
        Value::Data(items.len() as i64)
    }

    fn gen_list(items: Vec<Value<i64, IntNative>>) -> (r: Value<i64, IntNative>) {
        Value::Data(items.len() as i64)
    }
}

} // verus!
