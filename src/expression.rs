use vstd::prelude::*;
use crate::function_ref::{FunctionRef, NativeFunction};
use crate::value::Value;
use crate::TypeSystem;

verus! {

/// Where a variable lives: a slot of the current frame, an entry of the current
/// closure environment, or a global.
#[derive(Clone, Copy, Debug, PartialEq, Eq, Structural)]
pub enum VariableType {
    Captured(usize),
    Stack(usize),
    Global(usize),
}

/// An expression tree that the engine evaluates. Children are evaluated left to
/// right; a failing child stops the evaluation of its siblings.
pub enum Expression<TS: TypeSystem> {
    /// The value itself.
    RawValue(Value<TS::Datum, TS::Native>),
    /// The content of a variable; a reference cell yields a handle to the same cell.
    Variable(VariableType),
    /// A binary operator applied to the values of two operands.
    BinaryOpEval(TS::BinaryOp, Box<Expression<TS>>, Box<Expression<TS>>),
    /// A unary operator applied to the value of an operand.
    UnaryOpEval(TS::UnaryOp, Box<Expression<TS>>),
    /// A host initializer applied to the values of its arguments.
    Initialize(TS::Init, Vec<Expression<TS>>),
    /// A call of a function known when the tree is built.
    StaticFunctionCall(FunctionRef<TS::Native>, Vec<Expression<TS>>),
    /// A call of the function that the first expression evaluates to.
    DynamicFunctionCall(Box<Expression<TS>>, Vec<Expression<TS>>),
    /// A direct call of a host function with owned copies of its arguments.
    NativeFunctionCall(NativeFunction<TS::Native>, Vec<Expression<TS>>),
    /// Materializes a closure template over the current environment.
    FunctionCapture(FunctionRef<TS::Native>),
    /// Assigns to a slot of the current frame.
    AssignStack(usize, Box<Expression<TS>>),
    /// Assigns to a global.
    AssignGlobal(usize, Box<Expression<TS>>),
    /// Assigns through the reference that the first expression evaluates to.
    AssignDynamic(Box<Expression<TS>>, Box<Expression<TS>>),
    /// Catches a return aimed at the given target.
    ReturnTarget(usize, Box<Expression<TS>>),
    /// Returns the value of the expression to the given target.
    Return(usize, Box<Expression<TS>>),
}

impl<TS: TypeSystem> Expression<TS> {
    /// Shorthand for a stack variable.
    pub fn stack(addr: usize) -> (r: Expression<TS>)
        ensures
            r == Expression::<TS>::Variable(VariableType::Stack(addr)),
    {
        Expression::Variable(VariableType::Stack(addr))
    }

    /// Shorthand for a captured variable.
    pub fn captured(addr: usize) -> (r: Expression<TS>)
        ensures
            r == Expression::<TS>::Variable(VariableType::Captured(addr)),
    {
        Expression::Variable(VariableType::Captured(addr))
    }

    /// Shorthand for a global variable.
    pub fn global(addr: usize) -> (r: Expression<TS>)
        ensures
            r == Expression::<TS>::Variable(VariableType::Global(addr)),
    {
        Expression::Variable(VariableType::Global(addr))
    }
}

} // verus!
