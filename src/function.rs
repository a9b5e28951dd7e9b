use vstd::prelude::*;
use crate::arg_count::ArgCount;
use crate::expression::{Expression, VariableType};
use crate::function_ref::{FunctionRef, FunctionType, StackLayout};
use crate::TypeSystem;

verus! {

/// A registered function body.
pub struct Function<TS: TypeSystem> {
    pub expressions: Vec<Expression<TS>>,
    pub return_target: usize,
    pub arg_count: ArgCount,
    pub variable_count: usize,
    /// The capture sites of a closure template; empty for other functions.
    pub captures: Vec<VariableType>,
}

impl<TS: TypeSystem> Function<TS> {
    /// Frame slots a call of this function needs: its arguments, then its locals.
    pub open spec fn spec_stack_size(&self) -> int {
        self.arg_count.spec_stack_size() + self.variable_count
    }
}

/// Builds a function body.
pub struct FunctionWriter<TS: TypeSystem> {
    pub variable_count: usize,
    pub args: ArgCount,
    pub expressions: Vec<Expression<TS>>,
    pub function_type: FunctionType<TS::Native>,
    pub captures: Vec<VariableType>,
    pub layout: StackLayout,
}

impl<TS: TypeSystem> FunctionWriter<TS> {
    /// Frame slots that a call of the function being written needs.
    pub open spec fn spec_stack_size(&self) -> int {
        self.args.spec_stack_size() + self.variable_count
    }

    /// A writer whose frame size fits in `usize`.
    pub open spec fn wf(&self) -> bool {
        &&& self.spec_stack_size() <= usize::MAX
        &&& (self.function_type is Static || self.function_type is CapturingDef)
    }

    /// A writer of a plain function with every argument slot a reference cell.
    pub fn new(args: ArgCount) -> (r: FunctionWriter<TS>)
        requires
            args.spec_stack_size() <= usize::MAX,
        ensures
            r.wf(),
            r.args == args,
            r.variable_count == 0,
            r.expressions@.len() == 0,
            r.function_type is Static,
            r.captures@.len() == 0,
            forall|i: int| 0 <= i ==> #[trigger] r.layout.spec_is_alloc(i),
    {
        FunctionWriter {
            args,
            variable_count: 0,
            expressions: Vec::new(),
            function_type: FunctionType::Static,
            captures: Vec::new(),
            layout: StackLayout::all_alloc(),
        }
    }

    /// A writer of a closure template that captures the given sites when materialized.
    pub fn new_capturing(args: ArgCount, capture: Vec<VariableType>) -> (r: FunctionWriter<TS>)
        requires
            args.spec_stack_size() <= usize::MAX,
        ensures
            r.wf(),
            r.args == args,
            r.variable_count == 0,
            r.expressions@.len() == 0,
            r.function_type is CapturingDef,
            r.captures@ == capture@,
            forall|i: int| 0 <= i ==> #[trigger] r.layout.spec_is_alloc(i),
    {
        FunctionWriter {
            args,
            variable_count: 0,
            expressions: Vec::new(),
            function_type: FunctionType::CapturingDef,
            captures: capture,
            layout: StackLayout::all_alloc(),
        }
    }

    /// Turns the function into a closure template over the given sites.
    pub fn set_captures(&mut self, capture: Vec<VariableType>)
        requires
            old(self).wf(),
        ensures
            final(self).wf(),
            final(self).function_type is CapturingDef,
            final(self).captures@ == capture@,
            final(self).args == old(self).args,
            final(self).variable_count == old(self).variable_count,
            final(self).expressions@ == old(self).expressions@,
            final(self).layout == old(self).layout,
    {
        self.function_type = FunctionType::CapturingDef;
        self.captures = capture;
    }

    /// Adds a local variable and returns its frame offset, which lies above the
    /// argument slots and above every earlier local.
    pub fn create_variable(&mut self) -> (r: usize)
        requires
            old(self).wf(),
            old(self).spec_stack_size() < usize::MAX,
        ensures
            final(self).wf(),
            r == old(self).spec_stack_size(),
            final(self).variable_count == old(self).variable_count + 1,
            final(self).args == old(self).args,
            final(self).expressions@ == old(self).expressions@,
            final(self).function_type == old(self).function_type,
            final(self).captures@ == old(self).captures@,
            final(self).layout == old(self).layout,
    {
        let var = self.args.stack_size() + self.variable_count;
        self.variable_count = self.variable_count + 1;
        var
    }

    /// Appends an expression to the body.
    pub fn evaluate_expression(&mut self, expr: Expression<TS>)
        requires
            old(self).wf(),
        ensures
            final(self).wf(),
            final(self).expressions@ == old(self).expressions@.push(expr),
            final(self).variable_count == old(self).variable_count,
            final(self).args == old(self).args,
            final(self).function_type == old(self).function_type,
            final(self).captures@ == old(self).captures@,
            final(self).layout == old(self).layout,
    {
        self.expressions.push(expr);
    }

    /// The reference that names this function at the given table index.
    pub fn to_ref(&self, location: usize) -> (r: FunctionRef<TS::Native>)
        requires
            self.wf(),
        ensures
            r.arg_count == self.args,
            r.stack_size == self.spec_stack_size(),
            r.location == location,
            r.function_type == self.function_type,
            r.layout == self.layout,
    {
        let function_type = match &self.function_type {
            FunctionType::CapturingDef => FunctionType::CapturingDef,
            _ => FunctionType::Static,
        };
        FunctionRef {
            arg_count: self.args,
            stack_size: self.args.stack_size() + self.variable_count,
            location,
            function_type,
            layout: self.layout,
        }
    }

    /// The function body, returning to `return_target`.
    pub fn build(self, return_target: usize) -> (r: Function<TS>)
        requires
            self.wf(),
        ensures
            r.expressions@ == self.expressions@,
            r.return_target == return_target,
            r.arg_count == self.args,
            r.variable_count == self.variable_count,
            r.captures@ == self.captures@,
            r.spec_stack_size() == self.spec_stack_size(),
    {
        Function {
            expressions: self.expressions,
            return_target,
            arg_count: self.args,
            variable_count: self.variable_count,
            captures: self.captures,
        }
    }
}

} // verus!
