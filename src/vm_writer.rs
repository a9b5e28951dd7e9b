use vstd::prelude::*;
use crate::execution_engine::ExecutionEngine;
use crate::function::{Function, FunctionWriter};
use crate::arg_count::ArgCount;
use crate::expression::Expression;
use crate::function_ref::{FunctionRef, NativeFunction};
use crate::TypeSystem;

verus! {

/// Collects functions, globals and return targets, then hands them to an engine.
pub struct VMWriter<TS: TypeSystem> {
    pub functions: Vec<Function<TS>>,
    pub globals: usize,
    pub next_return_target: usize,
}

impl<TS: TypeSystem> VMWriter<TS> {
    pub fn new() -> (r: VMWriter<TS>)
        ensures
            r.functions@.len() == 0,
            r.globals == 0,
            r.next_return_target == 0,
    {
        VMWriter { functions: Vec::new(), globals: 0, next_return_target: 0 }
    }

    /// A new global; returns its address, the number of globals before the call.
    pub fn create_global(&mut self) -> (r: usize)
        requires
            old(self).globals < usize::MAX,
        ensures
            r == old(self).globals,
            final(self).globals == old(self).globals + 1,
            final(self).functions == old(self).functions,
            final(self).next_return_target == old(self).next_return_target,
    {
        self.globals = self.globals + 1;
        self.globals - 1
    }

    /// A fresh return target, never handed out before by this writer.
    pub fn create_return_target(&mut self) -> (r: usize)
        requires
            old(self).next_return_target < usize::MAX,
        ensures
            r == old(self).next_return_target,
            final(self).next_return_target == old(self).next_return_target + 1,
            final(self).functions == old(self).functions,
            final(self).globals == old(self).globals,
    {
        self.next_return_target = self.next_return_target + 1;
        self.next_return_target - 1
    }

    /// Adds the function that `function` builds; the reference names the new entry.
    pub fn include_function(&mut self, function: FunctionWriter<TS>, return_target: usize) -> (r: FunctionRef<TS::Native>)
        requires
            function.wf(),
        ensures
            r.location == old(self).functions@.len(),
            r.arg_count == function.args,
            r.stack_size == function.spec_stack_size(),
            r.function_type == function.function_type,
            r.layout == function.layout,
            final(self).functions@.len() == old(self).functions@.len() + 1,
            final(self).functions@.subrange(0, old(self).functions@.len() as int) == old(self).functions@,
            final(self).functions@.last().expressions@ == function.expressions@,
            final(self).functions@.last().return_target == return_target,
            final(self).functions@.last().arg_count == function.args,
            final(self).functions@.last().variable_count == function.variable_count,
            final(self).functions@.last().captures@ == function.captures@,
            final(self).globals == old(self).globals,
            final(self).next_return_target == old(self).next_return_target,
    {
        let fref = function.to_ref(self.functions.len());
        self.functions.push(function.build(return_target));
        assert(self.functions@.subrange(0, old(self).functions@.len() as int) =~= old(self).functions@);
        fref
    }

    /// Adds a plain function of fixed arity whose body passes its arguments, in
    /// order, to the host function `f`.
    pub fn include_native_function(&mut self, f: NativeFunction<TS::Native>, arity: usize) -> (r: FunctionRef<TS::Native>)
        requires
            old(self).next_return_target < usize::MAX,
        ensures
            r.location == old(self).functions@.len(),
            r.arg_count == ArgCount::Fixed(arity),
            r.stack_size == arity,
            r.function_type is Static,
            final(self).functions@.len() == old(self).functions@.len() + 1,
            final(self).functions@.subrange(0, old(self).functions@.len() as int) == old(self).functions@,
            final(self).functions@.last().expressions@ == seq![Expression::<TS>::NativeFunctionCall(f, final(self).functions@.last().expressions@[0]->NativeFunctionCall_1)],
            forall|i: int| 0 <= i < arity ==> #[trigger] final(self).functions@.last().expressions@[0]->NativeFunctionCall_1@[i] == Expression::<TS>::Variable(crate::expression::VariableType::Stack(i as usize)),
            final(self).functions@.last().expressions@[0]->NativeFunctionCall_1@.len() == arity,
            final(self).globals == old(self).globals,
            final(self).next_return_target == old(self).next_return_target + 1,
    {
        let mut args: Vec<Expression<TS>> = Vec::new();
        let mut i: usize = 0;
        while i < arity
            invariant
                i <= arity,
                args@.len() == i,
                forall|j: int| 0 <= j < i ==> #[trigger] args@[j] == Expression::<TS>::Variable(crate::expression::VariableType::Stack(j as usize)),
            decreases arity - i,
        {
            args.push(Expression::stack(i));
            i = i + 1;
        }
        let mut writer = FunctionWriter::new(ArgCount::Fixed(arity));
        writer.evaluate_expression(Expression::NativeFunctionCall(f, args));
        let target = self.create_return_target();
        self.include_function(writer, target)
    }

    /// An engine that holds the collected functions and records `entry_point`,
    /// with every global an uninitialized reference cell and return targets
    /// continuing after those handed out here.
    pub fn finish(self, entry_point: FunctionRef<TS::Native>, context: TS::GlobalContext) -> (r: ExecutionEngine<TS>)
        ensures
            r.wf(),
            r.entry_point == Some(entry_point),
            r.functions@ == self.functions@,
            r.num_globals == self.globals,
            r.next_return_target == self.next_return_target,
            r.store().globals.len() == self.globals,
            forall|a: int| 0 <= a < self.globals ==> #[trigger] r.store().globals[a] == crate::value::Value::<TS::Datum, TS::Native>::Reference(a as usize),
            r.store().cells.len() == self.globals,
            forall|a: int| 0 <= a < self.globals ==> #[trigger] r.store().cells[a] is Null,
            r.store().environments.len() == 0,
            r.store().return_value is Null,
            r.store().context == context,
    {
        let mut engine = ExecutionEngine::new(context);
        engine.functions = self.functions;
        engine.entry_point = Some(entry_point);
        engine.num_globals = self.globals;
        engine.next_return_target = self.next_return_target;
        engine.reset_globals();
        assert forall|a: int| 0 <= a < self.globals implies #[trigger] engine.store().cells[a] is Null by {
            let g = engine.store().globals[a];
            assert(engine.store().cells[0 + a] is Null);
        }
        engine
    }

    /// `finish` with the context type's default.
    pub fn finish_default(self, entry_point: FunctionRef<TS::Native>) -> (r: ExecutionEngine<TS>)
        where
            TS::GlobalContext: Default,
        ensures
            r.wf(),
            r.entry_point == Some(entry_point),
            r.functions@ == self.functions@,
            r.num_globals == self.globals,
            r.next_return_target == self.next_return_target,
            r.store().globals.len() == self.globals,
            forall|a: int| 0 <= a < self.globals ==> #[trigger] r.store().globals[a] == crate::value::Value::<TS::Datum, TS::Native>::Reference(a as usize),
            r.store().cells.len() == self.globals,
            forall|a: int| 0 <= a < self.globals ==> #[trigger] r.store().cells[a] is Null,
            r.store().environments.len() == 0,
            r.store().return_value is Null,
            call_ensures(TS::GlobalContext::default, (), r.store().context),
    {
        let context = TS::GlobalContext::default();
        self.finish(entry_point, context)
    }
}

} // verus!
