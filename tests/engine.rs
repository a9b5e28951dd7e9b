use freight_vm::arg_count::ArgCount;
use freight_vm::error::FreightError;
use freight_vm::execution_engine::ExecutionEngine;
use freight_vm::expression::{Expression, VariableType};
use freight_vm::function::FunctionWriter;
use freight_vm::function_ref::{FunctionRef, FunctionType, NativeFunction};
use freight_vm::integers::{IntBinary, IntNative, IntUnary, Integers, NullInit};
use freight_vm::value::Value;

type Engine = ExecutionEngine<Integers>;
type V = Value<i64, IntNative>;

fn num(n: i64) -> V {
    Value::Data(n)
}

fn raw(n: i64) -> Expression<Integers> {
    Expression::RawValue(num(n))
}

fn add_expr(a: Expression<Integers>, b: Expression<Integers>) -> Expression<Integers> {
    Expression::BinaryOpEval(IntBinary::Add, Box::new(a), Box::new(b))
}

fn add_writer() -> FunctionWriter<Integers> {
    let mut add = FunctionWriter::new(ArgCount::Fixed(2));
    add.evaluate_expression(add_expr(Expression::stack(0), Expression::stack(1)));
    add
}

fn function_of(v: &V) -> FunctionRef<IntNative> {
    match v {
        Value::Function(f) => *f,
        other => panic!("not a function: {:?}", other),
    }
}

#[test]
fn test_functions() {
    let mut engine = Engine::new(());
    let add = engine.register_function(add_writer(), 0);
    let mut main = FunctionWriter::new(ArgCount::Fixed(0));
    let x = main.create_variable();
    let y = main.create_variable();
    main.evaluate_expression(Expression::AssignStack(x, Box::new(raw(3))));
    main.evaluate_expression(Expression::AssignStack(y, Box::new(raw(2))));
    main.evaluate_expression(Expression::StaticFunctionCall(
        add,
        vec![Expression::stack(x), Expression::stack(y)],
    ));
    let main = engine.register_function(main, 0);
    assert_eq!(engine.call(&main, vec![]).unwrap(), num(5));
}

#[test]
fn arity_mismatch_reports_counts() {
    let mut engine = Engine::new(());
    let add = engine.register_function(add_writer(), 0);
    let r = engine.call(&add, vec![num(1)]);
    assert_eq!(
        r,
        Err(FreightError::IncorrectArgumentCount { expected_min: 2, expected_max: Some(2), actual: 1 })
    );
}

#[test]
fn arity_mismatch_leaves_engine_unchanged() {
    let mut engine = Engine::new(());
    let g = engine.create_global();
    let add = engine.register_function(add_writer(), 0);
    let before = engine.load(&Value::Reference(0));
    for k in [0usize, 1, 3, 4] {
        let args: Vec<V> = (0..k).map(|i| num(i as i64)).collect();
        match engine.call(&add, args) {
            Err(FreightError::IncorrectArgumentCount { expected_min: 2, expected_max: Some(2), actual }) => {
                assert_eq!(actual, k)
            }
            other => panic!("unexpected {:?}", other),
        }
    }
    assert_eq!(engine.load(&Value::Reference(0)), before);
    assert_eq!(engine.outstanding_slices(), 0);
    assert_eq!(g, 0);
    // no cell was allocated by the refused calls: the next cell is still number 1
    assert_eq!(engine.into_ref(num(8)), Value::Reference(1));
}

#[test]
fn static_sum_of_two_arguments() {
    let mut engine = Engine::new(());
    let add = engine.register_function(add_writer(), 0);
    for (a, b) in [(7i64, -3i64), (0, 0), (i64::MAX, 1)] {
        assert_eq!(engine.call(&add, vec![num(a), num(b)]), Ok(num(a.wrapping_add(b))));
        assert_eq!(engine.outstanding_slices(), 0);
    }
}

#[test]
fn closure_adds_captured_argument() {
    let mut engine = Engine::new(());
    let mut inner = FunctionWriter::new_capturing(ArgCount::Fixed(1), vec![VariableType::Stack(0)]);
    inner.evaluate_expression(add_expr(Expression::stack(0), Expression::captured(0)));
    let inner = engine.register_function(inner, 0);
    assert!(matches!(inner.function_type, FunctionType::CapturingDef));
    let mut make_adder = FunctionWriter::new(ArgCount::Fixed(1));
    make_adder.evaluate_expression(Expression::FunctionCapture(inner));
    let make_adder = engine.register_function(make_adder, 0);
    let add5 = engine.call(&make_adder, vec![num(5)]).unwrap();
    let add5 = function_of(&add5);
    assert!(matches!(add5.function_type, FunctionType::CapturingRef(_)));
    assert_eq!(engine.call(&add5, vec![num(3)]), Ok(num(8)));
    let add7 = function_of(&engine.call(&make_adder, vec![num(7)]).unwrap());
    assert_eq!(engine.call(&add7, vec![num(3)]), Ok(num(10)));
    assert_eq!(engine.call(&add5, vec![num(1)]), Ok(num(6)));
}

#[test]
fn closure_sees_later_writes_to_captured_cell() {
    let mut engine = Engine::new(());
    let g = engine.create_global();
    let mut reader = FunctionWriter::new_capturing(ArgCount::Fixed(0), vec![VariableType::Global(g)]);
    reader.evaluate_expression(Expression::captured(0));
    let reader = engine.register_function(reader, 0);
    engine.evaluate(&Expression::AssignGlobal(g, Box::new(raw(1)))).unwrap();
    let closure = function_of(&engine.evaluate(&Expression::FunctionCapture(reader)).unwrap());
    engine.evaluate(&Expression::AssignGlobal(g, Box::new(raw(2)))).unwrap();
    let seen = engine.call(&closure, vec![]).unwrap();
    assert_eq!(engine.load(&seen), num(2));
}

#[test]
fn closure_template_cannot_be_called() {
    let mut engine = Engine::new(());
    let mut inner = FunctionWriter::new_capturing(ArgCount::Fixed(0), vec![]);
    inner.evaluate_expression(raw(1));
    let inner = engine.register_function(inner, 0);
    assert_eq!(engine.call(&inner, vec![]), Err(FreightError::InvalidInvocationTarget));
    assert_eq!(engine.outstanding_slices(), 0);
}

#[test]
fn capture_of_static_function_is_refused() {
    let mut engine = Engine::new(());
    let add = engine.register_function(add_writer(), 0);
    assert_eq!(
        engine.evaluate(&Expression::FunctionCapture(add)),
        Err(FreightError::InvalidInvocationTarget)
    );
}

#[test]
fn non_local_return_from_body() {
    let mut engine = Engine::new(());
    let t = engine.create_return_target();
    let g = engine.create_global();
    let mut f = FunctionWriter::new(ArgCount::Fixed(0));
    f.evaluate_expression(Expression::Return(t, Box::new(raw(42))));
    f.evaluate_expression(Expression::AssignGlobal(g, Box::new(raw(99))));
    f.evaluate_expression(raw(0));
    let f = engine.register_function(f, t);
    assert_eq!(engine.call(&f, vec![]), Ok(num(42)));
    // the trailing expressions never ran
    assert_eq!(engine.load(&Value::Reference(0)), Value::Null);
}

#[test]
fn non_local_return_inside_expression() {
    let mut engine = Engine::new(());
    let t = engine.create_return_target();
    let g = engine.create_global();
    let tree = Expression::ReturnTarget(
        t,
        Box::new(add_expr(
            Expression::Return(t, Box::new(raw(42))),
            Expression::AssignGlobal(g, Box::new(raw(1))),
        )),
    );
    assert_eq!(engine.evaluate(&tree), Ok(num(42)));
    assert_eq!(engine.load(&Value::Reference(0)), Value::Null);
}

#[test]
fn return_to_other_target_propagates() {
    let mut engine = Engine::new(());
    let t = engine.create_return_target();
    let u = engine.create_return_target();
    assert_ne!(t, u);
    let tree = Expression::ReturnTarget(t, Box::new(Expression::Return(u, Box::new(raw(5)))));
    assert_eq!(engine.evaluate(&tree), Err(FreightError::Return { target: u }));
    let outer = Expression::ReturnTarget(u, Box::new(tree));
    assert_eq!(engine.evaluate(&outer), Ok(num(5)));
}

#[test]
fn dynamic_call_through_global() {
    let mut engine = Engine::new(());
    let g = engine.create_global();
    let add = engine.register_function(add_writer(), 0);
    engine
        .evaluate(&Expression::AssignGlobal(g, Box::new(Expression::RawValue(V::from(add)))))
        .unwrap();
    let mut main = FunctionWriter::new(ArgCount::Fixed(0));
    main.evaluate_expression(Expression::DynamicFunctionCall(
        Box::new(Expression::global(g)),
        vec![raw(1), raw(2)],
    ));
    let main = engine.register_function(main, 0);
    assert_eq!(engine.call(&main, vec![]), Ok(num(3)));
}

#[test]
fn dynamic_call_of_non_function_fails() {
    let mut engine = Engine::new(());
    let call = Expression::DynamicFunctionCall(Box::new(raw(4)), vec![]);
    assert_eq!(engine.evaluate(&call), Err(FreightError::InvalidInvocationTarget));
}

#[test]
fn write_through_reference_argument() {
    let mut engine = Engine::new(());
    let mut f = FunctionWriter::new(ArgCount::Fixed(1));
    f.evaluate_expression(Expression::AssignStack(0, Box::new(raw(9))));
    let f = engine.register_function(f, 0);
    let x = engine.into_ref(num(1));
    assert!(matches!(x, Value::Reference(_)));
    assert_eq!(engine.call(&f, vec![x.clone()]), Ok(Value::Null));
    assert_eq!(engine.load(&x), num(9));
}

#[test]
fn plain_argument_is_not_written_back() {
    let mut engine = Engine::new(());
    let mut f = FunctionWriter::new(ArgCount::Fixed(1));
    f.evaluate_expression(Expression::AssignStack(0, Box::new(raw(9))));
    f.evaluate_expression(Expression::stack(0));
    let f = engine.register_function(f, 0);
    let r = engine.call(&f, vec![num(1)]).unwrap();
    assert_eq!(engine.load(&r), num(9));
}

#[test]
fn assign_dynamic_writes_through_reference() {
    let mut engine = Engine::new(());
    let g = engine.create_global();
    let assign = Expression::AssignDynamic(Box::new(Expression::global(g)), Box::new(raw(5)));
    assert_eq!(engine.evaluate(&assign), Ok(Value::Null));
    let v = engine.evaluate(&Expression::global(g)).unwrap();
    assert_eq!(engine.load(&v), num(5));
    // assigning through a plain value changes nothing
    let plain = Expression::AssignDynamic(Box::new(raw(1)), Box::new(raw(6)));
    assert_eq!(engine.evaluate(&plain), Ok(Value::Null));
    assert_eq!(engine.load(&v), num(5));
}

#[test]
fn pool_is_empty_after_calls() {
    let mut engine = Engine::new(());
    let add = engine.register_function(add_writer(), 0);
    let mut twice = FunctionWriter::new(ArgCount::Fixed(1));
    twice.evaluate_expression(Expression::StaticFunctionCall(
        add,
        vec![Expression::stack(0), Expression::stack(0)],
    ));
    let twice = engine.register_function(twice, 0);
    for i in 0..20 {
        assert_eq!(engine.call(&twice, vec![num(i)]), Ok(num(2 * i)));
        assert_eq!(engine.outstanding_slices(), 0);
    }
    let _ = engine.call(&add, vec![]);
    let _ = engine.evaluate(&Expression::stack(3));
    assert_eq!(engine.outstanding_slices(), 0);
}

#[test]
fn deep_finite_recursion_succeeds() {
    let mut engine = Engine::new(());
    // f0 returns 1; f(k) returns f(k - 1) + 1
    let mut base = FunctionWriter::new(ArgCount::Fixed(0));
    base.evaluate_expression(raw(1));
    let mut prev = engine.register_function(base, 0);
    for _ in 0..200 {
        let mut f = FunctionWriter::new(ArgCount::Fixed(0));
        f.evaluate_expression(add_expr(Expression::StaticFunctionCall(prev, vec![]), raw(1)));
        prev = engine.register_function(f, 0);
    }
    assert_eq!(engine.call(&prev, vec![]), Ok(num(201)));
    assert_eq!(engine.outstanding_slices(), 0);
}

#[test]
fn return_through_thousand_levels() {
    let mut engine = Engine::new(());
    let t = engine.create_return_target();
    let mut tree = Expression::Return(t, Box::new(raw(7)));
    for _ in 0..1000 {
        tree = Expression::UnaryOpEval(IntUnary::Inc, Box::new(tree));
    }
    let outer = Expression::ReturnTarget(t, Box::new(tree));
    assert_eq!(engine.evaluate(&outer), Ok(num(7)));
}

#[test]
fn out_of_range_variable_is_reported() {
    let mut engine = Engine::new(());
    assert_eq!(engine.evaluate(&Expression::stack(0)), Err(FreightError::InvalidAddress));
    assert_eq!(engine.evaluate(&Expression::captured(0)), Err(FreightError::InvalidAddress));
    assert_eq!(engine.evaluate(&Expression::global(0)), Err(FreightError::InvalidAddress));
    assert_eq!(
        engine.evaluate(&Expression::AssignGlobal(3, Box::new(raw(1)))),
        Err(FreightError::InvalidAddress)
    );
}

#[test]
fn missing_function_entry_is_refused() {
    let mut engine = Engine::new(());
    let ghost_ref = add_writer().to_ref(7);
    assert_eq!(engine.call(&ghost_ref, vec![num(1), num(2)]), Err(FreightError::InvalidInvocationTarget));
}

#[test]
fn failing_argument_stops_later_arguments() {
    let mut engine = Engine::new(());
    let g = engine.create_global();
    let add = engine.register_function(add_writer(), 0);
    let call = Expression::StaticFunctionCall(
        add,
        vec![Expression::stack(5), Expression::AssignGlobal(g, Box::new(raw(1)))],
    );
    assert_eq!(engine.evaluate(&call), Err(FreightError::InvalidAddress));
    assert_eq!(engine.load(&Value::Reference(0)), Value::Null);
}

#[test]
fn operators_and_initializer() {
    let mut engine = Engine::new(());
    let inc = Expression::UnaryOpEval(IntUnary::Inc, Box::new(raw(41)));
    assert_eq!(engine.evaluate(&inc), Ok(num(42)));
    let neg = Expression::UnaryOpEval(IntUnary::Neg, Box::new(raw(5)));
    assert_eq!(engine.evaluate(&neg), Ok(num(-5)));
    let mul = Expression::BinaryOpEval(IntBinary::Mul, Box::new(raw(6)), Box::new(raw(7)));
    assert_eq!(engine.evaluate(&mul), Ok(num(42)));
    let sub = Expression::BinaryOpEval(IntBinary::Sub, Box::new(raw(6)), Box::new(raw(7)));
    assert_eq!(engine.evaluate(&sub), Ok(num(-1)));
    let init = Expression::Initialize(NullInit, vec![raw(1), raw(2)]);
    assert_eq!(engine.evaluate(&init), Ok(Value::Null));
}

#[test]
fn native_call_receives_contents() {
    let mut engine = Engine::new(());
    let g = engine.create_global();
    engine.evaluate(&Expression::AssignGlobal(g, Box::new(raw(10)))).unwrap();
    let call = Expression::NativeFunctionCall(
        NativeFunction::new(IntNative::Sum),
        vec![raw(1), Expression::global(g), raw(3)],
    );
    assert_eq!(engine.evaluate(&call), Ok(num(14)));
    let first = Expression::NativeFunctionCall(NativeFunction::new(IntNative::First), vec![Expression::global(g)]);
    assert_eq!(engine.evaluate(&first), Ok(num(10)));
    assert_eq!(engine.outstanding_slices(), 0);
}

#[test]
fn native_function_reference_call() {
    let mut engine = Engine::new(());
    let sum = FunctionRef::new_native(0, NativeFunction::new(IntNative::Sum), ArgCount::Fixed(3));
    assert_eq!(sum.stack_size(), 3);
    assert_eq!(engine.call(&sum, vec![num(1), num(2), num(3)]), Ok(num(6)));
    assert_eq!(
        engine.call(&sum, vec![num(1)]),
        Err(FreightError::IncorrectArgumentCount { expected_min: 3, expected_max: Some(3), actual: 1 })
    );
}

#[test]
fn variadic_arguments_are_gathered() {
    let mut engine = Engine::new(());
    // the integer host represents the gathered list by its length
    let count = FunctionRef::new_native(0, NativeFunction::new(IntNative::First), ArgCount::Variadic { min: 0, max: 0 });
    assert_eq!(count.stack_size(), 1);
    assert_eq!(engine.call(&count, vec![num(1), num(2), num(3), num(4)]), Ok(num(4)));
    assert_eq!(engine.call(&count, vec![]), Ok(num(0)));
    let first = FunctionRef::new_native(1, NativeFunction::new(IntNative::Sum), ArgCount::Variadic { min: 1, max: 1 });
    // frame: the named argument, then the count of the rest
    assert_eq!(engine.call(&first, vec![num(10), num(20), num(30)]), Ok(num(12)));
    assert_eq!(
        engine.call(&first, vec![]),
        Err(FreightError::IncorrectArgumentCount { expected_min: 1, expected_max: None, actual: 0 })
    );
}

#[test]
fn reset_globals_gives_fresh_cells() {
    let mut engine = Engine::new(());
    let g = engine.create_global();
    engine.evaluate(&Expression::AssignGlobal(g, Box::new(raw(3)))).unwrap();
    let v = engine.evaluate(&Expression::global(g)).unwrap();
    assert_eq!(engine.load(&v), num(3));
    engine.reset_globals();
    let w = engine.evaluate(&Expression::global(g)).unwrap();
    assert_eq!(engine.load(&w), Value::Null);
    assert_ne!(v, w);
}

#[test]
fn return_targets_are_fresh() {
    let mut engine = Engine::new(());
    assert_eq!(engine.create_return_target(), 0);
    assert_eq!(engine.create_return_target(), 1);
    assert_eq!(engine.create_return_target(), 2);
}

#[test]
fn default_engine_and_or_return() {
    let mut engine = Engine::new_default();
    engine.evaluate(&Expression::Return(3, Box::new(raw(11)))).unwrap_err();
    let caught = engine.or_return(Err(FreightError::Return { target: 3 }), 3);
    assert_eq!(caught, Ok(num(11)));
    // the slot was emptied
    assert_eq!(engine.or_return(Err(FreightError::Return { target: 3 }), 3), Ok(Value::Null));
    assert_eq!(engine.or_return(Err(FreightError::Return { target: 4 }), 3), Err(FreightError::Return { target: 4 }));
    assert_eq!(engine.or_return(Ok(num(1)), 3), Ok(num(1)));
    assert_eq!(*engine.context(), ());
}

#[test]
fn assign_and_cast_through_engine() {
    let mut engine = Engine::new(());
    let add = engine.register_function(add_writer(), 0);
    let cell = engine.into_ref(Value::Null);
    engine.assign(&cell, &Value::Function(add));
    let f = engine.cast_to_function(&cell).unwrap();
    assert_eq!(engine.call(&f, vec![num(2), num(2)]), Ok(num(4)));
    assert!(engine.cast_to_function(&num(3)).is_none());
    // assigning to a plain value has no effect on the engine
    engine.assign(&num(1), &num(2));
    assert_eq!(engine.load(&cell), Value::Function(add));
    assert_eq!(engine.into_ref(cell.clone()), cell);
}

#[test]
fn non_local_return_from_deep_nesting() {
    let mut engine = Engine::new(());
    let t = engine.create_return_target();
    let u = engine.create_return_target();
    let g = engine.create_global();
    let add = engine.register_function(add_writer(), 0);
    // Return(t, 7) sits four levels down, under an unrelated return target and a call
    let deep = Expression::ReturnTarget(
        u,
        Box::new(Expression::StaticFunctionCall(
            add,
            vec![
                Expression::UnaryOpEval(
                    IntUnary::Inc,
                    Box::new(add_expr(Expression::Return(t, Box::new(raw(7))), raw(1))),
                ),
                Expression::AssignGlobal(g, Box::new(raw(3))),
            ],
        )),
    );
    let tree = Expression::ReturnTarget(t, Box::new(deep));
    assert_eq!(engine.evaluate(&tree), Ok(num(7)));
    assert_eq!(engine.load(&Value::Reference(0)), Value::Null);
    assert_eq!(engine.outstanding_slices(), 0);
}

#[test]
fn closure_matches_body_with_eager_captures() {
    let mut engine = Engine::new(());
    // the closure body reads its argument and one captured cell
    let mut inner = FunctionWriter::new_capturing(ArgCount::Fixed(1), vec![VariableType::Stack(0)]);
    inner.evaluate_expression(Expression::BinaryOpEval(
        IntBinary::Mul,
        Box::new(Expression::stack(0)),
        Box::new(Expression::captured(0)),
    ));
    let inner = engine.register_function(inner, 0);
    // the same body with the captured value passed as a second argument
    let mut direct = FunctionWriter::new(ArgCount::Fixed(2));
    direct.evaluate_expression(Expression::BinaryOpEval(
        IntBinary::Mul,
        Box::new(Expression::stack(0)),
        Box::new(Expression::stack(1)),
    ));
    let direct = engine.register_function(direct, 0);
    let mut make = FunctionWriter::new(ArgCount::Fixed(1));
    make.evaluate_expression(Expression::FunctionCapture(inner));
    let make = engine.register_function(make, 0);
    for (env, x) in [(6i64, 7i64), (-2, 9), (0, 5)] {
        let closure = function_of(&engine.call(&make, vec![num(env)]).unwrap());
        let via_closure = engine.call(&closure, vec![num(x)]);
        let via_body = engine.call(&direct, vec![num(x), num(env)]);
        assert_eq!(via_closure, via_body);
        assert_eq!(via_closure, Ok(num(x * env)));
    }
}

#[test]
fn sum_reads_contents_of_reference_arguments() {
    let mut engine = Engine::new(());
    let add = engine.register_function(add_writer(), 0);
    let a = engine.into_ref(num(3));
    let b = engine.into_ref(num(4));
    assert_eq!(engine.call(&add, vec![a.clone(), num(10)]), Ok(num(13)));
    assert_eq!(engine.call(&add, vec![a, b]), Ok(num(7)));
}

#[test]
fn wide_native_call_gets_owned_copies() {
    let mut engine = Engine::new(());
    let sum = FunctionRef::new_native(0, NativeFunction::new(IntNative::Sum), ArgCount::Fixed(130));
    let cell = engine.into_ref(num(5));
    let mut args: Vec<V> = (0..129).map(|_| num(1)).collect();
    args.push(cell);
    assert_eq!(engine.call(&sum, args), Ok(num(134)));
}
