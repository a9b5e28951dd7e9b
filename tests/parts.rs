use freight_vm::arg_count::{ArgCount, RangeBound};
use freight_vm::error::{is_return_to, FreightError};
use freight_vm::expression::{Expression, VariableType};
use freight_vm::function::FunctionWriter;
use freight_vm::function_ref::{FunctionRef, FunctionType, NativeFunction, StackLayout};
use freight_vm::integers::{IntBinary, IntNative, Integers};
use freight_vm::slice_pool::SlicePool;
use freight_vm::value::Value;
use freight_vm::vm_writer::VMWriter;

#[test]
fn arg_count_from_ranges() {
    assert_eq!(ArgCount::new(RangeBound::Included(2), RangeBound::Included(2)), ArgCount::Fixed(2));
    assert_eq!(ArgCount::new(RangeBound::Included(1), RangeBound::Excluded(4)), ArgCount::Range { min: 1, max: 3 });
    assert_eq!(ArgCount::new(RangeBound::Excluded(0), RangeBound::Unbounded), ArgCount::Variadic { min: 1, max: 1 });
    assert_eq!(ArgCount::new(RangeBound::Unbounded, RangeBound::Included(0)), ArgCount::Fixed(0));
    assert_eq!(ArgCount::new(RangeBound::Excluded(2), RangeBound::Excluded(4)), ArgCount::Fixed(3));
    assert_eq!(ArgCount::new_variadic(RangeBound::Included(1), RangeBound::Included(3)), ArgCount::Variadic { min: 1, max: 3 });
    assert_eq!(ArgCount::new_variadic(RangeBound::Included(2), RangeBound::Unbounded), ArgCount::Variadic { min: 2, max: 2 });
}

#[test]
fn arg_count_queries() {
    let fixed = ArgCount::Fixed(2);
    assert_eq!((fixed.min(), fixed.max(), fixed.max_capped(), fixed.stack_size()), (2, Some(2), 2, 2));
    assert!(fixed.valid_arg_count(2));
    assert!(!fixed.valid_arg_count(1));
    assert!(!fixed.valid_arg_count(3));
    let range = ArgCount::Range { min: 1, max: 3 };
    assert_eq!((range.min(), range.max(), range.max_capped(), range.stack_size()), (1, Some(3), 3, 3));
    assert!(!range.valid_arg_count(0));
    assert!(range.valid_arg_count(1));
    assert!(range.valid_arg_count(3));
    assert!(!range.valid_arg_count(4));
    let var = ArgCount::Variadic { min: 1, max: 2 };
    assert_eq!((var.min(), var.max(), var.max_capped(), var.stack_size()), (1, None, 2, 3));
    assert!(!var.valid_arg_count(0));
    assert!(var.valid_arg_count(1));
    assert!(var.valid_arg_count(100));
}

#[test]
fn stack_layout_bits() {
    let mut layout = StackLayout::no_alloc();
    assert!(!layout.is_alloc(0));
    assert!(!layout.is_alloc(127));
    assert!(!layout.is_alloc(128));
    assert!(!layout.is_alloc(1000));
    layout.set_alloc(5);
    assert!(layout.is_alloc(5));
    assert!(!layout.is_alloc(4));
    assert!(!layout.is_alloc(6));
    let mut all = StackLayout::all_alloc();
    assert!(all.is_alloc(0) && all.is_alloc(127) && all.is_alloc(500));
    all.set_stack(127);
    assert!(!all.is_alloc(127));
    assert!(!all.is_alloc(500));
    assert!(all.is_alloc(126));
}

#[test]
fn writer_places_locals_after_arguments() {
    let mut w: FunctionWriter<Integers> = FunctionWriter::new(ArgCount::Range { min: 1, max: 3 });
    assert_eq!(w.create_variable(), 3);
    assert_eq!(w.create_variable(), 4);
    let r = w.to_ref(9);
    assert_eq!(r.stack_size(), 5);
    assert_eq!(r.address(), 9);
    assert_eq!(r.arg_count(), ArgCount::Range { min: 1, max: 3 });
    assert!(matches!(r.function_type, FunctionType::Static));
    let mut v: FunctionWriter<Integers> = FunctionWriter::new(ArgCount::Variadic { min: 0, max: 1 });
    assert_eq!(v.create_variable(), 2);
    v.set_captures(vec![VariableType::Stack(0)]);
    assert!(matches!(v.to_ref(0).function_type, FunctionType::CapturingDef));
    let f = v.build(4);
    assert_eq!(f.return_target, 4);
    assert_eq!(f.variable_count, 1);
    assert_eq!(f.captures, vec![VariableType::Stack(0)]);
}

#[test]
fn function_ref_equality() {
    let w: FunctionWriter<Integers> = FunctionWriter::new(ArgCount::Fixed(0));
    let a = w.to_ref(1);
    let b = w.to_ref(1);
    let c = w.to_ref(2);
    assert!(a == b);
    assert!(a != c);
    let n = FunctionRef::new_native(1, NativeFunction::new(IntNative::Sum), ArgCount::Fixed(0));
    assert!(a != n);
    let m = FunctionRef::new_native(1, NativeFunction::new(IntNative::First), ArgCount::Fixed(1));
    assert!(n == m);
}

#[test]
fn slice_pool_reuses_slices() {
    let mut pool: SlicePool<u8> = SlicePool::with_max_cache_per(1);
    let mut s = pool.request(3);
    assert_eq!(s, vec![0, 0, 0]);
    assert_eq!(pool.outstanding(), 1);
    s[0] = 7;
    pool.insert(s);
    assert_eq!(pool.outstanding(), 0);
    let again = pool.request(3);
    assert_eq!(again, vec![7, 0, 0]);
    let other = pool.request(3);
    assert_eq!(other, vec![0, 0, 0]);
    pool.insert(again);
    pool.insert(other);
    assert_eq!(pool.outstanding(), 0);
    let filled = pool.from_pool(vec![4, 5]);
    assert_eq!(filled, vec![4, 5]);
    assert_eq!(pool.outstanding(), 1);
    pool.insert(filled);
    let big = pool.request(500);
    assert_eq!(big.len(), 500);
    pool.insert(big);
    assert_eq!(pool.outstanding(), 0);
}

#[test]
fn return_signal_matching() {
    let r: Result<u8, FreightError> = Err(FreightError::Return { target: 3 });
    assert!(is_return_to(&r, 3));
    assert!(!is_return_to(&r, 4));
    let ok: Result<u8, FreightError> = Ok(1);
    assert!(!is_return_to(&ok, 3));
}

#[test]
fn vm_writer_builds_engine() {
    let mut w: VMWriter<Integers> = VMWriter::new();
    assert_eq!(w.create_global(), 0);
    assert_eq!(w.create_global(), 1);
    assert_eq!(w.create_return_target(), 0);
    let mut add = FunctionWriter::new(ArgCount::Fixed(2));
    add.evaluate_expression(Expression::BinaryOpEval(
        IntBinary::Add,
        Box::new(Expression::stack(0)),
        Box::new(Expression::stack(1)),
    ));
    let add = w.include_function(add, 0);
    assert_eq!(add.address(), 0);
    let mut engine = w.finish(add, ());
    assert_eq!(engine.entry_point, Some(add));
    assert_eq!(engine.create_return_target(), 1);
    assert_eq!(engine.create_global(), 2);
    assert_eq!(engine.call(&add, vec![Value::Data(2), Value::Data(3)]), Ok(Value::Data(5)));
    let g = engine.evaluate(&Expression::global(1)).unwrap();
    assert!(matches!(g, Value::Reference(_)));
    assert_eq!(engine.load(&g), Value::Null);
}

#[test]
fn pool_fills_with_generator() {
    let mut pool: SlicePool<u8> = SlicePool::with_max_cache_per(4);
    let s = pool.from_pool_with_fn(3, || 9u8);
    assert_eq!(s, vec![9, 9, 9]);
    assert_eq!(pool.outstanding(), 1);
    pool.insert(s);
    assert_eq!(pool.outstanding(), 0);
}

#[test]
fn vm_writer_wraps_native_function() {
    let mut w: VMWriter<Integers> = VMWriter::new();
    let sum = w.include_native_function(NativeFunction::new(IntNative::Sum), 3);
    assert_eq!(sum.arg_count(), ArgCount::Fixed(3));
    assert_eq!(sum.stack_size(), 3);
    assert!(matches!(sum.function_type, FunctionType::Static));
    let mut engine = w.finish_default(sum);
    assert_eq!(engine.entry_point, Some(sum));
    assert_eq!(engine.call(&sum, vec![Value::Data(4), Value::Data(5), Value::Data(6)]), Ok(Value::Data(15)));
    assert_eq!(engine.outstanding_slices(), 0);
    assert!(engine.get_function(0).is_some());
    assert!(engine.get_function(1).is_none());
}

#[test]
fn slice_pool_hands_back_most_recent() {
    let mut pool: SlicePool<u8> = SlicePool::with_max_cache_per(3);
    let mut a = pool.request(2);
    let mut b = pool.request(2);
    a[0] = 1;
    b[0] = 2;
    pool.insert(a);
    pool.insert(b);
    assert_eq!(pool.outstanding(), 0);
    assert_eq!(pool.request(2), vec![2, 0]);
    assert_eq!(pool.request(2), vec![1, 0]);
    assert_eq!(pool.request(2), vec![0, 0]);
    assert_eq!(pool.outstanding(), 3);
}

#[test]
fn error_messages() {
    assert_eq!(FreightError::InvalidInvocationTarget.message(), "Cannot invoke non-function values");
    let fixed = FreightError::IncorrectArgumentCount { expected_min: 2, expected_max: Some(2), actual: 1 };
    assert_eq!(fixed.message(), "Expected 2 arguments, got 1");
    let range = FreightError::IncorrectArgumentCount { expected_min: 1, expected_max: Some(13), actual: 140 };
    assert_eq!(range.message(), "Expected between 1 and 13 arguments, got 140");
    let open = FreightError::IncorrectArgumentCount { expected_min: 0, expected_max: None, actual: 905 };
    assert_eq!(open.message(), "Expected between 0 and INFINITY arguments, got 905");
    assert_eq!(FreightError::Return { target: 40 }.message(), "Could not return to target 40");
    assert_eq!(FreightError::InvalidAddress.message(), "Variable address out of range");
    assert_eq!(FreightError::StackOverflow.message(), "Stack overflow");
}

#[test]
fn pool_can_be_filled_in_advance() {
    let mut pool: SlicePool<u8> = SlicePool::with_max_cache_per(2);
    pool.insert(vec![5, 6, 7]);
    assert_eq!(pool.outstanding(), 0);
    assert_eq!(pool.request(3), vec![5, 6, 7]);
    assert_eq!(pool.outstanding(), 1);
}
