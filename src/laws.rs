use vstd::prelude::*;
use crate::arg_count::ArgCount;
use crate::error::FreightError;
use crate::expression::{Expression, VariableType};
use crate::function::Function;
use crate::function_ref::{FunctionRef, FunctionType};
use crate::semantics::{
    call_with, capture_prefix, cells_hold_contents, eval, eval_args, frame_prefix, frame_slot, invoke, load, read_var, run_body, Store,
};
use crate::value::{BinaryOperator, Value};
use crate::{TypeSystem, Val};

verus! {

/// `t` keeps every cell of `s` as it was and changes nothing else but adding cells.
pub open spec fn only_adds_cells<TS: TypeSystem>(s: Store<TS>, t: Store<TS>) -> bool {
    &&& s.cells.len() <= t.cells.len()
    &&& forall|j: int| 0 <= j < s.cells.len() ==> #[trigger] t.cells[j] == s.cells[j]
    &&& t.globals == s.globals
    &&& t.environments == s.environments
    &&& t.return_value == s.return_value
    &&& t.context == s.context
}

/// Building a frame only adds cells; each named argument slot that receives a
/// plain value reads as that value, and a slot that the layout makes a reference
/// cell keeps an argument that is already a handle as that same handle.
pub proof fn lemma_frame_marshals<TS: TypeSystem>(s: Store<TS>, f: FunctionRef<TS::Native>, args: Seq<Val<TS>>, n: nat)
    requires
        s.cells.len() + n < usize::MAX,
    ensures
        ({
            let (t, fr) = frame_prefix::<TS>(s, f, args, n);
            &&& fr.len() == n
            &&& only_adds_cells::<TS>(s, t)
            &&& t.cells.len() <= s.cells.len() + n
            &&& forall|i: int| 0 <= i < n && i < f.arg_count.spec_max_capped() && i < args.len() && !(args[i] is Reference) ==> load::<TS>(t.cells, #[trigger] fr[i]) == args[i]
            &&& forall|i: int| 0 <= i < n && i < f.arg_count.spec_max_capped() && i < args.len() && f.layout.spec_is_alloc(i) && args[i] is Reference ==> #[trigger] fr[i] == args[i]
            &&& forall|i: int| 0 <= i < n && i < f.arg_count.spec_max_capped() && i < args.len() && !(args[i] is Reference) && #[trigger] fr[i] is Reference ==> fr[i]->Reference_0 < t.cells.len()
        }),
    decreases n,
{
    if n > 0 {
        lemma_frame_marshals::<TS>(s, f, args, (n - 1) as nat);
        let (t1, fr1) = frame_prefix::<TS>(s, f, args, (n - 1) as nat);
        let (t2, v) = frame_slot::<TS>(t1, f, args, n - 1);
        let (t, fr) = frame_prefix::<TS>(s, f, args, n);
        assert(t == t2 && fr == fr1.push(v));
        lemma_slot_adds::<TS>(t1, f, args, n - 1);
        assert forall|i: int| 0 <= i < n && i < f.arg_count.spec_max_capped() && i < args.len() && !(args[i] is Reference) implies load::<TS>(t.cells, #[trigger] fr[i]) == args[i] by {
            if i < n - 1 {
                assert(fr[i] == fr1[i]);
                assert(load::<TS>(t1.cells, fr1[i]) == args[i]);
                if fr1[i] is Reference {
                    assert(fr1[i]->Reference_0 < t1.cells.len());
                }
            }
        }
        assert forall|i: int| 0 <= i < n && i < f.arg_count.spec_max_capped() && i < args.len() && f.layout.spec_is_alloc(i) && args[i] is Reference implies #[trigger] fr[i] == args[i] by {
            if i < n - 1 {
                assert(fr[i] == fr1[i]);
            }
        }
        assert forall|i: int| 0 <= i < n && i < f.arg_count.spec_max_capped() && i < args.len() && !(args[i] is Reference) && #[trigger] fr[i] is Reference implies fr[i]->Reference_0 < t.cells.len() by {
            if i < n - 1 {
                assert(fr[i] == fr1[i]);
            }
        }
    }
}

/// Filling one slot only adds cells; a named slot that receives a plain value
/// reads as that value.
proof fn lemma_slot_adds<TS: TypeSystem>(t: Store<TS>, f: FunctionRef<TS::Native>, args: Seq<Val<TS>>, i: int)
    requires
        t.cells.len() < usize::MAX,
    ensures
        ({
            let (t2, v) = frame_slot::<TS>(t, f, args, i);
            &&& only_adds_cells::<TS>(t, t2)
            &&& (0 <= i < f.arg_count.spec_max_capped() && i < args.len() && !(args[i] is Reference)) ==> {
                &&& load::<TS>(t2.cells, v) == args[i]
                &&& v is Reference ==> v->Reference_0 < t2.cells.len()
            }
            &&& t2.cells.len() <= t.cells.len() + 1
        }),
{
    let (t2, v) = frame_slot::<TS>(t, f, args, i);
    assert forall|j: int| 0 <= j < t.cells.len() implies #[trigger] t2.cells[j] == t.cells[j] by {
        if t2.cells.len() > t.cells.len() {
            assert(t2.cells == t.cells.push(t2.cells.last()));
        }
    }
}

/// A value that is a plain owner or a handle to an existing cell.
pub open spec fn handle_ok<TS: TypeSystem>(cells: Seq<Val<TS>>, v: Val<TS>) -> bool {
    v is Reference ==> v->Reference_0 < cells.len()
}

/// Every named argument slot of a new frame reads as the content of its argument,
/// whether the argument is a plain value or a handle.
pub proof fn lemma_frame_reads_args<TS: TypeSystem>(s: Store<TS>, f: FunctionRef<TS::Native>, args: Seq<Val<TS>>, n: nat)
    requires
        s.cells.len() + n < usize::MAX,
        cells_hold_contents::<TS>(s.cells),
        forall|i: int| 0 <= i < args.len() ==> handle_ok::<TS>(s.cells, #[trigger] args[i]),
    ensures
        ({
            let (t, fr) = frame_prefix::<TS>(s, f, args, n);
            &&& forall|i: int| 0 <= i < n && i < f.arg_count.spec_max_capped() && i < args.len() ==> load::<TS>(t.cells, #[trigger] fr[i]) == load::<TS>(s.cells, args[i])
            &&& forall|i: int| 0 <= i < n && i < f.arg_count.spec_max_capped() && i < args.len() ==> handle_ok::<TS>(t.cells, #[trigger] fr[i])
        }),
    decreases n,
{
    lemma_frame_marshals::<TS>(s, f, args, n);
    if n > 0 {
        lemma_frame_reads_args::<TS>(s, f, args, (n - 1) as nat);
        lemma_frame_marshals::<TS>(s, f, args, (n - 1) as nat);
        let (t1, fr1) = frame_prefix::<TS>(s, f, args, (n - 1) as nat);
        let (t2, v) = frame_slot::<TS>(t1, f, args, n - 1);
        let (t, fr) = frame_prefix::<TS>(s, f, args, n);
        assert(t == t2 && fr == fr1.push(v));
        lemma_slot_adds::<TS>(t1, f, args, n - 1);
        assert forall|i: int| 0 <= i < n && i < f.arg_count.spec_max_capped() && i < args.len() implies load::<TS>(t.cells, #[trigger] fr[i]) == load::<TS>(s.cells, args[i]) && handle_ok::<TS>(t.cells, fr[i]) by {
            assert(handle_ok::<TS>(s.cells, args[i]));
            if i < n - 1 {
                assert(fr[i] == fr1[i]);
                assert(load::<TS>(t1.cells, fr1[i]) == load::<TS>(s.cells, args[i]));
                assert(handle_ok::<TS>(t1.cells, fr1[i]));
            } else if args[i] is Reference {
                let c = args[i]->Reference_0;
                assert(t.cells[c as int] == s.cells[c as int]);
                assert(t1.cells[c as int] == s.cells[c as int]);
            }
        }
    }
}

/// The body that returns the sum of its two arguments.
pub open spec fn sum_body<TS: TypeSystem>(op: TS::BinaryOp) -> Seq<Expression<TS>> {
    seq![Expression::BinaryOpEval(op, Box::new(Expression::Variable(VariableType::Stack(0))), Box::new(Expression::Variable(VariableType::Stack(1))))]
}

/// A static function of arity two whose body applies `op` to its two arguments
/// yields `op` applied to the contents of the two arguments, whatever else its
/// frame holds and whether the arguments are plain values or handles.
pub proof fn lemma_static_sum<TS: TypeSystem>(fs: Seq<Function<TS>>, s: Store<TS>, f: FunctionRef<TS::Native>, op: TS::BinaryOp, a: Val<TS>, b: Val<TS>, fuel: nat)
    requires
        f.function_type is Static,
        f.arg_count == ArgCount::Fixed(2),
        f.stack_size >= 2,
        s.cells.len() + f.stack_size < usize::MAX,
        f.location < fs.len(),
        fs[f.location as int].expressions@ == sum_body::<TS>(op),
        cells_hold_contents::<TS>(s.cells),
        handle_ok::<TS>(s.cells, a),
        handle_ok::<TS>(s.cells, b),
        fuel >= 3,
    ensures
        invoke::<TS>(fs, s, f, seq![a, b], fuel).1 == Ok::<Val<TS>, FreightError>(op.spec_apply_2(load::<TS>(s.cells, a), load::<TS>(s.cells, b))),
{
    let args = seq![a, b];
    lemma_frame_marshals::<TS>(s, f, args, f.stack_size as nat);
    lemma_frame_reads_args::<TS>(s, f, args, f.stack_size as nat);
    let (s1, frame) = frame_prefix::<TS>(s, f, args, f.stack_size as nat);
    assert(load::<TS>(s1.cells, frame[0]) == load::<TS>(s.cells, a));
    assert(load::<TS>(s1.cells, frame[1]) == load::<TS>(s.cells, b));
    let func = fs[f.location as int];
    let e = func.expressions@[0];
    let f1 = (fuel - 1) as nat;
    let f2 = (fuel - 2) as nat;
    assert(e == Expression::<TS>::BinaryOpEval(op, Box::new(Expression::Variable(VariableType::Stack(0))), Box::new(Expression::Variable(VariableType::Stack(1)))));
    let l = Expression::<TS>::Variable(VariableType::Stack(0));
    let r = Expression::<TS>::Variable(VariableType::Stack(1));
    assert(eval::<TS>(fs, s1, l, frame, Seq::empty(), f2) == (s1, frame, Ok::<Val<TS>, FreightError>(frame[0])));
    assert(eval::<TS>(fs, s1, r, frame, Seq::empty(), f2) == (s1, frame, Ok::<Val<TS>, FreightError>(frame[1])));
    assert(eval::<TS>(fs, s1, e, frame, Seq::empty(), f1).2 == Ok::<Val<TS>, FreightError>(op.spec_apply_2(load::<TS>(s.cells, a), load::<TS>(s.cells, b))));
    assert(run_body::<TS>(fs, s1, func, frame, Seq::empty(), 0, f1).2 == Ok::<Val<TS>, FreightError>(op.spec_apply_2(load::<TS>(s.cells, a), load::<TS>(s.cells, b))));
}

/// The body that assigns `v` to its first slot.
pub open spec fn assign_first_body<TS: TypeSystem>(v: Val<TS>) -> Seq<Expression<TS>> {
    seq![Expression::AssignStack(0, Box::new(Expression::RawValue(v)))]
}

/// A function whose first argument slot is a reference cell and whose body assigns
/// `v` to that slot writes `v` through a handle passed as that argument: after the
/// call the cell holds the content that `v` had before the call.
pub proof fn lemma_write_through<TS: TypeSystem>(fs: Seq<Function<TS>>, s: Store<TS>, f: FunctionRef<TS::Native>, c: usize, v: Val<TS>, fuel: nat)
    requires
        f.function_type is Static,
        f.arg_count == ArgCount::Fixed(1),
        f.stack_size >= 1,
        f.layout.spec_is_alloc(0),
        s.cells.len() + f.stack_size < usize::MAX,
        f.location < fs.len(),
        fs[f.location as int].expressions@ == assign_first_body::<TS>(v),
        c < s.cells.len(),
        handle_ok::<TS>(s.cells, v),
        fuel >= 3,
    ensures
        invoke::<TS>(fs, s, f, seq![Value::Reference(c)], fuel).0.cells[c as int] == load::<TS>(s.cells, v),
        invoke::<TS>(fs, s, f, seq![Value::Reference(c)], fuel).1 == Ok::<Val<TS>, FreightError>(Value::Null),
{
    let args = seq![Value::<TS::Datum, TS::Native>::Reference(c)];
    lemma_frame_marshals::<TS>(s, f, args, f.stack_size as nat);
    let (s1, frame) = frame_prefix::<TS>(s, f, args, f.stack_size as nat);
    assert(frame[0] == Value::<TS::Datum, TS::Native>::Reference(c));
    let func = fs[f.location as int];
    let e = func.expressions@[0];
    let f1 = (fuel - 1) as nat;
    let f2 = (fuel - 2) as nat;
    let x = Expression::<TS>::RawValue(v);
    assert(e == Expression::<TS>::AssignStack(0, Box::new(x)));
    assert(eval::<TS>(fs, s1, x, frame, Seq::empty(), f2) == (s1, frame, Ok::<Val<TS>, FreightError>(v)));
    assert(load::<TS>(s1.cells, v) == load::<TS>(s.cells, v)) by {
        if v is Reference {
            assert(s1.cells[v->Reference_0 as int] == s.cells[v->Reference_0 as int]);
        }
    }
    let (s2, _, r2) = eval::<TS>(fs, s1, e, frame, Seq::empty(), f1);
    assert(s2.cells[c as int] == load::<TS>(s.cells, v));
    assert(r2 == Ok::<Val<TS>, FreightError>(Value::Null));
    assert(run_body::<TS>(fs, s1, func, frame, Seq::empty(), 0, f1).0.cells[c as int] == load::<TS>(s.cells, v));
}

/// Materializing a closure template and then calling the closure runs the body
/// with the cells that the capture sites resolved to in the environment where the
/// closure was made.
pub proof fn lemma_capture_then_call<TS: TypeSystem>(fs: Seq<Function<TS>>, s: Store<TS>, d: FunctionRef<TS::Native>, frame: Seq<Val<TS>>, caps: Seq<usize>, args: Seq<Val<TS>>, fuel: nat, call_fuel: nat)
    requires
        d.function_type is CapturingDef,
        d.location < fs.len(),
        s.environments.len() < usize::MAX,
        fuel >= 1,
        call_fuel >= 1,
        capture_prefix::<TS>(s, frame, caps, fs[d.location as int].captures@, fs[d.location as int].captures@.len()).1 is Ok,
    ensures
        ({
            let sites = fs[d.location as int].captures@;
            let (s0, ids) = capture_prefix::<TS>(s, frame, caps, sites, sites.len());
            let (s1, f1, made) = eval::<TS>(fs, s, Expression::FunctionCapture(d), frame, caps, fuel);
            &&& f1 == frame
            &&& made matches Ok(Value::Function(r)) && {
                &&& r.function_type is CapturingRef
                &&& r.location == d.location
                &&& r.arg_count == d.arg_count
                &&& r.stack_size == d.stack_size
                &&& ({
                    let (s2, fr) = frame_prefix::<TS>(s1, r, args, r.stack_size as nat);
                    let (s3, _, out) = run_body::<TS>(fs, s2, fs[d.location as int], fr, ids->Ok_0, 0, (call_fuel - 1) as nat);
                    invoke::<TS>(fs, s1, r, args, call_fuel) == (s3, out)
                })
            }
        }),
{
    let sites = fs[d.location as int].captures@;
    let (s0, ids) = capture_prefix::<TS>(s, frame, caps, sites, sites.len());
    let (s1, f1, made) = eval::<TS>(fs, s, Expression::FunctionCapture(d), frame, caps, fuel);
    let env = s0.environments.len() as usize;
    assert(s1.environments == s0.environments.push(ids->Ok_0));
    let r = FunctionRef { function_type: FunctionType::CapturingRef(env), ..d };
    assert(made == Ok::<Val<TS>, FreightError>(Value::Function(r)));
    lemma_capture_keeps_environments::<TS>(s, frame, caps, sites, sites.len());
    lemma_frame_keeps_environments::<TS>(s1, r, args, r.stack_size as nat);
    let (s2, fr) = frame_prefix::<TS>(s1, r, args, r.stack_size as nat);
    assert(s2.environments[env as int] == ids->Ok_0);
}

/// When every capture site addresses a reference cell, materializing captures
/// exactly those cells, site by site, and changes nothing else.
pub proof fn lemma_capture_sites<TS: TypeSystem>(s: Store<TS>, frame: Seq<Val<TS>>, caps: Seq<usize>, sites: Seq<VariableType>, n: nat)
    requires
        n <= sites.len(),
        forall|i: int| 0 <= i < n ==> #[trigger] read_var::<TS>(s, frame, caps, sites[i]) matches Ok(Value::Reference(_)),
    ensures
        capture_prefix::<TS>(s, frame, caps, sites, n).0 == s,
        capture_prefix::<TS>(s, frame, caps, sites, n).1 matches Ok(ids) && ids.len() == n && forall|i: int| 0 <= i < n ==> read_var::<TS>(s, frame, caps, sites[i]) == Ok::<Val<TS>, FreightError>(Value::Reference(#[trigger] ids[i])),
    decreases n,
{
    if n > 0 {
        lemma_capture_sites::<TS>(s, frame, caps, sites, (n - 1) as nat);
        let r = read_var::<TS>(s, frame, caps, sites[n - 1]);
        assert(r matches Ok(Value::Reference(_)));
        let (_, prev) = capture_prefix::<TS>(s, frame, caps, sites, (n - 1) as nat);
        let ids = prev->Ok_0;
        let (_, now) = capture_prefix::<TS>(s, frame, caps, sites, n);
        assert(now == Ok::<Seq<usize>, FreightError>(ids.push(r->Ok_0->Reference_0)));
        assert forall|i: int| 0 <= i < n implies read_var::<TS>(s, frame, caps, sites[i]) == Ok::<Val<TS>, FreightError>(Value::Reference(#[trigger] now->Ok_0[i])) by {
            if i < n - 1 {
                assert(now->Ok_0[i] == ids[i]);
            }
        }
    }
}

/// Resolving capture sites leaves the closure environments as they were.
pub proof fn lemma_capture_keeps_environments<TS: TypeSystem>(s: Store<TS>, frame: Seq<Val<TS>>, caps: Seq<usize>, sites: Seq<VariableType>, n: nat)
    ensures
        capture_prefix::<TS>(s, frame, caps, sites, n).0.environments == s.environments,
    decreases n,
{
    if n > 0 {
        lemma_capture_keeps_environments::<TS>(s, frame, caps, sites, (n - 1) as nat);
    }
}

/// Building a frame leaves the closure environments as they were.
pub proof fn lemma_frame_keeps_environments<TS: TypeSystem>(s: Store<TS>, f: FunctionRef<TS::Native>, args: Seq<Val<TS>>, n: nat)
    ensures
        frame_prefix::<TS>(s, f, args, n).0.environments == s.environments,
    decreases n,
{
    if n > 0 {
        lemma_frame_keeps_environments::<TS>(s, f, args, (n - 1) as nat);
    }
}

/// A return aimed at `t` that leaves the operand of a return target `t` becomes
/// the value of the target: the value left in the return slot, which is emptied.
pub proof fn lemma_return_caught<TS: TypeSystem>(fs: Seq<Function<TS>>, s: Store<TS>, t: usize, x: Expression<TS>, frame: Seq<Val<TS>>, caps: Seq<usize>, fuel: nat)
    requires
        fuel >= 1,
        eval::<TS>(fs, s, x, frame, caps, (fuel - 1) as nat).2 == Err::<Val<TS>, FreightError>(FreightError::Return { target: t }),
    ensures
        ({
            let (s1, f1, _) = eval::<TS>(fs, s, x, frame, caps, (fuel - 1) as nat);
            let (s2, f2, r) = eval::<TS>(fs, s, Expression::ReturnTarget(t, Box::new(x)), frame, caps, fuel);
            &&& r == Ok::<Val<TS>, FreightError>(s1.return_value)
            &&& s2.return_value is Null
            &&& f2 == f1
        }),
{
}

/// A return aimed at another target passes through a return target unchanged.
pub proof fn lemma_return_passes<TS: TypeSystem>(fs: Seq<Function<TS>>, s: Store<TS>, t: usize, u: usize, x: Expression<TS>, frame: Seq<Val<TS>>, caps: Seq<usize>, fuel: nat)
    requires
        fuel >= 1,
        u != t,
        eval::<TS>(fs, s, x, frame, caps, (fuel - 1) as nat).2 == Err::<Val<TS>, FreightError>(FreightError::Return { target: u }),
    ensures
        eval::<TS>(fs, s, Expression::ReturnTarget(t, Box::new(x)), frame, caps, fuel) == eval::<TS>(fs, s, x, frame, caps, (fuel - 1) as nat),
{
}

/// `x` reaches `Return(t, e)` first when evaluated, `depth` levels down: the
/// first operand evaluated at each level leads there, and no level is a return
/// target for `t`.
pub open spec fn leads_with_return<TS: TypeSystem>(x: Expression<TS>, t: usize, e: Expression<TS>, depth: nat) -> bool
    decreases depth,
{
    if depth == 0 {
        x == Expression::<TS>::Return(t, Box::new(e))
    } else {
        let d = (depth - 1) as nat;
        match x {
            Expression::BinaryOpEval(_, l, _) => leads_with_return(*l, t, e, d),
            Expression::UnaryOpEval(_, y) => leads_with_return(*y, t, e, d),
            Expression::AssignStack(_, y) => leads_with_return(*y, t, e, d),
            Expression::AssignGlobal(_, y) => leads_with_return(*y, t, e, d),
            Expression::AssignDynamic(l, _) => leads_with_return(*l, t, e, d),
            Expression::DynamicFunctionCall(y, _) => leads_with_return(*y, t, e, d),
            Expression::Return(_, y) => leads_with_return(*y, t, e, d),
            Expression::ReturnTarget(u, y) => u != t && leads_with_return(*y, t, e, d),
            Expression::Initialize(_, args) => args@.len() > 0 && leads_with_return(args@[0], t, e, d),
            Expression::NativeFunctionCall(_, args) => args@.len() > 0 && leads_with_return(args@[0], t, e, d),
            Expression::StaticFunctionCall(f, args) => {
                &&& args@.len() > 0
                &&& args@.len() <= usize::MAX
                &&& f.arg_count.spec_valid_arg_count(args@.len() as usize)
                &&& leads_with_return(args@[0], t, e, d)
            },
            _ => false,
        }
    }
}

/// A tree that reaches `Return(t, e)` first raises the return signal for `t`
/// and leaves the value of `e` in the return slot.
pub proof fn lemma_return_rises<TS: TypeSystem>(fs: Seq<Function<TS>>, s: Store<TS>, x: Expression<TS>, t: usize, e: Expression<TS>, depth: nat, frame: Seq<Val<TS>>, caps: Seq<usize>, fuel: nat)
    requires
        leads_with_return::<TS>(x, t, e, depth),
        fuel > depth,
        eval::<TS>(fs, s, e, frame, caps, (fuel - depth - 1) as nat).2 is Ok,
    ensures
        eval::<TS>(fs, s, x, frame, caps, fuel).2 == Err::<Val<TS>, FreightError>(FreightError::Return { target: t }),
        eval::<TS>(fs, s, x, frame, caps, fuel).0.return_value == eval::<TS>(fs, s, e, frame, caps, (fuel - depth - 1) as nat).2->Ok_0,
    decreases depth,
{
    if depth == 0 {
        assert(x == Expression::<TS>::Return(t, Box::new(e)));
        let (s1, f1, r1) = eval::<TS>(fs, s, e, frame, caps, (fuel - 1) as nat);
        assert(eval::<TS>(fs, s, x, frame, caps, fuel) == (Store { return_value: r1->Ok_0, ..s1 }, f1, Err::<Val<TS>, FreightError>(FreightError::Return { target: t })));
    } else {
        let d = (depth - 1) as nat;
        let f = (fuel - 1) as nat;
        match x {
            Expression::BinaryOpEval(_, l, _) => {
                lemma_return_rises::<TS>(fs, s, *l, t, e, d, frame, caps, f);
                assert(eval::<TS>(fs, s, x, frame, caps, fuel).2 == Err::<Val<TS>, FreightError>(FreightError::Return { target: t }));
            },
            Expression::UnaryOpEval(_, y) => {
                lemma_return_rises::<TS>(fs, s, *y, t, e, d, frame, caps, f);
                assert(eval::<TS>(fs, s, x, frame, caps, fuel).2 == Err::<Val<TS>, FreightError>(FreightError::Return { target: t }));
            },
            Expression::AssignStack(_, y) => {
                lemma_return_rises::<TS>(fs, s, *y, t, e, d, frame, caps, f);
                assert(eval::<TS>(fs, s, x, frame, caps, fuel).2 == Err::<Val<TS>, FreightError>(FreightError::Return { target: t }));
            },
            Expression::AssignGlobal(_, y) => {
                lemma_return_rises::<TS>(fs, s, *y, t, e, d, frame, caps, f);
                assert(eval::<TS>(fs, s, x, frame, caps, fuel).2 == Err::<Val<TS>, FreightError>(FreightError::Return { target: t }));
            },
            Expression::AssignDynamic(l, _) => {
                lemma_return_rises::<TS>(fs, s, *l, t, e, d, frame, caps, f);
                assert(eval::<TS>(fs, s, x, frame, caps, fuel).2 == Err::<Val<TS>, FreightError>(FreightError::Return { target: t }));
            },
            Expression::DynamicFunctionCall(y, _) => {
                lemma_return_rises::<TS>(fs, s, *y, t, e, d, frame, caps, f);
                assert(eval::<TS>(fs, s, x, frame, caps, fuel).2 == Err::<Val<TS>, FreightError>(FreightError::Return { target: t }));
            },
            Expression::Return(_, y) => {
                lemma_return_rises::<TS>(fs, s, *y, t, e, d, frame, caps, f);
                assert(eval::<TS>(fs, s, x, frame, caps, fuel).2 == Err::<Val<TS>, FreightError>(FreightError::Return { target: t }));
            },
            Expression::ReturnTarget(_, y) => {
                lemma_return_rises::<TS>(fs, s, *y, t, e, d, frame, caps, f);
                assert(eval::<TS>(fs, s, x, frame, caps, fuel).2 == Err::<Val<TS>, FreightError>(FreightError::Return { target: t }));
            },
            Expression::Initialize(_, args) => {
                lemma_return_rises::<TS>(fs, s, args@[0], t, e, d, frame, caps, f);
                let (s1, f1, r1) = eval::<TS>(fs, s, args@[0], frame, caps, f);
                assert(eval_args::<TS>(fs, s, args@, frame, caps, 0, f) == (s1, f1, Err::<Seq<Val<TS>>, FreightError>(FreightError::Return { target: t })));
                assert(eval::<TS>(fs, s, x, frame, caps, fuel).2 == Err::<Val<TS>, FreightError>(FreightError::Return { target: t }));
            },
            Expression::NativeFunctionCall(_, args) => {
                lemma_return_rises::<TS>(fs, s, args@[0], t, e, d, frame, caps, f);
                let (s1, f1, r1) = eval::<TS>(fs, s, args@[0], frame, caps, f);
                assert(eval_args::<TS>(fs, s, args@, frame, caps, 0, f) == (s1, f1, Err::<Seq<Val<TS>>, FreightError>(FreightError::Return { target: t })));
                assert(eval::<TS>(fs, s, x, frame, caps, fuel).2 == Err::<Val<TS>, FreightError>(FreightError::Return { target: t }));
            },
            Expression::StaticFunctionCall(fr, args) => {
                lemma_return_rises::<TS>(fs, s, args@[0], t, e, d, frame, caps, f);
                let (s1, f1, r1) = eval::<TS>(fs, s, args@[0], frame, caps, f);
                assert(eval_args::<TS>(fs, s, args@, frame, caps, 0, f) == (s1, f1, Err::<Seq<Val<TS>>, FreightError>(FreightError::Return { target: t })));
                assert(call_with::<TS>(fs, s, frame, caps, fr, args@, f) == (s1, f1, Err::<Val<TS>, FreightError>(FreightError::Return { target: t })));
                assert(eval::<TS>(fs, s, x, frame, caps, fuel).2 == Err::<Val<TS>, FreightError>(FreightError::Return { target: t }));
            },
            _ => {},
        }
    }
}

/// A return target for `t` around a tree that reaches `Return(t, e)` first, at
/// any depth, yields the value of `e`.
pub proof fn lemma_return_any_depth<TS: TypeSystem>(fs: Seq<Function<TS>>, s: Store<TS>, x: Expression<TS>, t: usize, e: Expression<TS>, depth: nat, frame: Seq<Val<TS>>, caps: Seq<usize>, fuel: nat)
    requires
        leads_with_return::<TS>(x, t, e, depth),
        fuel > depth + 1,
        eval::<TS>(fs, s, e, frame, caps, (fuel - depth - 2) as nat).2 is Ok,
    ensures
        eval::<TS>(fs, s, Expression::ReturnTarget(t, Box::new(x)), frame, caps, fuel).2 == eval::<TS>(fs, s, e, frame, caps, (fuel - depth - 2) as nat).2,
{
    lemma_return_rises::<TS>(fs, s, x, t, e, depth, frame, caps, (fuel - 1) as nat);
}

} // verus!
