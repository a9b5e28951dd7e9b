use vstd::prelude::*;
use crate::error::FreightError;
use crate::expression::{Expression, VariableType};
use crate::function::Function;
use crate::function_ref::{FunctionRef, FunctionType};
use crate::value::{BinaryOperator, Initializer, Native, UnaryOperator, Value};
use crate::{TypeSystem, Val};

verus! {

/// The state of an engine that evaluation reads and changes.
#[verifier::ext_equal]
pub struct Store<TS: TypeSystem> {
    /// The reference cells; a `Reference(c)` value is a handle to `cells[c]`.
    pub cells: Seq<Val<TS>>,
    pub globals: Seq<Val<TS>>,
    /// The captured cells of each materialized closure.
    pub environments: Seq<Seq<usize>>,
    /// Where a non-local return leaves its value for the target that catches it.
    pub return_value: Val<TS>,
    pub context: TS::GlobalContext,
}

/// The content of a value: a handle reads its cell, a handle to no cell reads
/// null, and any other value is its own content.
pub open spec fn load<TS: TypeSystem>(cells: Seq<Val<TS>>, v: Val<TS>) -> Val<TS> {
    match v {
        Value::Reference(c) => if c < cells.len() {
            cells[c as int]
        } else {
            Value::Null
        },
        _ => v,
    }
}

pub open spec fn loads<TS: TypeSystem>(cells: Seq<Val<TS>>, vs: Seq<Val<TS>>) -> Seq<Val<TS>> {
    vs.map_values(|v: Val<TS>| load::<TS>(cells, v))
}

/// Every cell holds a content, never a handle; the engine only ever stores
/// contents in cells.
pub open spec fn cells_hold_contents<TS: TypeSystem>(cells: Seq<Val<TS>>) -> bool {
    forall|j: int| 0 <= j < cells.len() ==> !(#[trigger] cells[j] is Reference)
}

/// A new cell holding `v`, and a handle to it.
pub open spec fn new_cell<TS: TypeSystem>(s: Store<TS>, v: Val<TS>) -> (Store<TS>, Val<TS>) {
    (Store { cells: s.cells.push(v), ..s }, Value::Reference(s.cells.len() as usize))
}

/// `v` as a reference cell: a handle stays the same handle, any other value moves
/// into a new cell.
pub open spec fn into_ref<TS: TypeSystem>(s: Store<TS>, v: Val<TS>) -> (Store<TS>, Val<TS>) {
    match v {
        Value::Reference(_) => (s, v),
        _ => new_cell(s, v),
    }
}

/// Stores the content of `v` in cell `c`; a write to no cell is dropped.
pub open spec fn write_cell<TS: TypeSystem>(s: Store<TS>, c: usize, v: Val<TS>) -> Store<TS> {
    if c < s.cells.len() {
        Store { cells: s.cells.update(c as int, load::<TS>(s.cells, v)), ..s }
    } else {
        s
    }
}

/// Assigns `v` to a place that holds `place`: through the cell when `place` is a
/// handle, else the place itself takes the content of `v`. Gives the new state and
/// what the place holds afterwards.
pub open spec fn assign_place<TS: TypeSystem>(s: Store<TS>, place: Val<TS>, v: Val<TS>) -> (Store<TS>, Val<TS>) {
    match place {
        Value::Reference(c) => (write_cell(s, c, v), place),
        _ => (s, load::<TS>(s.cells, v)),
    }
}

/// What a variable evaluates to: a frame slot or global as it stands (a handle
/// stays a handle), a captured entry as a handle to its cell.
pub open spec fn read_var<TS: TypeSystem>(s: Store<TS>, frame: Seq<Val<TS>>, caps: Seq<usize>, var: VariableType) -> Result<Val<TS>, FreightError> {
    match var {
        VariableType::Stack(o) => if o < frame.len() {
            Ok(frame[o as int])
        } else {
            Err(FreightError::InvalidAddress)
        },
        VariableType::Captured(i) => if i < caps.len() {
            Ok(Value::Reference(caps[i as int]))
        } else {
            Err(FreightError::InvalidAddress)
        },
        VariableType::Global(a) => if a < s.globals.len() {
            Ok(s.globals[a as int])
        } else {
            Err(FreightError::InvalidAddress)
        },
    }
}

/// The cell a closure captures for a site: the cell of a slot or global that is a
/// reference, else a new cell holding a copy of its content.
pub open spec fn capture_site<TS: TypeSystem>(s: Store<TS>, frame: Seq<Val<TS>>, caps: Seq<usize>, var: VariableType) -> (Store<TS>, Result<usize, FreightError>) {
    match read_var(s, frame, caps, var) {
        Ok(Value::Reference(c)) => (s, Ok(c)),
        Ok(v) => (new_cell(s, v).0, Ok(s.cells.len() as usize)),
        Err(e) => (s, Err(e)),
    }
}

/// The cells captured for the first `n` sites.
pub open spec fn capture_prefix<TS: TypeSystem>(s: Store<TS>, frame: Seq<Val<TS>>, caps: Seq<usize>, sites: Seq<VariableType>, n: nat) -> (Store<TS>, Result<Seq<usize>, FreightError>)
    decreases n,
{
    if n == 0 {
        (s, Ok(Seq::empty()))
    } else {
        let (s1, r) = capture_prefix(s, frame, caps, sites, (n - 1) as nat);
        match r {
            Ok(ids) => {
                let (s2, c) = capture_site(s1, frame, caps, sites[n - 1]);
                match c {
                    Ok(id) => (s2, Ok(ids.push(id))),
                    Err(e) => (s2, Err(e)),
                }
            },
            Err(e) => (s1, Err(e)),
        }
    }
}

/// The list of arguments past the named slots of a variadic call.
pub open spec fn rest_args<TS: TypeSystem>(f: FunctionRef<TS::Native>, args: Seq<Val<TS>>) -> Seq<Val<TS>> {
    let m = f.arg_count.spec_max_capped() as int;
    if args.len() > m {
        args.subrange(m, args.len() as int)
    } else {
        Seq::empty()
    }
}

/// Slot `i` of the frame of a call of `f` with `args`: a named argument as a
/// reference cell or an owned copy, per the layout; the list of the remaining
/// arguments of a variadic call; or an empty slot, a new cell where the layout says.
pub open spec fn frame_slot<TS: TypeSystem>(s: Store<TS>, f: FunctionRef<TS::Native>, args: Seq<Val<TS>>, i: int) -> (Store<TS>, Val<TS>) {
    let m = f.arg_count.spec_max_capped() as int;
    if i < m && i < args.len() {
        if f.layout.spec_is_alloc(i) {
            into_ref(s, args[i])
        } else {
            (s, load::<TS>(s.cells, args[i]))
        }
    } else if f.arg_count.is_variadic() && i == m {
        (s, TS::spec_gen_list(loads::<TS>(s.cells, rest_args::<TS>(f, args))))
    } else if f.layout.spec_is_alloc(i) {
        new_cell(s, Value::Null)
    } else {
        (s, Value::Null)
    }
}

/// The first `n` slots of the frame of a call of `f` with `args`.
pub open spec fn frame_prefix<TS: TypeSystem>(s: Store<TS>, f: FunctionRef<TS::Native>, args: Seq<Val<TS>>, n: nat) -> (Store<TS>, Seq<Val<TS>>)
    decreases n,
{
    if n == 0 {
        (s, Seq::empty())
    } else {
        let (s1, fr) = frame_prefix(s, f, args, (n - 1) as nat);
        let (s2, v) = frame_slot(s1, f, args, n - 1);
        (s2, fr.push(v))
    }
}

/// A caught return for `id` yields the value in the return slot and empties it;
/// any other outcome passes unchanged.
pub open spec fn take_return<TS: TypeSystem>(s: Store<TS>, r: Result<Val<TS>, FreightError>, id: usize) -> (Store<TS>, Result<Val<TS>, FreightError>) {
    match r {
        Err(FreightError::Return { target }) => if target == id {
            (Store { return_value: Value::Null, ..s }, Ok(s.return_value))
        } else {
            (s, r)
        },
        _ => (s, r),
    }
}

/// The error for a call of `f` with `k` arguments that its arity refuses.
pub open spec fn arity_error<N>(f: FunctionRef<N>, k: usize) -> FreightError {
    FreightError::IncorrectArgumentCount {
        expected_min: f.arg_count.spec_min(),
        expected_max: f.arg_count.spec_max(),
        actual: k,
    }
}

/// Evaluates `e` in `frame` and `caps`: the new state, the new frame, and the
/// outcome. Each level of nesting and each call uses one unit of `fuel`; when it
/// runs out the outcome is `StackOverflow`.
pub open spec fn eval<TS: TypeSystem>(fs: Seq<Function<TS>>, s: Store<TS>, e: Expression<TS>, frame: Seq<Val<TS>>, caps: Seq<usize>, fuel: nat) -> (Store<TS>, Seq<Val<TS>>, Result<Val<TS>, FreightError>)
    decreases fuel, 0nat, 0nat,
{
    if fuel == 0 {
        (s, frame, Err(FreightError::StackOverflow))
    } else {
        let f = (fuel - 1) as nat;
        match e {
            Expression::RawValue(v) => (s, frame, Ok(v)),
            Expression::Variable(var) => (s, frame, read_var(s, frame, caps, var)),
            Expression::BinaryOpEval(op, l, r) => {
                let (s1, f1, a) = eval(fs, s, *l, frame, caps, f);
                match a {
                    Err(err) => (s1, f1, Err(err)),
                    Ok(a) => {
                        let (s2, f2, b) = eval(fs, s1, *r, f1, caps, f);
                        match b {
                            Err(err) => (s2, f2, Err(err)),
                            Ok(b) => (s2, f2, Ok(op.spec_apply_2(load::<TS>(s2.cells, a), load::<TS>(s2.cells, b)))),
                        }
                    },
                }
            },
            Expression::UnaryOpEval(op, x) => {
                let (s1, f1, a) = eval(fs, s, *x, frame, caps, f);
                match a {
                    Err(err) => (s1, f1, Err(err)),
                    Ok(a) => (s1, f1, Ok(op.spec_apply_1(load::<TS>(s1.cells, a)))),
                }
            },
            Expression::Initialize(init, args) => {
                let (s1, f1, r) = eval_args(fs, s, args@, frame, caps, 0, f);
                match r {
                    Err(err) => (s1, f1, Err(err)),
                    Ok(vs) => {
                        let (v, ctx) = init.spec_initialize(loads::<TS>(s1.cells, vs), s1.context);
                        (Store { context: ctx, ..s1 }, f1, Ok(v))
                    },
                }
            },
            Expression::StaticFunctionCall(fref, args) => call_with(fs, s, frame, caps, fref, args@, f),
            Expression::DynamicFunctionCall(target, args) => {
                let (s1, f1, t) = eval(fs, s, *target, frame, caps, f);
                match t {
                    Err(err) => (s1, f1, Err(err)),
                    Ok(t) => match load::<TS>(s1.cells, t) {
                        Value::Function(fref) => call_with(fs, s1, f1, caps, fref, args@, f),
                        _ => (s1, f1, Err(FreightError::InvalidInvocationTarget)),
                    },
                }
            },
            Expression::NativeFunctionCall(n, args) => {
                let (s1, f1, r) = eval_args(fs, s, args@, frame, caps, 0, f);
                match r {
                    Err(err) => (s1, f1, Err(err)),
                    Ok(vs) => {
                        let (v, ctx) = n.0.spec_invoke(loads::<TS>(s1.cells, vs), s1.context);
                        (Store { context: ctx, ..s1 }, f1, v)
                    },
                }
            },
            Expression::FunctionCapture(fref) => {
                if fref.function_type is CapturingDef && fref.location < fs.len() {
                    let sites = fs[fref.location as int].captures@;
                    let (s1, r) = capture_prefix(s, frame, caps, sites, sites.len());
                    match r {
                        Err(err) => (s1, frame, Err(err)),
                        Ok(ids) => {
                            let env = s1.environments.len() as usize;
                            (
                                Store { environments: s1.environments.push(ids), ..s1 },
                                frame,
                                Ok(Value::Function(FunctionRef { function_type: FunctionType::CapturingRef(env), ..fref })),
                            )
                        },
                    }
                } else {
                    (s, frame, Err(FreightError::InvalidInvocationTarget))
                }
            },
            Expression::AssignStack(o, x) => {
                let (s1, f1, r) = eval(fs, s, *x, frame, caps, f);
                match r {
                    Err(err) => (s1, f1, Err(err)),
                    Ok(v) => if o < f1.len() {
                        let (s2, p) = assign_place(s1, f1[o as int], v);
                        (s2, f1.update(o as int, p), Ok(Value::Null))
                    } else {
                        (s1, f1, Err(FreightError::InvalidAddress))
                    },
                }
            },
            Expression::AssignGlobal(a, x) => {
                let (s1, f1, r) = eval(fs, s, *x, frame, caps, f);
                match r {
                    Err(err) => (s1, f1, Err(err)),
                    Ok(v) => if a < s1.globals.len() {
                        let (s2, p) = assign_place(s1, s1.globals[a as int], v);
                        (Store { globals: s2.globals.update(a as int, p), ..s2 }, f1, Ok(Value::Null))
                    } else {
                        (s1, f1, Err(FreightError::InvalidAddress))
                    },
                }
            },
            Expression::AssignDynamic(l, x) => {
                let (s1, f1, t) = eval(fs, s, *l, frame, caps, f);
                match t {
                    Err(err) => (s1, f1, Err(err)),
                    Ok(t) => {
                        let (s2, f2, r) = eval(fs, s1, *x, f1, caps, f);
                        match r {
                            Err(err) => (s2, f2, Err(err)),
                            Ok(v) => match t {
                                Value::Reference(c) => (write_cell(s2, c, v), f2, Ok(Value::Null)),
                                _ => (s2, f2, Ok(Value::Null)),
                            },
                        }
                    },
                }
            },
            Expression::ReturnTarget(t, x) => {
                let (s1, f1, r) = eval(fs, s, *x, frame, caps, f);
                let (s2, r2) = take_return(s1, r, t);
                (s2, f1, r2)
            },
            Expression::Return(t, x) => {
                let (s1, f1, r) = eval(fs, s, *x, frame, caps, f);
                match r {
                    Err(err) => (s1, f1, Err(err)),
                    Ok(v) => (Store { return_value: v, ..s1 }, f1, Err(FreightError::Return { target: t })),
                }
            },
        }
    }
}

/// `vals` put in front of the values of a successful outcome.
pub open spec fn prepend_vals<TS: TypeSystem>(vals: Seq<Val<TS>>, out: (Store<TS>, Seq<Val<TS>>, Result<Seq<Val<TS>>, FreightError>)) -> (Store<TS>, Seq<Val<TS>>, Result<Seq<Val<TS>>, FreightError>) {
    match out.2 {
        Ok(vs) => (out.0, out.1, Ok(vals + vs)),
        Err(err) => (out.0, out.1, Err(err)),
    }
}

/// Evaluates `args[i..]` left to right; the first failure stops the rest.
pub open spec fn eval_args<TS: TypeSystem>(fs: Seq<Function<TS>>, s: Store<TS>, args: Seq<Expression<TS>>, frame: Seq<Val<TS>>, caps: Seq<usize>, i: nat, fuel: nat) -> (Store<TS>, Seq<Val<TS>>, Result<Seq<Val<TS>>, FreightError>)
    decreases fuel, 1nat, args.len() - i,
{
    if i >= args.len() {
        (s, frame, Ok(Seq::empty()))
    } else {
        let (s1, f1, r) = eval(fs, s, args[i as int], frame, caps, fuel);
        match r {
            Err(err) => (s1, f1, Err(err)),
            Ok(v) => {
                let (s2, f2, rest) = eval_args(fs, s1, args, f1, caps, i + 1, fuel);
                match rest {
                    Err(err) => (s2, f2, Err(err)),
                    Ok(vs) => (s2, f2, Ok(seq![v].add(vs))),
                }
            },
        }
    }
}

/// A call of `f` whose arguments are the values of `args`: the arity is checked
/// before any argument is evaluated.
pub open spec fn call_with<TS: TypeSystem>(fs: Seq<Function<TS>>, s: Store<TS>, frame: Seq<Val<TS>>, caps: Seq<usize>, f: FunctionRef<TS::Native>, args: Seq<Expression<TS>>, fuel: nat) -> (Store<TS>, Seq<Val<TS>>, Result<Val<TS>, FreightError>)
    decreases fuel, 2nat, 0nat,
{
    if !f.arg_count.spec_valid_arg_count(args.len() as usize) || args.len() > usize::MAX {
        (s, frame, Err(arity_error(f, args.len() as usize)))
    } else {
        let (s1, f1, r) = eval_args(fs, s, args, frame, caps, 0, fuel);
        match r {
            Err(err) => (s1, f1, Err(err)),
            Ok(vs) => {
                let (s2, out) = invoke(fs, s1, f, vs, fuel);
                (s2, f1, out)
            },
        }
    }
}

/// A call of `f` with argument values `args` whose count its arity accepts: the
/// frame is built, then the call is dispatched on the kind of `f`.
pub open spec fn invoke<TS: TypeSystem>(fs: Seq<Function<TS>>, s: Store<TS>, f: FunctionRef<TS::Native>, args: Seq<Val<TS>>, fuel: nat) -> (Store<TS>, Result<Val<TS>, FreightError>)
    decreases fuel, 1nat, 0nat,
{
    if fuel == 0 {
        (s, Err(FreightError::StackOverflow))
    } else {
        let (s1, frame) = frame_prefix(s, f, args, f.stack_size as nat);
        match f.function_type {
            FunctionType::Native(n) => {
                let (r, ctx) = n.0.spec_invoke(frame, s1.context);
                (Store { context: ctx, ..s1 }, r)
            },
            FunctionType::CapturingDef => (s1, Err(FreightError::InvalidInvocationTarget)),
            FunctionType::Static => if f.location < fs.len() {
                let (s2, _, r) = run_body(fs, s1, fs[f.location as int], frame, Seq::empty(), 0, (fuel - 1) as nat);
                (s2, r)
            } else {
                (s1, Err(FreightError::InvalidInvocationTarget))
            },
            FunctionType::CapturingRef(env) => if f.location < fs.len() && env < s1.environments.len() {
                let (s2, _, r) = run_body(fs, s1, fs[f.location as int], frame, s1.environments[env as int], 0, (fuel - 1) as nat);
                (s2, r)
            } else {
                (s1, Err(FreightError::InvalidInvocationTarget))
            },
        }
    }
}

/// Runs the body of `func` from expression `i` on: each expression in turn; a
/// return to the function's own target ends the call with the returned value,
/// any other failure ends it unchanged, and the last expression gives the result.
/// An empty body gives null.
pub open spec fn run_body<TS: TypeSystem>(fs: Seq<Function<TS>>, s: Store<TS>, func: Function<TS>, frame: Seq<Val<TS>>, caps: Seq<usize>, i: nat, fuel: nat) -> (Store<TS>, Seq<Val<TS>>, Result<Val<TS>, FreightError>)
    decreases fuel, 1nat, func.expressions@.len() - i,
{
    let n = func.expressions@.len();
    if n == 0 {
        (s, frame, Ok(Value::Null))
    } else if i >= n {
        (s, frame, Ok(Value::Null))
    } else {
        let (s1, f1, r) = eval(fs, s, func.expressions@[i as int], frame, caps, fuel);
        if i + 1 < n && r is Ok {
            run_body(fs, s1, func, f1, caps, i + 1, fuel)
        } else {
            let (s2, r2) = take_return(s1, r, func.return_target);
            (s2, f1, r2)
        }
    }
}

} // verus!
