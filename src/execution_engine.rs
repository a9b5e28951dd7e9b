use vstd::prelude::*;
use crate::arg_count::ArgCount;
use crate::error::{is_return_to, FreightError};
use crate::expression::{Expression, VariableType};
use crate::function::{Function, FunctionWriter};
use crate::function_ref::{FunctionRef, FunctionType};
use crate::semantics::{
    arity_error, assign_place, cells_hold_contents, call_with, capture_prefix, capture_site, eval, eval_args, frame_prefix, frame_slot,
    into_ref, invoke, load, loads, new_cell, prepend_vals, read_var, rest_args, run_body, take_return,
    write_cell, Store,
};
use crate::slice_pool::{SlicePool, DEFAULT_CACHE_PER};
use crate::value::{duplicate_value, BinaryOperator, Initializer, Native, UnaryOperator, Value};
use crate::{TypeSystem, Val};

verus! {

/// How deep evaluation may nest, counting each level of an expression tree and
/// each call. It is far beyond what the host's stack allows, so in practice the
/// host stack is the only bound; the constant exists so that evaluation provably
/// ends.
pub const MAX_NESTING: usize = usize::MAX / 2;

/// The mutable state of an engine: reference cells, globals, closure
/// environments, the return slot, the host's context and the pool of frames.
///
/// Cells and closure environments are never reclaimed: like the function table
/// they live as long as the engine. Each call whose frame has reference-cell
/// slots adds cells, so memory grows with the number of such calls; frames
/// themselves go back to the pool when the call ends.
pub struct Runtime<TS: TypeSystem> {
    pub cells: Vec<Val<TS>>,
    pub globals: Vec<Val<TS>>,
    pub environments: Vec<Vec<usize>>,
    pub return_value: Val<TS>,
    pub context: TS::GlobalContext,
    pub frames: SlicePool<Val<TS>>,
}

impl<TS: TypeSystem> Runtime<TS> {
    pub open spec fn store(&self) -> Store<TS> {
        Store {
            cells: self.cells@,
            globals: self.globals@,
            environments: self.environments@.map_values(|e: Vec<usize>| e@),
            return_value: self.return_value,
            context: self.context,
        }
    }

    /// The pool is sound and has room for `fuel` more nested frames.
    pub open spec fn room(&self, fuel: nat) -> bool {
        &&& self.frames.wf()
        &&& self.frames.spec_outstanding() + fuel < usize::MAX
        &&& cells_hold_contents::<TS>(self.cells@)
    }
}

/// The engine: the table of functions, the globals and the rest of the runtime.
pub struct ExecutionEngine<TS: TypeSystem> {
    pub num_globals: usize,
    /// The function a front end named as the program's entry point, if any.
    pub entry_point: Option<FunctionRef<TS::Native>>,
    pub functions: Vec<Function<TS>>,
    pub next_return_target: usize,
    pub runtime: Runtime<TS>,
}

fn dup<TS: TypeSystem>(v: &Val<TS>) -> (r: Val<TS>)
    ensures
        r == *v,
{
    duplicate_value::<TS::Datum, TS::GlobalContext, TS::Native>(v)
}

fn load_exec<TS: TypeSystem>(cells: &Vec<Val<TS>>, v: &Val<TS>) -> (r: Val<TS>)
    ensures
        r == load::<TS>(cells@, *v),
{
    match v {
        Value::Reference(c) => if *c < cells.len() {
            dup::<TS>(&cells[*c])
        } else {
            Value::Null
        },
        _ => dup::<TS>(v),
    }
}

fn loads_exec<TS: TypeSystem>(cells: &Vec<Val<TS>>, vs: &Vec<Val<TS>>, from: usize) -> (r: Vec<Val<TS>>)
    requires
        from <= vs@.len(),
    ensures
        r@ == loads::<TS>(cells@, vs@.subrange(from as int, vs@.len() as int)),
{
    let mut out: Vec<Val<TS>> = Vec::new();
    let mut j: usize = from;
    while j < vs.len()
        invariant
            from <= j <= vs@.len(),
            out@ == loads::<TS>(cells@, vs@.subrange(from as int, j as int)),
        decreases vs@.len() - j,
    {
        out.push(load_exec::<TS>(cells, &vs[j]));
        j = j + 1;
        assert(out@ =~= loads::<TS>(cells@, vs@.subrange(from as int, j as int)));
    }
    out
}

/// Once capturing fails, capturing further sites changes nothing.
proof fn lemma_capture_error_stays<TS: TypeSystem>(s: Store<TS>, frame: Seq<Val<TS>>, caps: Seq<usize>, sites: Seq<VariableType>, m: nat, n: nat)
    requires
        m <= n,
        capture_prefix::<TS>(s, frame, caps, sites, m).1 is Err,
    ensures
        capture_prefix::<TS>(s, frame, caps, sites, n) == capture_prefix::<TS>(s, frame, caps, sites, m),
    decreases n - m,
{
    if m < n {
        lemma_capture_error_stays::<TS>(s, frame, caps, sites, m, (n - 1) as nat);
    }
}

impl<TS: TypeSystem> Runtime<TS> {
    fn new_cell_exec(&mut self, v: Val<TS>) -> (r: Val<TS>)
        requires
            cells_hold_contents::<TS>(old(self).cells@),
            !(v is Reference),
        ensures
            (final(self).store(), r) == new_cell::<TS>(old(self).store(), v),
            final(self).frames == old(self).frames,
            cells_hold_contents::<TS>(final(self).cells@),
    {
        let c = self.cells.len();
        self.cells.push(v);
        assert(self.store().cells =~= new_cell::<TS>(old(self).store(), v).0.cells);
        Value::Reference(c)
    }

    fn into_ref_exec(&mut self, v: Val<TS>) -> (r: Val<TS>)
        requires
            cells_hold_contents::<TS>(old(self).cells@),
        ensures
            (final(self).store(), r) == into_ref::<TS>(old(self).store(), v),
            final(self).frames == old(self).frames,
            cells_hold_contents::<TS>(final(self).cells@),
    {
        match v {
            Value::Reference(c) => Value::Reference(c),
            _ => self.new_cell_exec(v),
        }
    }

    fn write_cell_exec(&mut self, c: usize, v: &Val<TS>)
        requires
            cells_hold_contents::<TS>(old(self).cells@),
        ensures
            final(self).store() == write_cell::<TS>(old(self).store(), c, *v),
            final(self).frames == old(self).frames,
            cells_hold_contents::<TS>(final(self).cells@),
    {
        if c < self.cells.len() {
            let x = load_exec::<TS>(&self.cells, v);
            self.cells.set(c, x);
            assert(self.store().cells =~= write_cell::<TS>(old(self).store(), c, *v).cells);
        }
    }

    fn assign_place_exec(&mut self, place: &Val<TS>, v: &Val<TS>) -> (r: Val<TS>)
        requires
            cells_hold_contents::<TS>(old(self).cells@),
        ensures
            (final(self).store(), r) == assign_place::<TS>(old(self).store(), *place, *v),
            final(self).frames == old(self).frames,
            cells_hold_contents::<TS>(final(self).cells@),
    {
        match place {
            Value::Reference(c) => {
                self.write_cell_exec(*c, v);
                Value::Reference(*c)
            },
            _ => load_exec::<TS>(&self.cells, v),
        }
    }

    fn read_var_exec(&self, frame: &Vec<Val<TS>>, caps: &Vec<usize>, var: &VariableType) -> (r: Result<Val<TS>, FreightError>)
        ensures
            r == read_var::<TS>(self.store(), frame@, caps@, *var),
    {
        match var {
            VariableType::Stack(o) => if *o < frame.len() {
                Ok(dup::<TS>(&frame[*o]))
            } else {
                Err(FreightError::InvalidAddress)
            },
            VariableType::Captured(i) => if *i < caps.len() {
                Ok(Value::Reference(caps[*i]))
            } else {
                Err(FreightError::InvalidAddress)
            },
            VariableType::Global(a) => if *a < self.globals.len() {
                Ok(dup::<TS>(&self.globals[*a]))
            } else {
                Err(FreightError::InvalidAddress)
            },
        }
    }

    fn capture_site_exec(&mut self, frame: &Vec<Val<TS>>, caps: &Vec<usize>, var: &VariableType) -> (r: Result<usize, FreightError>)
        requires
            cells_hold_contents::<TS>(old(self).cells@),
        ensures
            (final(self).store(), r) == capture_site::<TS>(old(self).store(), frame@, caps@, *var),
            final(self).frames == old(self).frames,
            cells_hold_contents::<TS>(final(self).cells@),
    {
        match self.read_var_exec(frame, caps, var) {
            Ok(Value::Reference(c)) => Ok(c),
            Ok(v) => {
                let c = self.cells.len();
                let _ = self.new_cell_exec(v);
                Ok(c)
            },
            Err(e) => Err(e),
        }
    }

    fn capture_all(&mut self, frame: &Vec<Val<TS>>, caps: &Vec<usize>, sites: &Vec<VariableType>) -> (r: Result<Vec<usize>, FreightError>)
        requires
            cells_hold_contents::<TS>(old(self).cells@),
        ensures
            ({
                let (s2, r2) = capture_prefix::<TS>(old(self).store(), frame@, caps@, sites@, sites@.len());
                &&& final(self).store() == s2
                &&& match r {
                    Ok(ids) => r2 == Ok::<Seq<usize>, FreightError>(ids@),
                    Err(e) => r2 == Err::<Seq<usize>, FreightError>(e),
                }
            }),
            final(self).frames == old(self).frames,
            cells_hold_contents::<TS>(final(self).cells@),
    {
        let mut ids: Vec<usize> = Vec::new();
        let mut i: usize = 0;
        while i < sites.len()
            invariant
                i <= sites@.len(),
                (self.store(), Ok::<Seq<usize>, FreightError>(ids@)) == capture_prefix::<TS>(old(self).store(), frame@, caps@, sites@, i as nat),
                self.frames == old(self).frames,
                cells_hold_contents::<TS>(self.cells@),
            decreases sites@.len() - i,
        {
            match self.capture_site_exec(frame, caps, &sites[i]) {
                Ok(id) => ids.push(id),
                Err(e) => {
                    proof {
                        lemma_capture_error_stays::<TS>(old(self).store(), frame@, caps@, sites@, (i + 1) as nat, sites@.len());
                    }
                    return Err(e);
                },
            }
            i = i + 1;
        }
        Ok(ids)
    }

    fn frame_slot_exec(&mut self, f: &FunctionRef<TS::Native>, args: &Vec<Val<TS>>, i: usize) -> (r: Val<TS>)
        requires
            cells_hold_contents::<TS>(old(self).cells@),
        ensures
            (final(self).store(), r) == frame_slot::<TS>(old(self).store(), *f, args@, i as int),
            final(self).frames == old(self).frames,
            cells_hold_contents::<TS>(final(self).cells@),
    {
        let m = f.arg_count.max_capped();
        let variadic = match f.arg_count {
            ArgCount::Variadic { .. } => true,
            _ => false,
        };
        if i < m && i < args.len() {
            if f.layout.is_alloc(i) {
                self.into_ref_exec(dup::<TS>(&args[i]))
            } else {
                load_exec::<TS>(&self.cells, &args[i])
            }
        } else if variadic && i == m {
            let rest = if args.len() > m {
                loads_exec::<TS>(&self.cells, args, m)
            } else {
                let empty: Vec<Val<TS>> = Vec::new();
                assert(empty@ =~= loads::<TS>(self.cells@, rest_args::<TS>(*f, args@)));
                empty
            };
            TS::gen_list(rest)
        } else if f.layout.is_alloc(i) {
            self.new_cell_exec(Value::Null)
        } else {
            Value::Null
        }
    }

    /// Fills `frame` with the slots of a call of `f` with `args`.
    fn build_frame(&mut self, f: &FunctionRef<TS::Native>, args: &Vec<Val<TS>>, frame: &mut Vec<Val<TS>>)
        requires
            cells_hold_contents::<TS>(old(self).cells@),
            old(frame)@.len() == f.stack_size,
        ensures
            (final(self).store(), final(frame)@) == frame_prefix::<TS>(old(self).store(), *f, args@, f.stack_size as nat),
            final(self).frames == old(self).frames,
            cells_hold_contents::<TS>(final(self).cells@),
    {
        let mut i: usize = 0;
        while i < f.stack_size
            invariant
                i <= f.stack_size,
                frame@.len() == f.stack_size,
                (self.store(), frame@.subrange(0, i as int)) == frame_prefix::<TS>(old(self).store(), *f, args@, i as nat),
                self.frames == old(self).frames,
                cells_hold_contents::<TS>(self.cells@),
            decreases f.stack_size - i,
        {
            let v = self.frame_slot_exec(f, args, i);
            let ghost prefix = frame@.subrange(0, i as int);
            frame.set(i, v);
            assert(frame@.subrange(0, i + 1) =~= prefix.push(v));
            i = i + 1;
        }
        assert(frame@.subrange(0, f.stack_size as int) =~= frame@);
    }

    fn take_return_exec(&mut self, r: Result<Val<TS>, FreightError>, id: usize) -> (out: Result<Val<TS>, FreightError>)
        requires
            cells_hold_contents::<TS>(old(self).cells@),
        ensures
            (final(self).store(), out) == take_return::<TS>(old(self).store(), r, id),
            final(self).frames == old(self).frames,
            cells_hold_contents::<TS>(final(self).cells@),
    {
        if is_return_to(&r, id) {
            let v = dup::<TS>(&self.return_value);
            self.return_value = Value::Null;
            Ok(v)
        } else {
            r
        }
    }
}

/// Evaluates `e` in `frame` and `caps`, as `eval` states.
fn eval_internal<TS: TypeSystem>(fs: &Vec<Function<TS>>, rt: &mut Runtime<TS>, e: &Expression<TS>, frame: &mut Vec<Val<TS>>, caps: &Vec<usize>, fuel: usize) -> (r: Result<Val<TS>, FreightError>)
    requires
        old(rt).room(fuel as nat),
    ensures
        ({
            let (s2, f2, r2) = eval::<TS>(fs@, old(rt).store(), *e, old(frame)@, caps@, fuel as nat);
            &&& final(rt).store() == s2
            &&& final(frame)@ == f2
            &&& r == r2
        }),
        final(rt).frames.wf(),
        cells_hold_contents::<TS>(final(rt).cells@),
        final(rt).frames.spec_outstanding() == old(rt).frames.spec_outstanding(),
    decreases fuel, 0nat, 0nat,
{
    if fuel == 0 {
        return Err(FreightError::StackOverflow);
    }
    let f = fuel - 1;
    match e {
        Expression::RawValue(v) => Ok(dup::<TS>(v)),
        Expression::Variable(var) => rt.read_var_exec(frame, caps, var),
        Expression::BinaryOpEval(op, l, x) => {
            let a = eval_internal(fs, rt, &**l, frame, caps, f)?;
            let b = eval_internal(fs, rt, &**x, frame, caps, f)?;
            let la = load_exec::<TS>(&rt.cells, &a);
            let lb = load_exec::<TS>(&rt.cells, &b);
            Ok(op.apply_2(&la, &lb))
        },
        Expression::UnaryOpEval(op, x) => {
            let a = eval_internal(fs, rt, &**x, frame, caps, f)?;
            let la = load_exec::<TS>(&rt.cells, &a);
            Ok(op.apply_1(&la))
        },
        Expression::Initialize(init, args) => {
            let vs = eval_args_exec(fs, rt, args, frame, caps, f)?;
            let lv = loads_exec::<TS>(&rt.cells, &vs, 0);
            assert(vs@.subrange(0, vs@.len() as int) =~= vs@);
            Ok(init.initialize(lv, &mut rt.context))
        },
        Expression::StaticFunctionCall(fref, args) => call_with_exec(fs, rt, frame, caps, fref, args, f),
        Expression::DynamicFunctionCall(target, args) => {
            let t = eval_internal(fs, rt, &**target, frame, caps, f)?;
            let lt = load_exec::<TS>(&rt.cells, &t);
            match lt {
                Value::Function(fref) => call_with_exec(fs, rt, frame, caps, &fref, args, f),
                _ => Err(FreightError::InvalidInvocationTarget),
            }
        },
        Expression::NativeFunctionCall(n, args) => {
            let vs = eval_args_exec(fs, rt, args, frame, caps, f)?;
            let lv = loads_exec::<TS>(&rt.cells, &vs, 0);
            assert(vs@.subrange(0, vs@.len() as int) =~= vs@);
            let slice = rt.frames.from_pool(lv);
            let out = n.0.invoke(&slice, &mut rt.context);
            rt.frames.insert(slice);
            out
        },
        Expression::FunctionCapture(fref) => {
            let is_def = match fref.function_type {
                FunctionType::CapturingDef => true,
                _ => false,
            };
            if is_def && fref.location < fs.len() {
                let ids = rt.capture_all(frame, caps, &fs[fref.location].captures)?;
                let env = rt.environments.len();
                rt.environments.push(ids);
                assert(rt.environments@.map_values(|e: Vec<usize>| e@) =~= eval::<TS>(fs@, old(rt).store(), *e, old(frame)@, caps@, fuel as nat).0.environments);
                Ok(Value::Function(FunctionRef {
                    arg_count: fref.arg_count,
                    stack_size: fref.stack_size,
                    location: fref.location,
                    function_type: FunctionType::CapturingRef(env),
                    layout: fref.layout,
                }))
            } else {
                Err(FreightError::InvalidInvocationTarget)
            }
        },
        Expression::AssignStack(o, x) => {
            let v = eval_internal(fs, rt, &**x, frame, caps, f)?;
            if *o < frame.len() {
                let place = dup::<TS>(&frame[*o]);
                let p = rt.assign_place_exec(&place, &v);
                frame.set(*o, p);
                Ok(Value::Null)
            } else {
                Err(FreightError::InvalidAddress)
            }
        },
        Expression::AssignGlobal(a, x) => {
            let v = eval_internal(fs, rt, &**x, frame, caps, f)?;
            if *a < rt.globals.len() {
                let place = dup::<TS>(&rt.globals[*a]);
                let p = rt.assign_place_exec(&place, &v);
                rt.globals.set(*a, p);
                Ok(Value::Null)
            } else {
                Err(FreightError::InvalidAddress)
            }
        },
        Expression::AssignDynamic(l, x) => {
            let t = eval_internal(fs, rt, &**l, frame, caps, f)?;
            let v = eval_internal(fs, rt, &**x, frame, caps, f)?;
            match t {
                Value::Reference(c) => rt.write_cell_exec(c, &v),
                _ => {},
            }
            Ok(Value::Null)
        },
        Expression::ReturnTarget(t, x) => {
            let r = eval_internal(fs, rt, &**x, frame, caps, f);
            rt.take_return_exec(r, *t)
        },
        Expression::Return(t, x) => {
            let v = eval_internal(fs, rt, &**x, frame, caps, f)?;
            rt.return_value = v;
            Err(FreightError::Return { target: *t })
        },
    }
}

/// Evaluates the arguments left to right, as `eval_args` states.
fn eval_args_exec<TS: TypeSystem>(fs: &Vec<Function<TS>>, rt: &mut Runtime<TS>, args: &Vec<Expression<TS>>, frame: &mut Vec<Val<TS>>, caps: &Vec<usize>, fuel: usize) -> (r: Result<Vec<Val<TS>>, FreightError>)
    requires
        old(rt).room(fuel as nat),
    ensures
        ({
            let (s2, f2, r2) = eval_args::<TS>(fs@, old(rt).store(), args@, old(frame)@, caps@, 0, fuel as nat);
            &&& final(rt).store() == s2
            &&& final(frame)@ == f2
            &&& match r {
                Ok(vs) => r2 == Ok::<Seq<Val<TS>>, FreightError>(vs@),
                Err(err) => r2 == Err::<Seq<Val<TS>>, FreightError>(err),
            }
        }),
        final(rt).frames.wf(),
        cells_hold_contents::<TS>(final(rt).cells@),
        final(rt).frames.spec_outstanding() == old(rt).frames.spec_outstanding(),
    decreases fuel, 1nat, 0nat,
{
    let ghost goal = eval_args::<TS>(fs@, old(rt).store(), args@, old(frame)@, caps@, 0, fuel as nat);
    let mut out: Vec<Val<TS>> = Vec::new();
    let mut i: usize = 0;
    proof {
        let g = eval_args::<TS>(fs@, rt.store(), args@, frame@, caps@, 0, fuel as nat);
        match g.2 {
            Ok(vs) => assert(out@ + vs =~= vs),
            Err(_) => {},
        }
    }
    while i < args.len()
        invariant
            i <= args@.len(),
            rt.room(fuel as nat),
            rt.frames.spec_outstanding() == old(rt).frames.spec_outstanding(),
            goal == eval_args::<TS>(fs@, old(rt).store(), args@, old(frame)@, caps@, 0, fuel as nat),
            goal == prepend_vals::<TS>(out@, eval_args::<TS>(fs@, rt.store(), args@, frame@, caps@, i as nat, fuel as nat)),
        decreases args@.len() - i,
    {
        let ghost s0 = rt.store();
        let ghost f0 = frame@;
        let r = eval_internal(fs, rt, &args[i], frame, caps, fuel);
        match r {
            Err(err) => {
                assert(eval_args::<TS>(fs@, s0, args@, f0, caps@, i as nat, fuel as nat) == (rt.store(), frame@, Err::<Seq<Val<TS>>, FreightError>(err)));
                return Err(err);
            },
            Ok(v) => {
                let ghost rest = eval_args::<TS>(fs@, rt.store(), args@, frame@, caps@, (i + 1) as nat, fuel as nat);
                let ghost before = out@;
                out.push(v);
                proof {
                    match rest.2 {
                        Ok(vs) => assert(before + (seq![v] + vs) =~= out@ + vs),
                        Err(_) => {},
                    }
                }
            },
        }
        i = i + 1;
    }
    Ok(out)
}

/// A call of `f` on the values of `args`, as `call_with` states.
fn call_with_exec<TS: TypeSystem>(fs: &Vec<Function<TS>>, rt: &mut Runtime<TS>, frame: &mut Vec<Val<TS>>, caps: &Vec<usize>, f: &FunctionRef<TS::Native>, args: &Vec<Expression<TS>>, fuel: usize) -> (r: Result<Val<TS>, FreightError>)
    requires
        old(rt).room(fuel as nat),
    ensures
        ({
            let (s2, f2, r2) = call_with::<TS>(fs@, old(rt).store(), old(frame)@, caps@, *f, args@, fuel as nat);
            &&& final(rt).store() == s2
            &&& final(frame)@ == f2
            &&& r == r2
        }),
        final(rt).frames.wf(),
        cells_hold_contents::<TS>(final(rt).cells@),
        final(rt).frames.spec_outstanding() == old(rt).frames.spec_outstanding(),
    decreases fuel, 2nat, 0nat,
{
    let k = args.len();
    if !f.arg_count.valid_arg_count(k) {
        return Err(FreightError::IncorrectArgumentCount {
            expected_min: f.arg_count.min(),
            expected_max: f.arg_count.max(),
            actual: k,
        });
    }
    let vs = eval_args_exec(fs, rt, args, frame, caps, fuel)?;
    invoke_exec(fs, rt, f, &vs, fuel)
}

/// A call of `f` with argument values `args`, as `invoke` states.
fn invoke_exec<TS: TypeSystem>(fs: &Vec<Function<TS>>, rt: &mut Runtime<TS>, f: &FunctionRef<TS::Native>, args: &Vec<Val<TS>>, fuel: usize) -> (r: Result<Val<TS>, FreightError>)
    requires
        old(rt).room(fuel as nat),
    ensures
        (final(rt).store(), r) == invoke::<TS>(fs@, old(rt).store(), *f, args@, fuel as nat),
        final(rt).frames.wf(),
        cells_hold_contents::<TS>(final(rt).cells@),
        final(rt).frames.spec_outstanding() == old(rt).frames.spec_outstanding(),
    decreases fuel, 1nat, 0nat,
{
    if fuel == 0 {
        return Err(FreightError::StackOverflow);
    }
    let mut frame = rt.frames.request(f.stack_size);
    rt.build_frame(f, args, &mut frame);
    let r = match &f.function_type {
        FunctionType::Native(n) => n.0.invoke(&frame, &mut rt.context),
        FunctionType::CapturingDef => Err(FreightError::InvalidInvocationTarget),
        FunctionType::Static => if f.location < fs.len() {
            let empty: Vec<usize> = Vec::new();
            run_body_exec(fs, rt, &fs[f.location], &mut frame, &empty, fuel - 1)
        } else {
            Err(FreightError::InvalidInvocationTarget)
        },
        FunctionType::CapturingRef(env) => if f.location < fs.len() && *env < rt.environments.len() {
            let caps = copy_ids(&rt.environments[*env]);
            run_body_exec(fs, rt, &fs[f.location], &mut frame, &caps, fuel - 1)
        } else {
            Err(FreightError::InvalidInvocationTarget)
        },
    };
    rt.frames.insert(frame);
    r
}

fn copy_ids(ids: &Vec<usize>) -> (r: Vec<usize>)
    ensures
        r@ == ids@,
{
    let mut out: Vec<usize> = Vec::new();
    let mut i: usize = 0;
    while i < ids.len()
        invariant
            i <= ids@.len(),
            out@ == ids@.subrange(0, i as int),
        decreases ids@.len() - i,
    {
        out.push(ids[i]);
        i = i + 1;
        assert(out@ =~= ids@.subrange(0, i as int));
    }
    assert(ids@.subrange(0, ids@.len() as int) =~= ids@);
    out
}

/// Runs a function body, as `run_body` states.
fn run_body_exec<TS: TypeSystem>(fs: &Vec<Function<TS>>, rt: &mut Runtime<TS>, func: &Function<TS>, frame: &mut Vec<Val<TS>>, caps: &Vec<usize>, fuel: usize) -> (r: Result<Val<TS>, FreightError>)
    requires
        old(rt).room(fuel as nat),
    ensures
        ({
            let (s2, f2, r2) = run_body::<TS>(fs@, old(rt).store(), *func, old(frame)@, caps@, 0, fuel as nat);
            &&& final(rt).store() == s2
            &&& final(frame)@ == f2
            &&& r == r2
        }),
        final(rt).frames.wf(),
        cells_hold_contents::<TS>(final(rt).cells@),
        final(rt).frames.spec_outstanding() == old(rt).frames.spec_outstanding(),
    decreases fuel, 1nat, 0nat,
{
    let n = func.expressions.len();
    if n == 0 {
        return Ok(Value::Null);
    }
    let ghost goal = run_body::<TS>(fs@, old(rt).store(), *func, old(frame)@, caps@, 0, fuel as nat);
    let mut i: usize = 0;
    loop
        invariant
            i < n,
            n == func.expressions@.len(),
            n > 0,
            rt.room(fuel as nat),
            rt.frames.spec_outstanding() == old(rt).frames.spec_outstanding(),
            goal == run_body::<TS>(fs@, old(rt).store(), *func, old(frame)@, caps@, 0, fuel as nat),
            goal == run_body::<TS>(fs@, rt.store(), *func, frame@, caps@, i as nat, fuel as nat),
        decreases n - i,
    {
        let ghost s0 = rt.store();
        let ghost f0 = frame@;
        let r = eval_internal(fs, rt, &func.expressions[i], frame, caps, fuel);
        if i + 1 < n && r.is_ok() {
            i = i + 1;
        } else {
            let ghost f1 = frame@;
            let out = rt.take_return_exec(r, func.return_target);
            assert(run_body::<TS>(fs@, s0, *func, f0, caps@, i as nat, fuel as nat) == (rt.store(), f1, out));
            return out;
        }
    }
}

} // verus!

verus! {

impl<TS: TypeSystem> ExecutionEngine<TS> {
    /// The engine's state as evaluation sees it.
    pub open spec fn store(&self) -> Store<TS> {
        self.runtime.store()
    }

    pub open spec fn wf(&self) -> bool {
        &&& self.runtime.frames.wf()
        &&& self.runtime.frames.spec_outstanding() == 0
        &&& cells_hold_contents::<TS>(self.runtime.cells@)
    }

    /// An engine with no functions, no globals and no cells.
    pub fn new(context: TS::GlobalContext) -> (r: Self)
        ensures
            r.wf(),
            r.num_globals == 0,
            r.entry_point is None,
            r.functions@.len() == 0,
            r.next_return_target == 0,
            r.store().cells.len() == 0,
            r.store().globals.len() == 0,
            r.store().environments.len() == 0,
            r.store().return_value is Null,
            r.store().context == context,
    {
        let r = ExecutionEngine {
            num_globals: 0,
            entry_point: None,
            functions: Vec::new(),
            next_return_target: 0,
            runtime: Runtime {
                cells: Vec::new(),
                globals: Vec::new(),
                environments: Vec::new(),
                return_value: Value::Null,
                context,
                frames: SlicePool::with_max_cache_per(DEFAULT_CACHE_PER),
            },
        };
        assert(r.store().environments =~= Seq::<Seq<usize>>::empty());
        r
    }

    /// An engine whose context is the context type's default.
    pub fn new_default() -> (r: Self)
        where
            TS::GlobalContext: Default,
        ensures
            r.wf(),
            r.num_globals == 0,
            r.functions@.len() == 0,
            r.next_return_target == 0,
            r.store().cells.len() == 0,
            r.store().globals.len() == 0,
            r.store().environments.len() == 0,
            r.store().return_value is Null,
            call_ensures(TS::GlobalContext::default, (), r.store().context),
    {
        let context = TS::GlobalContext::default();
        Self::new(context)
    }

    /// The function body at table index `id`, if there is one.
    pub fn get_function(&self, id: usize) -> (r: Option<&Function<TS>>)
        ensures
            id < self.functions@.len() ==> r == Some(&self.functions@[id as int]),
            id >= self.functions@.len() ==> r is None,
    {
        if id < self.functions.len() {
            Some(&self.functions[id])
        } else {
            None
        }
    }

    /// Catches a return aimed at `id`: it becomes the value in the return slot,
    /// which is emptied; any other outcome passes unchanged.
    pub fn or_return(&mut self, r: Result<Val<TS>, FreightError>, id: usize) -> (out: Result<Val<TS>, FreightError>)
        requires
            old(self).wf(),
        ensures
            final(self).wf(),
            (final(self).store(), out) == take_return::<TS>(old(self).store(), r, id),
            final(self).functions == old(self).functions,
            final(self).num_globals == old(self).num_globals,
            final(self).next_return_target == old(self).next_return_target,
    {
        self.runtime.take_return_exec(r, id)
    }

    /// A fresh return target, never handed out before by this engine.
    pub fn create_return_target(&mut self) -> (r: usize)
        requires
            old(self).next_return_target < usize::MAX,
        ensures
            r == old(self).next_return_target,
            final(self).next_return_target == old(self).next_return_target + 1,
            final(self).functions == old(self).functions,
            final(self).runtime == old(self).runtime,
            final(self).num_globals == old(self).num_globals,
    {
        self.next_return_target = self.next_return_target + 1;
        self.next_return_target - 1
    }

    /// A new global, an uninitialized reference cell; returns its address, which
    /// is the number of globals before the call.
    pub fn create_global(&mut self) -> (r: usize)
        requires
            old(self).wf(),
            old(self).num_globals < usize::MAX,
        ensures
            final(self).wf(),
            r == old(self).store().globals.len(),
            final(self).num_globals == old(self).num_globals + 1,
            final(self).store() == (Store {
                cells: old(self).store().cells.push(Value::Null),
                globals: old(self).store().globals.push(Value::Reference(old(self).store().cells.len() as usize)),
                ..old(self).store()
            }),
            final(self).functions == old(self).functions,
            final(self).next_return_target == old(self).next_return_target,
    {
        let cell = self.runtime.new_cell_exec(Value::Null);
        let addr = self.runtime.globals.len();
        self.runtime.globals.push(cell);
        self.num_globals = self.num_globals + 1;
        assert(self.store().globals =~= old(self).store().globals.push(Value::Reference(old(self).store().cells.len() as usize)));
        addr
    }

    /// Gives every global a new uninitialized reference cell.
    pub fn reset_globals(&mut self)
        requires
            old(self).wf(),
        ensures
            final(self).wf(),
            final(self).num_globals == old(self).num_globals,
            final(self).entry_point == old(self).entry_point,
            final(self).store().globals.len() == old(self).num_globals,
            final(self).store().environments == old(self).store().environments,
            final(self).store().return_value == old(self).store().return_value,
            final(self).store().context == old(self).store().context,
            final(self).store().cells.len() == old(self).store().cells.len() + old(self).num_globals,
            final(self).store().cells.subrange(0, old(self).store().cells.len() as int) == old(self).store().cells,
            forall|a: int| 0 <= a < old(self).num_globals ==> {
                &&& #[trigger] final(self).store().globals[a] == Value::<TS::Datum, TS::Native>::Reference((old(self).store().cells.len() + a) as usize)
                &&& final(self).store().cells[old(self).store().cells.len() + a] is Null
            },
            final(self).functions == old(self).functions,
            final(self).next_return_target == old(self).next_return_target,
    {
        let n = self.num_globals;
        let ghost base = self.runtime.cells@.len();
        let ghost old_cells = self.runtime.cells@;
        let mut globals: Vec<Val<TS>> = Vec::new();
        let mut i: usize = 0;
        while i < n
            invariant
                i <= n,
                n == old(self).num_globals,
                globals@.len() == i,
                self.runtime.cells@.len() == base + i,
                self.runtime.cells@.subrange(0, base as int) == old_cells,
                base == old_cells.len(),
                forall|a: int| 0 <= a < i ==> {
                    &&& #[trigger] globals@[a] == Value::<TS::Datum, TS::Native>::Reference((base + a) as usize)
                    &&& self.runtime.cells@[base + a] is Null
                },
                self.runtime.frames == old(self).runtime.frames,
                cells_hold_contents::<TS>(self.runtime.cells@),
                self.store().environments == old(self).store().environments,
                self.store().return_value == old(self).store().return_value,
                self.store().context == old(self).store().context,
                self.num_globals == old(self).num_globals,
                self.entry_point == old(self).entry_point,
                self.functions == old(self).functions,
                self.next_return_target == old(self).next_return_target,
            decreases n - i,
        {
            let ghost before = self.runtime.cells@;
            let cell = self.runtime.new_cell_exec(Value::Null);
            globals.push(cell);
            assert(self.runtime.cells@.subrange(0, base as int) =~= before.subrange(0, base as int));
            i = i + 1;
        }
        self.runtime.globals = globals;
    }

    /// Appends the body that `func` builds to the function table, returning to
    /// `return_target`; the reference names the new entry.
    pub fn register_function(&mut self, func: FunctionWriter<TS>, return_target: usize) -> (r: FunctionRef<TS::Native>)
        requires
            func.wf(),
        ensures
            r.location == old(self).functions@.len(),
            r.arg_count == func.args,
            r.stack_size == func.spec_stack_size(),
            r.function_type == func.function_type,
            r.layout == func.layout,
            final(self).functions@.len() == old(self).functions@.len() + 1,
            final(self).functions@.subrange(0, old(self).functions@.len() as int) == old(self).functions@,
            final(self).functions@.last().expressions@ == func.expressions@,
            final(self).functions@.last().return_target == return_target,
            final(self).functions@.last().arg_count == func.args,
            final(self).functions@.last().variable_count == func.variable_count,
            final(self).functions@.last().captures@ == func.captures@,
            final(self).runtime == old(self).runtime,
            final(self).num_globals == old(self).num_globals,
            final(self).next_return_target == old(self).next_return_target,
    {
        let r = func.to_ref(self.functions.len());
        let body = func.build(return_target);
        self.functions.push(body);
        assert(self.functions@.subrange(0, old(self).functions@.len() as int) =~= old(self).functions@);
        r
    }

    /// Calls `func` with `args`. A count of arguments that the arity refuses fails
    /// with `IncorrectArgumentCount` and leaves the engine as it was; otherwise the
    /// call runs as `invoke` states, with the engine's nesting limit.
    pub fn call(&mut self, func: &FunctionRef<TS::Native>, args: Vec<Val<TS>>) -> (r: Result<Val<TS>, FreightError>)
        requires
            old(self).wf(),
        ensures
            final(self).wf(),
            !func.arg_count.spec_valid_arg_count(args@.len() as usize) ==> {
                &&& r == Err::<Val<TS>, FreightError>(arity_error(*func, args@.len() as usize))
                &&& final(self).store() == old(self).store()
            },
            func.arg_count.spec_valid_arg_count(args@.len() as usize) ==> (final(self).store(), r) == invoke::<TS>(old(self).functions@, old(self).store(), *func, args@, MAX_NESTING as nat),
            final(self).functions == old(self).functions,
            final(self).num_globals == old(self).num_globals,
            final(self).next_return_target == old(self).next_return_target,
    {
        let k = args.len();
        if !func.arg_count.valid_arg_count(k) {
            return Err(FreightError::IncorrectArgumentCount {
                expected_min: func.arg_count.min(),
                expected_max: func.arg_count.max(),
                actual: k,
            });
        }
        invoke_exec(&self.functions, &mut self.runtime, func, &args, MAX_NESTING)
    }

    /// Evaluates `expr` at the top level, with an empty frame and no captures.
    pub fn evaluate(&mut self, expr: &Expression<TS>) -> (r: Result<Val<TS>, FreightError>)
        requires
            old(self).wf(),
        ensures
            final(self).wf(),
            ({
                let (s2, _, r2) = eval::<TS>(old(self).functions@, old(self).store(), *expr, Seq::empty(), Seq::empty(), MAX_NESTING as nat);
                final(self).store() == s2 && r == r2
            }),
            final(self).functions == old(self).functions,
            final(self).num_globals == old(self).num_globals,
            final(self).next_return_target == old(self).next_return_target,
    {
        let mut frame: Vec<Val<TS>> = Vec::new();
        let caps: Vec<usize> = Vec::new();
        eval_internal(&self.functions, &mut self.runtime, expr, &mut frame, &caps, MAX_NESTING)
    }

    /// The content of `v`: what its cell holds when it is a reference.
    pub fn load(&self, v: &Val<TS>) -> (r: Val<TS>)
        ensures
            r == load::<TS>(self.store().cells, *v),
    {
        load_exec::<TS>(&self.runtime.cells, v)
    }

    /// `v` as a reference cell: a reference stays the same, any other value moves
    /// into a new cell.
    pub fn into_ref(&mut self, v: Val<TS>) -> (r: Val<TS>)
        requires
            old(self).wf(),
        ensures
            final(self).wf(),
            (final(self).store(), r) == into_ref::<TS>(old(self).store(), v),
            final(self).functions == old(self).functions,
            final(self).next_return_target == old(self).next_return_target,
    {
        self.runtime.into_ref_exec(v)
    }

    /// Assigns `v` through `target`: when `target` is a reference, its cell takes
    /// the content of `v`; any other target is a temporary and nothing changes.
    pub fn assign(&mut self, target: &Val<TS>, v: &Val<TS>)
        requires
            old(self).wf(),
        ensures
            final(self).wf(),
            final(self).store() == (match *target {
                Value::Reference(c) => write_cell::<TS>(old(self).store(), c, *v),
                _ => old(self).store(),
            }),
            final(self).functions == old(self).functions,
            final(self).num_globals == old(self).num_globals,
            final(self).next_return_target == old(self).next_return_target,
    {
        match target {
            Value::Reference(c) => self.runtime.write_cell_exec(*c, v),
            _ => {},
        }
    }

    /// The function that the content of `v` is, if it is one.
    pub fn cast_to_function(&self, v: &Val<TS>) -> (r: Option<FunctionRef<TS::Native>>)
        ensures
            r == (match load::<TS>(self.store().cells, *v) {
                Value::Function(f) => Some(f),
                _ => None,
            }),
    {
        match load_exec::<TS>(&self.runtime.cells, v) {
            Value::Function(f) => Some(f),
            _ => None,
        }
    }

    /// The number of pooled frames handed out and not yet handed back.
    pub fn outstanding_slices(&self) -> (r: usize)
        ensures
            r == self.runtime.frames.spec_outstanding(),
    {
        self.runtime.frames.outstanding()
    }

    /// The host's global context.
    pub fn context(&self) -> (r: &TS::GlobalContext)
        ensures
            *r == self.store().context,
    {
        &self.runtime.context
    }
}

} // verus!
