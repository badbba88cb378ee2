//! The simulator: runs a function of a program statement by statement over a
//! remove-on-read variable environment, following the branch that each
//! libfunc selects.
use vstd::prelude::*;
use std::collections::HashMap;
use crate::extensions::{input_kinds, CoreLibFunc, IntOperator, TypeInfo, ValueKind};
use crate::program::{BranchTarget, Function, FunctionId, Program, Statement};
use crate::registry::{registry_of, target_address, ProgramRegistry, RegistryError};

verus! {

broadcast use vstd::std_specs::hash::group_hash_axioms;

/// A run-time value, tagged with the kind of its type.
#[derive(Clone, Copy, PartialEq, Eq, Structural, Debug)]
pub enum Value {
    Int(i64),
    Gas(i64),
    NonZeroInt(i64),
}

/// Why a run failed.
#[derive(Clone, Copy, PartialEq, Eq, Structural, Debug)]
pub enum SimulationError {
    /// The program's registry could not be built.
    Registry(RegistryError),
    /// No function has the requested name.
    MissingFunction,
    /// The number of argument groups differs from the function's parameters.
    WrongNumberOfArgs,
    /// Execution reached an address with no statement.
    UnknownStatement(usize),
    /// A statement invokes an undeclared libfunc.
    MissingLibFunc(u64),
    /// A statement reads a variable that is not bound.
    MissingVariable(u64),
    /// A value does not have the type it is used at.
    TypeMismatch,
    /// Division or remainder by zero, or a result out of range.
    ArithmeticError,
    /// The values handed to a branch or a return do not match its arity.
    OutputArityMismatch,
    /// The run did not finish within the allowed number of steps.
    StepLimitExceeded,
}

pub open spec fn kind_of(v: Value) -> ValueKind {
    match v {
        Value::Int(_) => ValueKind::Int,
        Value::Gas(_) => ValueKind::Gas,
        Value::NonZeroInt(_) => ValueKind::NonZeroInt,
    }
}

/// The integer a value carries, whatever its kind.
pub open spec fn payload(v: Value) -> i64 {
    match v {
        Value::Int(x) => x,
        Value::Gas(x) => x,
        Value::NonZeroInt(x) => x,
    }
}

pub open spec fn abs(x: int) -> int {
    if x < 0 {
        -x
    } else {
        x
    }
}

/// Division rounding toward zero.
pub open spec fn trunc_div(x: int, d: int) -> int {
    if (x < 0) == (d < 0) {
        abs(x) / abs(d)
    } else {
        -(abs(x) / abs(d))
    }
}

/// The remainder of division rounding toward zero; it has the sign of `x`.
pub open spec fn trunc_rem(x: int, d: int) -> int {
    if x < 0 {
        -(abs(x) % abs(d))
    } else {
        abs(x) % abs(d)
    }
}

pub open spec fn in_i64(x: int) -> bool {
    i64::MIN <= x <= i64::MAX
}

/// An integer operation with a constant right operand; division and
/// remainder by zero, and results out of range, are errors.
pub open spec fn int_op_spec(op: IntOperator, x: i64, c: i64) -> Result<i64, SimulationError> {
    let r: int = match op {
        IntOperator::Add => x + c,
        IntOperator::Sub => x - c,
        IntOperator::Mul => x * c,
        IntOperator::Div => trunc_div(x as int, c as int),
        IntOperator::Mod => trunc_rem(x as int, c as int),
    };
    if (op == IntOperator::Div || op == IntOperator::Mod) && c == 0 {
        Err(SimulationError::ArithmeticError)
    } else if op == IntOperator::Mod && x == i64::MIN && c == -1 {
        Err(SimulationError::ArithmeticError)
    } else if !in_i64(r) {
        Err(SimulationError::ArithmeticError)
    } else {
        Ok(r as i64)
    }
}

/// Whether the values have the kinds, one for one.
pub open spec fn kinds_match(vals: Seq<Value>, kinds: Seq<ValueKind>) -> bool {
    vals.len() == kinds.len() && forall|i: int| 0 <= i < vals.len() ==> #[trigger] kind_of(vals[i])
        == kinds[i]
}

/// What a libfunc does to its inputs: the branch it takes and that branch's
/// outputs.
pub open spec fn eval_spec(c: CoreLibFunc, ins: Seq<Value>) -> Result<
    (usize, Seq<Value>),
    SimulationError,
> {
    if !kinds_match(ins, input_kinds(c)) {
        Err(SimulationError::TypeMismatch)
    } else {
        match c {
            CoreLibFunc::StoreTemp(_) => Ok((0, ins)),
            CoreLibFunc::AlignTemps(_) | CoreLibFunc::IntIgnore | CoreLibFunc::Jump => Ok(
                (0, seq![]),
            ),
            CoreLibFunc::IntConst(v) => Ok((0, seq![Value::Int(v)])),
            CoreLibFunc::IntOp(op, v) => match int_op_spec(op, payload(ins[0]), v) {
                Err(e) => Err(e),
                Ok(r) => Ok((0, seq![Value::Int(r)])),
            },
            CoreLibFunc::IntDup => Ok((0, seq![ins[0], ins[0]])),
            CoreLibFunc::IntJumpNz => if payload(ins[0]) != 0 {
                Ok((0, seq![Value::NonZeroInt(payload(ins[0]))]))
            } else {
                Ok((1, seq![]))
            },
            CoreLibFunc::UnwrapNz => Ok((0, seq![Value::Int(payload(ins[0]))])),
            CoreLibFunc::GetGas(n) => if payload(ins[0]) >= n {
                if in_i64(payload(ins[0]) - n) {
                    Ok((0, seq![Value::Gas((payload(ins[0]) - n) as i64)]))
                } else {
                    Err(SimulationError::ArithmeticError)
                }
            } else {
                Ok((1, seq![ins[0]]))
            },
            CoreLibFunc::RefundGas(n) => if in_i64(payload(ins[0]) + n) {
                Ok((0, seq![Value::Gas((payload(ins[0]) + n) as i64)]))
            } else {
                Err(SimulationError::ArithmeticError)
            },
        }
    }
}

fn int_op(op: IntOperator, x: i64, c: i64) -> (r: Result<i64, SimulationError>)
    ensures
        r == int_op_spec(op, x, c),
{
    let r = match op {
        IntOperator::Add => x.checked_add(c),
        IntOperator::Sub => x.checked_sub(c),
        IntOperator::Mul => x.checked_mul(c),
        IntOperator::Div => x.checked_div(c),
        IntOperator::Mod => x.checked_rem(c),
    };
    match r {
        Some(v) => Ok(v),
        None => Err(SimulationError::ArithmeticError),
    }
}

fn kind_of_value(v: &Value) -> (r: ValueKind)
    ensures
        r == kind_of(*v),
{
    match v {
        Value::Int(_) => ValueKind::Int,
        Value::Gas(_) => ValueKind::Gas,
        Value::NonZeroInt(_) => ValueKind::NonZeroInt,
    }
}

fn payload_of(v: &Value) -> (r: i64)
    ensures
        r == payload(*v),
{
    match v {
        Value::Int(x) => *x,
        Value::Gas(x) => *x,
        Value::NonZeroInt(x) => *x,
    }
}

fn input_kind_list(c: CoreLibFunc) -> (r: Vec<ValueKind>)
    ensures
        r@ == input_kinds(c),
{
    match c {
        CoreLibFunc::StoreTemp(k) => vec![k],
        CoreLibFunc::IntOp(_, _) | CoreLibFunc::IntDup | CoreLibFunc::IntIgnore
        | CoreLibFunc::IntJumpNz => vec![ValueKind::Int],
        CoreLibFunc::UnwrapNz => vec![ValueKind::NonZeroInt],
        CoreLibFunc::GetGas(_) | CoreLibFunc::RefundGas(_) => vec![ValueKind::Gas],
        _ => vec![],
    }
}

fn check_kinds(vals: &Vec<Value>, kinds: &Vec<ValueKind>) -> (r: bool)
    ensures
        r == kinds_match(vals@, kinds@),
{
    if vals.len() != kinds.len() {
        return false;
    }
    let mut i: usize = 0;
    while i < vals.len()
        invariant
            vals@.len() == kinds@.len(),
            i <= vals@.len(),
            forall|j: int| 0 <= j < i ==> #[trigger] kind_of(vals@[j]) == kinds@[j],
        decreases vals@.len() - i,
    {
        if kind_of_value(&vals[i]) != kinds[i] {
            return false;
        }
        i = i + 1;
    }
    true
}

/// Evaluates a libfunc on its inputs.
pub fn eval(c: CoreLibFunc, ins: Vec<Value>) -> (r: Result<(usize, Vec<Value>), SimulationError>)
    ensures
        match r {
            Ok((b, outs)) => eval_spec(c, ins@) is Ok && eval_spec(c, ins@)->Ok_0.0 == b
                && eval_spec(c, ins@)->Ok_0.1 =~= outs@,
            Err(e) => eval_spec(c, ins@) == Err::<(usize, Seq<Value>), _>(e),
        },
{
    if !check_kinds(&ins, &input_kind_list(c)) {
        return Err(SimulationError::TypeMismatch);
    }
    match c {
        CoreLibFunc::StoreTemp(_) => Ok((0, ins)),
        CoreLibFunc::AlignTemps(_) | CoreLibFunc::IntIgnore | CoreLibFunc::Jump => Ok((0, vec![])),
        CoreLibFunc::IntConst(v) => Ok((0, vec![Value::Int(v)])),
        CoreLibFunc::IntOp(op, v) => match int_op(op, payload_of(&ins[0]), v) {
            Err(e) => Err(e),
            Ok(r) => Ok((0, vec![Value::Int(r)])),
        },
        CoreLibFunc::IntDup => Ok((0, vec![ins[0], ins[0]])),
        CoreLibFunc::IntJumpNz => {
            let x = payload_of(&ins[0]);
            if x != 0 {
                Ok((0, vec![Value::NonZeroInt(x)]))
            } else {
                Ok((1, vec![]))
            }
        },
        CoreLibFunc::UnwrapNz => Ok((0, vec![Value::Int(payload_of(&ins[0]))])),
        CoreLibFunc::GetGas(n) => {
            let g = payload_of(&ins[0]);
            if g >= n {
                match g.checked_sub(n) {
                    Some(rest) => Ok((0, vec![Value::Gas(rest)])),
                    None => Err(SimulationError::ArithmeticError),
                }
            } else {
                Ok((1, vec![ins[0]]))
            }
        },
        CoreLibFunc::RefundGas(n) => {
            let g = payload_of(&ins[0]);
            match g.checked_add(n) {
                Some(s) => Ok((0, vec![Value::Gas(s)])),
                None => Err(SimulationError::ArithmeticError),
            }
        },
    }
}

} // verus!
verus! {

/// Reads the first `n` variables in order, removing each from the
/// environment as it is read.
pub open spec fn fetch_upto(env: Map<u64, Value>, vars: Seq<u64>, n: nat) -> Result<
    (Seq<Value>, Map<u64, Value>),
    SimulationError,
>
    decreases n,
{
    if n == 0 || n > vars.len() {
        Ok((seq![], env))
    } else {
        match fetch_upto(env, vars, (n - 1) as nat) {
            Err(e) => Err(e),
            Ok((vals, rest)) => {
                let v = vars[n - 1];
                if !rest.contains_key(v) {
                    Err(SimulationError::MissingVariable(v))
                } else {
                    Ok((vals.push(rest[v]), rest.remove(v)))
                }
            },
        }
    }
}

/// Reads all the variables in order, consuming them: the values read and
/// what is left of the environment.
pub open spec fn fetch(env: Map<u64, Value>, vars: Seq<u64>) -> Result<
    (Seq<Value>, Map<u64, Value>),
    SimulationError,
> {
    fetch_upto(env, vars, vars.len())
}

/// Binds the first `n` names to the values, in order.
pub open spec fn bind_upto(env: Map<u64, Value>, names: Seq<u64>, vals: Seq<Value>, n: nat) -> Map<
    u64,
    Value,
>
    decreases n,
{
    if n == 0 || n > names.len() || n > vals.len() {
        env
    } else {
        bind_upto(env, names, vals, (n - 1) as nat).insert(names[n - 1], vals[n - 1])
    }
}

/// Binds the names to the values, in order.
pub open spec fn bind(env: Map<u64, Value>, names: Seq<u64>, vals: Seq<Value>) -> Map<u64, Value> {
    bind_upto(env, names, vals, names.len())
}

/// The result of one step of a run.
pub ghost enum Step {
    /// Continue at the address with the environment.
    Next(int, Map<u64, Value>),
    /// The function returned these values.
    Done(Seq<Value>),
}

/// One step: the statement at `pc` reads its inputs, its libfunc picks a
/// branch, the branch's outputs are bound and execution moves to its target.
pub open spec fn step_spec(
    stmts: Seq<Statement>,
    libfuncs: Map<u64, CoreLibFunc>,
    pc: int,
    env: Map<u64, Value>,
) -> Result<Step, SimulationError> {
    if pc < 0 || pc >= stmts.len() {
        Err(SimulationError::UnknownStatement(pc as usize))
    } else {
        match stmts[pc] {
            Statement::Return(vars) => match fetch(env, vars@) {
                Err(e) => Err(e),
                Ok((vals, _)) => Ok(Step::Done(vals)),
            },
            Statement::Invocation(inv) => if !libfuncs.contains_key(inv.libfunc_id) {
                Err(SimulationError::MissingLibFunc(inv.libfunc_id))
            } else {
                match fetch(env, inv.args@) {
                    Err(e) => Err(e),
                    Ok((ins, rest)) => match eval_spec(libfuncs[inv.libfunc_id], ins) {
                        Err(e) => Err(e),
                        Ok((b, outs)) => if b >= inv.branches@.len() || outs.len()
                            != inv.branches@[b as int].results@.len() {
                            Err(SimulationError::OutputArityMismatch)
                        } else {
                            Ok(
                                Step::Next(
                                    target_address(inv.branches@[b as int].target, pc),
                                    bind(rest, inv.branches@[b as int].results@, outs),
                                ),
                            )
                        },
                    },
                }
            },
        }
    }
}

/// Runs from `pc` for at most `fuel` steps: the values returned.
pub open spec fn run_from(
    stmts: Seq<Statement>,
    libfuncs: Map<u64, CoreLibFunc>,
    pc: int,
    env: Map<u64, Value>,
    fuel: nat,
) -> Result<Seq<Value>, SimulationError>
    decreases fuel,
{
    if fuel == 0 {
        Err(SimulationError::StepLimitExceeded)
    } else {
        match step_spec(stmts, libfuncs, pc, env) {
            Err(e) => Err(e),
            Ok(Step::Done(vals)) => Ok(vals),
            Ok(Step::Next(next, env2)) => run_from(stmts, libfuncs, next, env2, (fuel - 1) as nat),
        }
    }
}

proof fn lemma_fetch_error_persists(env: Map<u64, Value>, vars: Seq<u64>, n: nat, m: nat)
    requires
        n <= m <= vars.len(),
        fetch_upto(env, vars, n) is Err,
    ensures
        fetch_upto(env, vars, m) == fetch_upto(env, vars, n),
    decreases m - n,
{
    if n < m {
        lemma_fetch_error_persists(env, vars, n, (m - 1) as nat);
    }
}

/// Reads the variables in order, removing each from the environment.
pub fn fetch_vars(env: &mut HashMap<u64, Value>, vars: &Vec<u64>) -> (r: Result<
    Vec<Value>,
    SimulationError,
>)
    ensures
        match r {
            Ok(vals) => fetch(old(env)@, vars@) == Ok::<_, SimulationError>((vals@, final(env)@)),
            Err(e) => fetch(old(env)@, vars@) == Err::<(Seq<Value>, Map<u64, Value>), _>(e),
        },
{
    let ghost env0 = env@;
    let mut vals: Vec<Value> = Vec::new();
    let mut i: usize = 0;
    while i < vars.len()
        invariant
            env0 == old(env)@,
            i <= vars@.len(),
            fetch_upto(env0, vars@, i as nat) == Ok::<_, SimulationError>((vals@, env@)),
        decreases vars@.len() - i,
    {
        let v = vars[i];
        let ghost before = env@;
        match env.remove(&v) {
            Some(x) => {
                vals.push(x);
            },
            None => {
                proof {
                    assert(!before.contains_key(v));
                    assert(fetch_upto(env0, vars@, (i + 1) as nat) == Err::<
                        (Seq<Value>, Map<u64, Value>),
                        SimulationError,
                    >(SimulationError::MissingVariable(v)));
                    lemma_fetch_error_persists(env0, vars@, (i + 1) as nat, vars@.len());
                }
                return Err(SimulationError::MissingVariable(v));
            },
        }
        i = i + 1;
    }
    Ok(vals)
}

/// Binds the names to the values, in order.
pub fn bind_vars(env: &mut HashMap<u64, Value>, names: &Vec<u64>, vals: &Vec<Value>)
    requires
        names@.len() == vals@.len(),
    ensures
        final(env)@ == bind(old(env)@, names@, vals@),
{
    let ghost env0 = env@;
    let mut i: usize = 0;
    while i < names.len()
        invariant
            names@.len() == vals@.len(),
            i <= names@.len(),
            env@ == bind_upto(env0, names@, vals@, i as nat),
        decreases names@.len() - i,
    {
        env.insert(names[i], vals[i]);
        i = i + 1;
    }
}

/// What an executed step leads to.
pub enum StepResult {
    Next(usize),
    Done(Vec<Value>),
}

/// Executes the statement at `pc`.
pub fn step(
    stmts: &Vec<Statement>,
    libfuncs: &HashMap<u64, CoreLibFunc>,
    pc: usize,
    env: &mut HashMap<u64, Value>,
) -> (r: Result<StepResult, SimulationError>)
    ensures
        match r {
            Ok(StepResult::Next(a)) => step_spec(stmts@, libfuncs@, pc as int, old(env)@) == Ok::<
                _,
                SimulationError,
            >(Step::Next(a as int, final(env)@)),
            Ok(StepResult::Done(vals)) => step_spec(stmts@, libfuncs@, pc as int, old(env)@)
                == Ok::<_, SimulationError>(Step::Done(vals@)),
            Err(e) => step_spec(stmts@, libfuncs@, pc as int, old(env)@) == Err::<Step, _>(e),
        },
{
    if pc >= stmts.len() {
        return Err(SimulationError::UnknownStatement(pc));
    }
    match &stmts[pc] {
        Statement::Return(vars) => match fetch_vars(env, vars) {
            Err(e) => Err(e),
            Ok(vals) => Ok(StepResult::Done(vals)),
        },
        Statement::Invocation(inv) => {
            let c = match libfuncs.get(&inv.libfunc_id) {
                Some(c) => *c,
                None => {
                    return Err(SimulationError::MissingLibFunc(inv.libfunc_id));
                },
            };
            let ins = match fetch_vars(env, &inv.args) {
                Ok(ins) => ins,
                Err(e) => {
                    return Err(e);
                },
            };
            let (b, outs) = match eval(c, ins) {
                Ok(res) => res,
                Err(e) => {
                    return Err(e);
                },
            };
            if b >= inv.branches.len() || outs.len() != inv.branches[b].results.len() {
                return Err(SimulationError::OutputArityMismatch);
            }
            let branch = &inv.branches[b];
            bind_vars(env, &branch.results, &outs);
            let next = match branch.target {
                BranchTarget::Fallthrough => pc + 1,
                BranchTarget::Statement(a) => a,
            };
            Ok(StepResult::Next(next))
        },
    }
}

} // verus!
verus! {

/// The index of the first function from index `k` on with the given name.
pub open spec fn function_index_from(fs: Seq<Function>, name: Seq<char>, k: int) -> Option<int>
    decreases fs.len() - k,
{
    if k < 0 || k >= fs.len() {
        None
    } else if fs[k].id.name@ == name {
        Some(k)
    } else {
        function_index_from(fs, name, k + 1)
    }
}

/// Whether each argument group is one value of its parameter's type.
pub open spec fn inputs_match(f: Function, types: Map<u64, TypeInfo>, inputs: Seq<Seq<Value>>) -> bool {
    forall|i: int|
        0 <= i < inputs.len() ==> {
            &&& (#[trigger] inputs[i]).len() == 1
            &&& types.contains_key(f.params@[i].1)
            &&& kind_of(inputs[i][0]) == types[f.params@[i].1].kind
        }
}

/// The environment a function starts with: each parameter bound to its value.
pub open spec fn init_env(f: Function, types: Map<u64, TypeInfo>, inputs: Seq<Seq<Value>>) -> Result<
    Map<u64, Value>,
    SimulationError,
> {
    if inputs.len() != f.params@.len() {
        Err(SimulationError::WrongNumberOfArgs)
    } else if !inputs_match(f, types, inputs) {
        Err(SimulationError::TypeMismatch)
    } else {
        Ok(
            bind(
                Map::empty(),
                f.params@.map_values(|p: (u64, u64)| p.0),
                inputs.map_values(|s: Seq<Value>| s[0]),
            ),
        )
    }
}

/// Whether each returned value has its return type.
pub open spec fn outputs_match(f: Function, types: Map<u64, TypeInfo>, vals: Seq<Value>) -> bool {
    forall|i: int|
        0 <= i < vals.len() ==> {
            &&& types.contains_key(#[trigger] f.ret_types@[i])
            &&& kind_of(vals[i]) == types[f.ret_types@[i]].kind
        }
}

/// The returned values, checked against the return types and grouped one per
/// return position.
pub open spec fn finish(f: Function, types: Map<u64, TypeInfo>, vals: Seq<Value>) -> Result<
    Seq<Seq<Value>>,
    SimulationError,
> {
    if vals.len() != f.ret_types@.len() {
        Err(SimulationError::OutputArityMismatch)
    } else if !outputs_match(f, types, vals) {
        Err(SimulationError::TypeMismatch)
    } else {
        Ok(vals.map_values(|v: Value| seq![v]))
    }
}

/// The result of running the named function of a program on the inputs for
/// at most `fuel` steps.
pub open spec fn run_spec(p: Program, name: Seq<char>, inputs: Seq<Seq<Value>>, fuel: nat) -> Result<
    Seq<Seq<Value>>,
    SimulationError,
> {
    match registry_of(p) {
        Err(e) => Err(SimulationError::Registry(e)),
        Ok((types, libfuncs)) => match function_index_from(p.funcs@, name, 0) {
            None => Err(SimulationError::MissingFunction),
            Some(k) => {
                let f = p.funcs@[k];
                match init_env(f, types, inputs) {
                    Err(e) => Err(e),
                    Ok(env) => match run_from(p.statements@, libfuncs, f.entry as int, env, fuel) {
                        Err(e) => Err(e),
                        Ok(vals) => finish(f, types, vals),
                    },
                }
            },
        },
    }
}

/// The views of nested vectors.
pub open spec fn nested_view(v: Seq<Vec<Value>>) -> Seq<Seq<Value>> {
    v.map_values(|x: Vec<Value>| x@)
}

/// Whether an executed run's result is the one `run_spec` gives.
pub open spec fn run_result_matches(
    p: Program,
    name: Seq<char>,
    inputs: Seq<Seq<Value>>,
    fuel: nat,
    r: Result<Vec<Vec<Value>>, SimulationError>,
) -> bool {
    match r {
        Ok(out) => run_spec(p, name, inputs, fuel) is Ok && run_spec(p, name, inputs, fuel)->Ok_0
            =~~= nested_view(out@),
        Err(e) => run_spec(p, name, inputs, fuel) == Err::<Seq<Seq<Value>>, _>(e),
    }
}

/// Whether two results are the same: equal outputs, or equal errors.
pub open spec fn same_result(
    r1: Result<Vec<Vec<Value>>, SimulationError>,
    r2: Result<Vec<Vec<Value>>, SimulationError>,
) -> bool {
    match (r1, r2) {
        (Ok(a), Ok(b)) => nested_view(a@) =~~= nested_view(b@),
        (Err(e1), Err(e2)) => e1 == e2,
        _ => false,
    }
}

fn find_function(fs: &Vec<Function>, id: &FunctionId) -> (r: Option<usize>)
    ensures
        match r {
            Some(k) => k < fs@.len() && function_index_from(fs@, id.name@, 0) == Some(k as int),
            None => function_index_from(fs@, id.name@, 0) is None,
        },
{
    let mut k: usize = 0;
    while k < fs.len()
        invariant
            k <= fs@.len(),
            function_index_from(fs@, id.name@, 0) == function_index_from(fs@, id.name@, k as int),
        decreases fs@.len() - k,
    {
        if fs[k].id.name == id.name {
            return Some(k);
        }
        k = k + 1;
    }
    None
}

fn type_kind(types: &HashMap<u64, TypeInfo>, t: u64) -> (r: Option<ValueKind>)
    ensures
        match r {
            Some(k) => types@.contains_key(t) && types@[t].kind == k,
            None => !types@.contains_key(t),
        },
{
    match types.get(&t) {
        Some(info) => Some(info.kind),
        None => None,
    }
}

fn initial_env(f: &Function, types: &HashMap<u64, TypeInfo>, inputs: &Vec<Vec<Value>>) -> (r:
    Result<HashMap<u64, Value>, SimulationError>)
    ensures
        match r {
            Ok(env) => init_env(*f, types@, nested_view(inputs@)) == Ok::<_, SimulationError>(
                env@,
            ),
            Err(e) => init_env(*f, types@, nested_view(inputs@)) == Err::<Map<u64, Value>, _>(e),
        },
{
    let ghost ins = nested_view(inputs@);
    if inputs.len() != f.params.len() {
        return Err(SimulationError::WrongNumberOfArgs);
    }
    let mut names: Vec<u64> = Vec::new();
    let mut vals: Vec<Value> = Vec::new();
    let mut i: usize = 0;
    while i < inputs.len()
        invariant
            ins == nested_view(inputs@),
            inputs@.len() == f.params@.len(),
            i <= inputs@.len(),
            names@ == f.params@.map_values(|p: (u64, u64)| p.0).take(i as int),
            vals@ == ins.map_values(|s: Seq<Value>| s[0]).take(i as int),
            forall|j: int|
                0 <= j < i ==> {
                    &&& (#[trigger] ins[j]).len() == 1
                    &&& types@.contains_key(f.params@[j].1)
                    &&& kind_of(ins[j][0]) == types@[f.params@[j].1].kind
                },
        decreases inputs@.len() - i,
    {
        let group = &inputs[i];
        assert(ins[i as int] == group@);
        if group.len() != 1 {
            assert(!inputs_match(*f, types@, ins));
            return Err(SimulationError::TypeMismatch);
        }
        let ok = match type_kind(types, f.params[i].1) {
            Some(k) => kind_of_value(&group[0]) == k,
            None => false,
        };
        if !ok {
            assert(!inputs_match(*f, types@, ins));
            return Err(SimulationError::TypeMismatch);
        }
        names.push(f.params[i].0);
        vals.push(group[0]);
        proof {
            assert(names@ =~= f.params@.map_values(|p: (u64, u64)| p.0).take(i + 1));
            assert(vals@ =~= ins.map_values(|s: Seq<Value>| s[0]).take(i + 1));
        }
        i = i + 1;
    }
    proof {
        assert(names@ =~= f.params@.map_values(|p: (u64, u64)| p.0));
        assert(vals@ =~= ins.map_values(|s: Seq<Value>| s[0]));
    }
    let mut env: HashMap<u64, Value> = HashMap::new();
    bind_vars(&mut env, &names, &vals);
    Ok(env)
}

fn finish_outputs(f: &Function, types: &HashMap<u64, TypeInfo>, vals: Vec<Value>) -> (r: Result<
    Vec<Vec<Value>>,
    SimulationError,
>)
    ensures
        match r {
            Ok(out) => finish(*f, types@, vals@) is Ok && finish(*f, types@, vals@)->Ok_0
                =~~= nested_view(out@),
            Err(e) => finish(*f, types@, vals@) == Err::<Seq<Seq<Value>>, _>(e),
        },
{
    if vals.len() != f.ret_types.len() {
        return Err(SimulationError::OutputArityMismatch);
    }
    let mut out: Vec<Vec<Value>> = Vec::new();
    let mut i: usize = 0;
    while i < vals.len()
        invariant
            vals@.len() == f.ret_types@.len(),
            i <= vals@.len(),
            out@.len() == i,
            forall|j: int| 0 <= j < i ==> (#[trigger] out@[j])@ == seq![vals@[j]],
            forall|j: int|
                0 <= j < i ==> {
                    &&& types@.contains_key(#[trigger] f.ret_types@[j])
                    &&& kind_of(vals@[j]) == types@[f.ret_types@[j]].kind
                },
        decreases vals@.len() - i,
    {
        let ok = match type_kind(types, f.ret_types[i]) {
            Some(k) => kind_of_value(&vals[i]) == k,
            None => false,
        };
        if !ok {
            assert(!outputs_match(*f, types@, vals@));
            return Err(SimulationError::TypeMismatch);
        }
        let v = vals[i];
        out.push(vec![v]);
        i = i + 1;
    }
    Ok(out)
}

/// Runs the named function of a program on the inputs (one group of values
/// per parameter), for at most `max_steps` statements.
pub fn run_with_step_limit(
    p: &Program,
    function_id: &FunctionId,
    inputs: Vec<Vec<Value>>,
    max_steps: u64,
) -> (r: Result<Vec<Vec<Value>>, SimulationError>)
    ensures
        run_result_matches(*p, function_id.name@, nested_view(inputs@), max_steps as nat, r),
{
    let registry = match ProgramRegistry::new(p) {
        Ok(reg) => reg,
        Err(e) => {
            return Err(SimulationError::Registry(e));
        },
    };
    let k = match find_function(&p.funcs, function_id) {
        Some(k) => k,
        None => {
            return Err(SimulationError::MissingFunction);
        },
    };
    let f = &p.funcs[k];
    let mut env = match initial_env(f, &registry.types, &inputs) {
        Ok(env) => env,
        Err(e) => {
            return Err(e);
        },
    };
    let ghost env0 = env@;
    let mut pc: usize = f.entry;
    let mut fuel: u64 = max_steps;
    while fuel > 0
        invariant
            registry_of(*p) == Ok::<_, RegistryError>((registry.types@, registry.libfuncs@)),
            k < p.funcs@.len(),
            function_index_from(p.funcs@, function_id.name@, 0) == Some(k as int),
            *f == p.funcs@[k as int],
            init_env(*f, registry.types@, nested_view(inputs@)) == Ok::<_, SimulationError>(env0),
            run_from(p.statements@, registry.libfuncs@, f.entry as int, env0, max_steps as nat)
                == run_from(p.statements@, registry.libfuncs@, pc as int, env@, fuel as nat),
        decreases fuel,
    {
        match step(&p.statements, &registry.libfuncs, pc, &mut env) {
            Err(e) => {
                return Err(e);
            },
            Ok(StepResult::Done(vals)) => {
                return finish_outputs(f, &registry.types, vals);
            },
            Ok(StepResult::Next(next)) => {
                pc = next;
            },
        }
        fuel = fuel - 1;
    }
    Err(SimulationError::StepLimitExceeded)
}

/// Runs the named function of a program on the inputs (one group of values
/// per parameter). The run is cut off, with `StepLimitExceeded`, only after
/// `u64::MAX` statements.
pub fn run(p: &Program, function_id: &FunctionId, inputs: Vec<Vec<Value>>) -> (r: Result<
    Vec<Vec<Value>>,
    SimulationError,
>)
    ensures
        run_result_matches(*p, function_id.name@, nested_view(inputs@), u64::MAX as nat, r),
{
    run_with_step_limit(p, function_id, inputs, u64::MAX)
}

} // verus!
verus! {

/// Determinism: two runs of the same function of the same program on the
/// same inputs, with the same step limit, give the same result.
pub proof fn lemma_run_deterministic(
    p: Program,
    name: Seq<char>,
    inputs: Seq<Seq<Value>>,
    fuel: nat,
    r1: Result<Vec<Vec<Value>>, SimulationError>,
    r2: Result<Vec<Vec<Value>>, SimulationError>,
)
    requires
        run_result_matches(p, name, inputs, fuel, r1),
        run_result_matches(p, name, inputs, fuel, r2),
    ensures
        same_result(r1, r2),
{
    match (r1, r2) {
        (Ok(a), Ok(b)) => {
            let expected = run_spec(p, name, inputs, fuel)->Ok_0;
            assert(nested_view(a@).len() == expected.len());
            assert forall|i: int| 0 <= i < nested_view(a@).len() implies nested_view(a@)[i]
                =~= nested_view(b@)[i] by {
                assert(nested_view(a@)[i] =~= expected[i]);
                assert(nested_view(b@)[i] =~= expected[i]);
            }
        },
        _ => {},
    }
}

proof fn lemma_fetch_upto_consumes(env: Map<u64, Value>, vars: Seq<u64>, n: nat)
    requires
        n <= vars.len(),
        fetch_upto(env, vars, n) is Ok,
    ensures
        forall|i: int|
            0 <= i < n ==> !fetch_upto(env, vars, n)->Ok_0.1.contains_key(#[trigger] vars[i]),
    decreases n,
{
    if n > 0 {
        lemma_fetch_upto_consumes(env, vars, (n - 1) as nat);
    }
}

proof fn lemma_bind_upto_keeps_absent(
    env: Map<u64, Value>,
    names: Seq<u64>,
    vals: Seq<Value>,
    n: nat,
    a: u64,
)
    requires
        !env.contains_key(a),
        !names.contains(a),
    ensures
        !bind_upto(env, names, vals, n).contains_key(a),
    decreases n,
{
    if n > 0 && n <= names.len() && n <= vals.len() {
        lemma_bind_upto_keeps_absent(env, names, vals, (n - 1) as nat, a);
        assert(names[n - 1] != a);
    }
}

/// Linear ownership: a variable that a statement reads is consumed, so that
/// unless the branch taken binds it again, reading it afterwards fails with
/// `MissingVariable`.
pub proof fn lemma_consumed_variable_is_missing(
    env: Map<u64, Value>,
    args: Seq<u64>,
    a: u64,
    names: Seq<u64>,
    outs: Seq<Value>,
)
    requires
        fetch(env, args) is Ok,
        args.contains(a),
        !names.contains(a),
    ensures
        fetch(bind(fetch(env, args)->Ok_0.1, names, outs), seq![a]) == Err::<
            (Seq<Value>, Map<u64, Value>),
            _,
        >(SimulationError::MissingVariable(a)),
{
    lemma_fetch_upto_consumes(env, args, args.len());
    let rest = fetch(env, args)->Ok_0.1;
    let i = choose|i: int| 0 <= i < args.len() && args[i] == a;
    assert(!rest.contains_key(args[i]));
    lemma_bind_upto_keeps_absent(rest, names, outs, names.len(), a);
    let after = bind(rest, names, outs);
    assert(fetch_upto(after, seq![a], 0) == Ok::<_, SimulationError>((Seq::<Value>::empty(), after)));
}

/// Non-zero wrapping: the non-zero branch of a zero test hands out a wrapped
/// value, which no libfunc taking a plain integer accepts; only an explicit
/// unwrap turns it back into a plain integer.
pub proof fn lemma_non_zero_needs_unwrap(c: CoreLibFunc, x: i64)
    requires
        x != 0,
        input_kinds(c) == seq![ValueKind::Int],
    ensures
        eval_spec(CoreLibFunc::IntJumpNz, seq![Value::Int(x)]) == Ok::<_, SimulationError>(
            (0usize, seq![Value::NonZeroInt(x)]),
        ),
        eval_spec(c, seq![Value::NonZeroInt(x)]) == Err::<(usize, Seq<Value>), _>(
            SimulationError::TypeMismatch,
        ),
        eval_spec(CoreLibFunc::UnwrapNz, seq![Value::NonZeroInt(x)]) == Ok::<_, SimulationError>(
            (0usize, seq![Value::Int(x)]),
        ),
{
    assert(kind_of(seq![Value::NonZeroInt(x)][0]) != input_kinds(c)[0]);
    assert(kinds_match(seq![Value::NonZeroInt(x)], input_kinds(CoreLibFunc::UnwrapNz)));
    assert(kinds_match(seq![Value::Int(x)], input_kinds(CoreLibFunc::IntJumpNz)));
}

} // verus!
