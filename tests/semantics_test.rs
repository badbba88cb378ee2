use std::collections::HashMap;

use sierra::diagnostics::WithStringDiagnostics;
use sierra::extensions::{
    specialize_libfunc, specialize_type, CoreLibFunc, IntOperator, SpecializationError, TypeInfo,
    ValueKind,
};
use sierra::program::{
    BranchInfo, BranchTarget, Function, FunctionId, GenericArg, Invocation, LibFuncDeclaration,
    Program, Statement, TypeDeclaration,
};
use sierra::registry::{ProgramRegistry, RegistryError};
use sierra::simulation::{eval, run, run_with_step_limit, SimulationError, Value};

const INT: u64 = 0;
const NZ: u64 = 1;

const X: u64 = 0;
const Y: u64 = 1;

fn name(s: &str) -> String {
    s.to_string()
}

fn int_types() -> HashMap<u64, TypeInfo> {
    let mut known = HashMap::new();
    known.insert(
        INT,
        specialize_type(&name("int"), &vec![], &HashMap::new()).unwrap(),
    );
    known
}

fn simple(libfunc_id: u64, args: &[u64], results: &[u64]) -> Statement {
    Statement::Invocation(Invocation {
        libfunc_id,
        args: args.to_vec(),
        branches: vec![BranchInfo { target: BranchTarget::Fallthrough, results: results.to_vec() }],
    })
}

/// A program over `int` and `NonZero<int>` with the given libfuncs and
/// statements, and one function `f(x: int) -> (int)` starting at 0.
fn int_program(libfuncs: Vec<(u64, &str, Vec<GenericArg>)>, statements: Vec<Statement>) -> Program {
    Program {
        type_declarations: vec![
            TypeDeclaration { id: INT, generic_id: name("int"), args: vec![] },
            TypeDeclaration { id: NZ, generic_id: name("NonZero"), args: vec![GenericArg::Type(INT)] },
        ],
        libfunc_declarations: libfuncs
            .into_iter()
            .map(|(id, g, args)| LibFuncDeclaration { id, generic_id: name(g), args })
            .collect(),
        statements,
        funcs: vec![Function {
            id: FunctionId::new(name("f")),
            entry: 0,
            params: vec![(X, INT)],
            ret_types: vec![INT],
        }],
    }
}

fn run_f(program: &Program, x: i64) -> Result<Vec<Vec<Value>>, SimulationError> {
    run(program, &FunctionId::new(name("f")), vec![vec![Value::Int(x)]])
}

#[test]
fn diagnostics_split_and_get() {
    let w = WithStringDiagnostics::new(7u32, name("warning: unused"));
    let (value, diagnostics) = w.split();
    assert_eq!(value, 7);
    assert_eq!(diagnostics, "warning: unused");
    let w = WithStringDiagnostics::new(1u8, name("error"));
    assert_eq!(w.get_diagnostics(), "error");
    let w = WithStringDiagnostics::new(3i64, name(""));
    assert_eq!(w.unwrap(), 3);
}

#[test]
fn specialize_types() {
    let none = HashMap::new();
    let int = specialize_type(&name("int"), &vec![], &none).unwrap();
    assert_eq!(int.kind, ValueKind::Int);
    let gas = specialize_type(&name("GasBuiltin"), &vec![], &none).unwrap();
    assert_eq!(gas.kind, ValueKind::Gas);
    assert!(!gas.duplicatable && !gas.droppable);
    let nz = specialize_type(&name("NonZero"), &vec![GenericArg::Type(INT)], &int_types()).unwrap();
    assert_eq!(nz.kind, ValueKind::NonZeroInt);
}

#[test]
fn specialize_type_errors() {
    let known = int_types();
    assert_eq!(
        specialize_type(&name("float"), &vec![], &known),
        Err(SpecializationError::UnsupportedId)
    );
    assert_eq!(
        specialize_type(&name("int"), &vec![GenericArg::Value(1)], &known),
        Err(SpecializationError::WrongNumberOfGenericArgs)
    );
    assert_eq!(
        specialize_type(&name("NonZero"), &vec![], &known),
        Err(SpecializationError::WrongNumberOfGenericArgs)
    );
    assert_eq!(
        specialize_type(&name("NonZero"), &vec![GenericArg::Value(3)], &known),
        Err(SpecializationError::UnsupportedGenericArg)
    );
    assert_eq!(
        specialize_type(&name("NonZero"), &vec![GenericArg::Type(9)], &known),
        Err(SpecializationError::MissingTypeDependency)
    );
}

#[test]
fn specialize_libfuncs() {
    let known = int_types();
    assert_eq!(
        specialize_libfunc(&name("int_add"), &vec![GenericArg::Value(1)], &known),
        Ok(CoreLibFunc::IntOp(IntOperator::Add, 1))
    );
    assert_eq!(
        specialize_libfunc(&name("store_temp"), &vec![GenericArg::Type(INT)], &known),
        Ok(CoreLibFunc::StoreTemp(ValueKind::Int))
    );
    assert_eq!(specialize_libfunc(&name("jump"), &vec![], &known), Ok(CoreLibFunc::Jump));
    assert_eq!(
        specialize_libfunc(&name("get_gas"), &vec![GenericArg::Value(11)], &known),
        Ok(CoreLibFunc::GetGas(11))
    );
}

#[test]
fn specialize_libfunc_errors() {
    let known = int_types();
    assert_eq!(
        specialize_libfunc(&name("int_pow"), &vec![], &known),
        Err(SpecializationError::UnsupportedId)
    );
    assert_eq!(
        specialize_libfunc(&name("int_add"), &vec![], &known),
        Err(SpecializationError::WrongNumberOfGenericArgs)
    );
    assert_eq!(
        specialize_libfunc(&name("int_dup"), &vec![GenericArg::Type(INT)], &known),
        Err(SpecializationError::WrongNumberOfGenericArgs)
    );
    assert_eq!(
        specialize_libfunc(&name("int_const"), &vec![GenericArg::Type(INT)], &known),
        Err(SpecializationError::UnsupportedGenericArg)
    );
    assert_eq!(
        specialize_libfunc(&name("store_temp"), &vec![GenericArg::Value(0)], &known),
        Err(SpecializationError::UnsupportedGenericArg)
    );
    assert_eq!(
        specialize_libfunc(&name("store_temp"), &vec![GenericArg::Type(5)], &known),
        Err(SpecializationError::MissingTypeDependency)
    );
    assert_eq!(
        specialize_libfunc(&name("get_gas"), &vec![GenericArg::Value(-1)], &known),
        Err(SpecializationError::UnsupportedGenericArg)
    );
}

#[test]
fn eval_arithmetic() {
    let op = |o, c| CoreLibFunc::IntOp(o, c);
    assert_eq!(eval(op(IntOperator::Add, 1), vec![Value::Int(4)]), Ok((0, vec![Value::Int(5)])));
    assert_eq!(eval(op(IntOperator::Sub, 1), vec![Value::Int(4)]), Ok((0, vec![Value::Int(3)])));
    assert_eq!(eval(op(IntOperator::Mul, 3), vec![Value::Int(-4)]), Ok((0, vec![Value::Int(-12)])));
    assert_eq!(eval(op(IntOperator::Div, 2), vec![Value::Int(-7)]), Ok((0, vec![Value::Int(-3)])));
    assert_eq!(eval(op(IntOperator::Mod, 2), vec![Value::Int(-7)]), Ok((0, vec![Value::Int(-1)])));
    assert_eq!(eval(op(IntOperator::Mod, 2), vec![Value::Int(7)]), Ok((0, vec![Value::Int(1)])));
    assert_eq!(
        eval(op(IntOperator::Div, 0), vec![Value::Int(7)]),
        Err(SimulationError::ArithmeticError)
    );
    assert_eq!(
        eval(op(IntOperator::Mod, 0), vec![Value::Int(7)]),
        Err(SimulationError::ArithmeticError)
    );
    assert_eq!(
        eval(op(IntOperator::Add, 1), vec![Value::Int(i64::MAX)]),
        Err(SimulationError::ArithmeticError)
    );
}

#[test]
fn eval_gas() {
    assert_eq!(eval(CoreLibFunc::GetGas(11), vec![Value::Gas(11)]), Ok((0, vec![Value::Gas(0)])));
    assert_eq!(eval(CoreLibFunc::GetGas(11), vec![Value::Gas(10)]), Ok((1, vec![Value::Gas(10)])));
    assert_eq!(eval(CoreLibFunc::RefundGas(1), vec![Value::Gas(10)]), Ok((0, vec![Value::Gas(11)])));
}

#[test]
fn eval_zero_test_and_unwrap() {
    assert_eq!(eval(CoreLibFunc::IntJumpNz, vec![Value::Int(0)]), Ok((1, vec![])));
    assert_eq!(
        eval(CoreLibFunc::IntJumpNz, vec![Value::Int(-3)]),
        Ok((0, vec![Value::NonZeroInt(-3)]))
    );
    assert_eq!(
        eval(CoreLibFunc::UnwrapNz, vec![Value::NonZeroInt(-3)]),
        Ok((0, vec![Value::Int(-3)]))
    );
    assert_eq!(
        eval(CoreLibFunc::IntOp(IntOperator::Add, 1), vec![Value::NonZeroInt(-3)]),
        Err(SimulationError::TypeMismatch)
    );
    assert_eq!(
        eval(CoreLibFunc::IntDup, vec![Value::Int(2)]),
        Ok((0, vec![Value::Int(2), Value::Int(2)]))
    );
}

#[test]
fn registry_errors() {
    let add = || (0, "int_add", vec![GenericArg::Value(1)]);
    let ok = int_program(vec![add()], vec![simple(0, &[X], &[X]), Statement::Return(vec![X])]);
    assert!(ProgramRegistry::new(&ok).is_ok());

    let mut dup_type = int_program(vec![add()], vec![Statement::Return(vec![X])]);
    dup_type.type_declarations.push(TypeDeclaration { id: INT, generic_id: name("int"), args: vec![] });
    assert!(matches!(ProgramRegistry::new(&dup_type), Err(RegistryError::DuplicateTypeId(INT))));

    let dup_libfunc = int_program(vec![add(), add()], vec![Statement::Return(vec![X])]);
    assert!(matches!(ProgramRegistry::new(&dup_libfunc), Err(RegistryError::DuplicateLibFuncId(0))));

    let bad_arg = int_program(vec![(0, "int_add", vec![])], vec![Statement::Return(vec![X])]);
    assert!(matches!(
        ProgramRegistry::new(&bad_arg),
        Err(RegistryError::LibFuncSpecialization(0, SpecializationError::WrongNumberOfGenericArgs))
    ));

    let missing = int_program(vec![add()], vec![simple(7, &[X], &[X]), Statement::Return(vec![X])]);
    assert!(matches!(ProgramRegistry::new(&missing), Err(RegistryError::MissingLibFunc(0))));

    let arity = int_program(vec![add()], vec![simple(0, &[X, Y], &[X]), Statement::Return(vec![X])]);
    assert!(matches!(ProgramRegistry::new(&arity), Err(RegistryError::ArgumentArityMismatch(0))));

    let results = int_program(vec![add()], vec![simple(0, &[X], &[X, Y]), Statement::Return(vec![X])]);
    assert!(matches!(ProgramRegistry::new(&results), Err(RegistryError::ResultArityMismatch(0))));

    let branches = int_program(
        vec![(0, "int_jump_nz", vec![])],
        vec![simple(0, &[X], &[X]), Statement::Return(vec![X])],
    );
    assert!(matches!(ProgramRegistry::new(&branches), Err(RegistryError::BranchCountMismatch(0))));

    let target = int_program(vec![add()], vec![simple(0, &[X], &[X])]);
    assert!(matches!(ProgramRegistry::new(&target), Err(RegistryError::BranchTargetOutOfRange(0))));

    let mut entry = int_program(vec![add()], vec![Statement::Return(vec![X])]);
    entry.funcs[0].entry = 5;
    assert!(matches!(ProgramRegistry::new(&entry), Err(RegistryError::FunctionEntryOutOfRange(0))));

    let mut ty = int_program(vec![add()], vec![Statement::Return(vec![X])]);
    ty.funcs[0].ret_types = vec![42];
    assert!(matches!(ProgramRegistry::new(&ty), Err(RegistryError::MissingFunctionType(0))));
}

#[test]
fn consumed_variable_is_missing() {
    let program = int_program(
        vec![(0, "int_ignore", vec![]), (1, "int_add", vec![GenericArg::Value(1)])],
        vec![simple(0, &[X], &[]), simple(1, &[X], &[X]), Statement::Return(vec![X])],
    );
    assert_eq!(run_f(&program, 3), Err(SimulationError::MissingVariable(X)));
}

#[test]
fn duplicate_keeps_variable_alive() {
    let program = int_program(
        vec![(0, "int_dup", vec![]), (1, "int_ignore", vec![]), (2, "int_add", vec![GenericArg::Value(1)])],
        vec![
            simple(0, &[X], &[X, Y]),
            simple(1, &[Y], &[]),
            simple(2, &[X], &[X]),
            Statement::Return(vec![X]),
        ],
    );
    assert_eq!(run_f(&program, 3), Ok(vec![vec![Value::Int(4)]]));
}

fn zero_test_program(unwrap: bool) -> Program {
    let jump_nz = Statement::Invocation(Invocation {
        libfunc_id: 0,
        args: vec![X],
        branches: vec![
            BranchInfo { target: BranchTarget::Statement(1), results: vec![X] },
            BranchInfo { target: BranchTarget::Statement(3), results: vec![] },
        ],
    });
    let first = if unwrap { simple(1, &[X], &[X]) } else { simple(2, &[X], &[X]) };
    int_program(
        vec![
            (0, "int_jump_nz", vec![]),
            (1, "unwrap_nz", vec![GenericArg::Type(INT)]),
            (2, "store_temp", vec![GenericArg::Type(INT)]),
            (3, "int_const", vec![GenericArg::Value(0)]),
        ],
        vec![
            jump_nz,
            first,
            Statement::Return(vec![X]),
            simple(3, &[], &[X]),
            Statement::Return(vec![X]),
        ],
    )
}

#[test]
fn non_zero_needs_unwrap() {
    assert_eq!(run_f(&zero_test_program(true), 5), Ok(vec![vec![Value::Int(5)]]));
    assert_eq!(run_f(&zero_test_program(true), 0), Ok(vec![vec![Value::Int(0)]]));
    assert_eq!(run_f(&zero_test_program(false), 5), Err(SimulationError::TypeMismatch));
}

#[test]
fn run_errors() {
    let program = int_program(vec![], vec![Statement::Return(vec![X])]);
    assert_eq!(run_f(&program, 1), Ok(vec![vec![Value::Int(1)]]));
    assert_eq!(
        run(&program, &FunctionId::new(name("g")), vec![vec![Value::Int(1)]]),
        Err(SimulationError::MissingFunction)
    );
    assert_eq!(
        run(&program, &FunctionId::new(name("f")), vec![]),
        Err(SimulationError::WrongNumberOfArgs)
    );
    assert_eq!(
        run(&program, &FunctionId::new(name("f")), vec![vec![Value::Gas(1)]]),
        Err(SimulationError::TypeMismatch)
    );
    assert_eq!(
        run(&program, &FunctionId::new(name("f")), vec![vec![Value::Int(1), Value::Int(2)]]),
        Err(SimulationError::TypeMismatch)
    );
    let two = int_program(vec![], vec![Statement::Return(vec![X, X])]);
    assert_eq!(run_f(&two, 1), Err(SimulationError::MissingVariable(X)));
    let none = int_program(vec![], vec![Statement::Return(vec![])]);
    assert_eq!(run_f(&none, 1), Err(SimulationError::OutputArityMismatch));
    let bad = int_program(vec![], vec![simple(9, &[X], &[X])]);
    assert!(matches!(run_f(&bad, 1), Err(SimulationError::Registry(_))));
}

#[test]
fn run_step_limit() {
    let looping = int_program(
        vec![(0, "jump", vec![])],
        vec![Statement::Invocation(Invocation {
            libfunc_id: 0,
            args: vec![],
            branches: vec![BranchInfo { target: BranchTarget::Statement(0), results: vec![] }],
        })],
    );
    assert_eq!(
        run_with_step_limit(&looping, &FunctionId::new(name("f")), vec![vec![Value::Int(1)]], 1000),
        Err(SimulationError::StepLimitExceeded)
    );
}
