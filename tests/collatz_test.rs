use sierra::program::{
    BranchInfo, GenericArg, BranchTarget, Function, FunctionId, Invocation, LibFuncDeclaration, Program,
    Statement, TypeDeclaration,
};
use sierra::registry::ProgramRegistry;
use sierra::simulation::{run, Value};

// Type ids.
const INT: u64 = 0;
const GAS_BUILTIN: u64 = 1;
const NON_ZERO_INT: u64 = 2;

// Libfunc ids.
const STORE_TEMP_INT: u64 = 0;
const STORE_TEMP_GB: u64 = 1;
const INT_CONST_0: u64 = 2;
const INT_CONST_MINUS_1: u64 = 3;
const INT_MOD_2: u64 = 4;
const INT_DIV_2: u64 = 5;
const INT_MUL_3: u64 = 6;
const INT_ADD_1: u64 = 7;
const INT_SUB_1: u64 = 8;
const INT_DUP: u64 = 9;
const INT_IGNORE: u64 = 10;
const INT_JUMP_NZ: u64 = 11;
const INT_UNWRAP_NZ: u64 = 12;
const GET_GAS_11: u64 = 13;
const REFUND_GAS_1: u64 = 14;
const JUMP: u64 = 15;
const ALIGN_TEMPS: u64 = 16;

// Variable ids.
const N: u64 = 0;
const GB: u64 = 1;
const COUNTER: u64 = 2;
const TO_DROP: u64 = 3;
const ERR: u64 = 4;
const PARITY: u64 = 5;
const N_1: u64 = 6;

fn ty(id: u64, name: &str, args: Vec<GenericArg>) -> TypeDeclaration {
    TypeDeclaration { id, generic_id: name.to_string(), args }
}

fn lf(id: u64, name: &str, args: Vec<GenericArg>) -> LibFuncDeclaration {
    LibFuncDeclaration { id, generic_id: name.to_string(), args }
}

fn fallthrough(results: &[u64]) -> BranchInfo {
    BranchInfo { target: BranchTarget::Fallthrough, results: results.to_vec() }
}

fn to(address: usize, results: &[u64]) -> BranchInfo {
    BranchInfo { target: BranchTarget::Statement(address), results: results.to_vec() }
}

fn call(libfunc_id: u64, args: &[u64], branches: Vec<BranchInfo>) -> Statement {
    Statement::Invocation(Invocation { libfunc_id, args: args.to_vec(), branches })
}

/// `libfunc(args) -> (results);`
fn simple(libfunc_id: u64, args: &[u64], results: &[u64]) -> Statement {
    call(libfunc_id, args, vec![fallthrough(results)])
}

fn ret(vars: &[u64]) -> Statement {
    Statement::Return(vars.to_vec())
}

fn collatz_program() -> Program {
    let t = GenericArg::Type;
    let v = GenericArg::Value;
    let type_declarations = vec![
        ty(INT, "int", vec![]),
        ty(GAS_BUILTIN, "GasBuiltin", vec![]),
        ty(NON_ZERO_INT, "NonZero", vec![t(INT)]),
    ];
    let libfunc_declarations = vec![
        lf(STORE_TEMP_INT, "store_temp", vec![t(INT)]),
        lf(STORE_TEMP_GB, "store_temp", vec![t(GAS_BUILTIN)]),
        lf(INT_CONST_0, "int_const", vec![v(0)]),
        lf(INT_CONST_MINUS_1, "int_const", vec![v(-1)]),
        lf(INT_MOD_2, "int_mod", vec![v(2)]),
        lf(INT_DIV_2, "int_div", vec![v(2)]),
        lf(INT_MUL_3, "int_mul", vec![v(3)]),
        lf(INT_ADD_1, "int_add", vec![v(1)]),
        lf(INT_SUB_1, "int_sub", vec![v(1)]),
        lf(INT_DUP, "int_dup", vec![]),
        lf(INT_IGNORE, "int_ignore", vec![]),
        lf(INT_JUMP_NZ, "int_jump_nz", vec![]),
        lf(INT_UNWRAP_NZ, "unwrap_nz", vec![t(INT)]),
        lf(GET_GAS_11, "get_gas", vec![v(11)]),
        lf(REFUND_GAS_1, "refund_gas", vec![v(1)]),
        lf(JUMP, "jump", vec![]),
        lf(ALIGN_TEMPS, "align_temps", vec![t(INT)]),
    ];
    let statements = vec![
        // 0: setting up memory in the form [n, gb, counter=0].
        simple(STORE_TEMP_INT, &[N], &[N]),
        simple(STORE_TEMP_GB, &[GB], &[GB]),
        simple(INT_CONST_0, &[], &[COUNTER]),
        simple(STORE_TEMP_INT, &[COUNTER], &[COUNTER]),
        call(JUMP, &[], vec![to(34, &[])]),
        // 5: getting gas for the main loop.
        simple(INT_UNWRAP_NZ, &[TO_DROP], &[TO_DROP]),
        simple(INT_IGNORE, &[TO_DROP], &[]),
        call(GET_GAS_11, &[GB], vec![to(14, &[GB]), fallthrough(&[GB])]),
        // 8: ran out of gas, returning the updated gb and -1.
        simple(INT_IGNORE, &[N], &[]),
        simple(INT_IGNORE, &[COUNTER], &[]),
        simple(STORE_TEMP_GB, &[GB], &[GB]),
        simple(INT_CONST_MINUS_1, &[], &[ERR]),
        simple(STORE_TEMP_INT, &[ERR], &[ERR]),
        ret(&[GB, ERR]),
        // 14: testing whether n is odd or even.
        simple(INT_DUP, &[N], &[N, PARITY]),
        simple(INT_MOD_2, &[PARITY], &[PARITY]),
        simple(STORE_TEMP_INT, &[PARITY], &[PARITY]),
        simple(STORE_TEMP_GB, &[GB], &[GB]),
        call(INT_JUMP_NZ, &[PARITY], vec![to(24, &[TO_DROP]), fallthrough(&[])]),
        // 19: the even case.
        simple(ALIGN_TEMPS, &[], &[]),
        simple(INT_DIV_2, &[N], &[N]),
        simple(STORE_TEMP_INT, &[N], &[N]),
        simple(STORE_TEMP_GB, &[GB], &[GB]),
        call(JUMP, &[], vec![to(32, &[])]),
        // 24: the odd case.
        simple(INT_UNWRAP_NZ, &[TO_DROP], &[TO_DROP]),
        simple(INT_IGNORE, &[TO_DROP], &[]),
        simple(INT_MUL_3, &[N], &[N]),
        simple(STORE_TEMP_INT, &[N], &[N]),
        simple(INT_ADD_1, &[N], &[N]),
        simple(STORE_TEMP_INT, &[N], &[N]),
        simple(REFUND_GAS_1, &[GB], &[GB]),
        simple(STORE_TEMP_GB, &[GB], &[GB]),
        // 32: counter + 1.
        simple(INT_ADD_1, &[COUNTER], &[COUNTER]),
        simple(STORE_TEMP_INT, &[COUNTER], &[COUNTER]),
        // 34: testing whether n == 1.
        simple(INT_DUP, &[N], &[N, N_1]),
        simple(INT_SUB_1, &[N_1], &[N_1]),
        simple(STORE_TEMP_INT, &[N_1], &[N_1]),
        call(INT_JUMP_NZ, &[N_1], vec![to(5, &[TO_DROP]), fallthrough(&[])]),
        // 38: n == 1, returning the counter.
        simple(INT_IGNORE, &[N], &[]),
        simple(REFUND_GAS_1, &[GB], &[GB]),
        simple(STORE_TEMP_GB, &[GB], &[GB]),
        simple(STORE_TEMP_INT, &[COUNTER], &[COUNTER]),
        ret(&[GB, COUNTER]),
    ];
    let funcs = vec![Function {
        id: FunctionId::new("Collatz".to_string()),
        entry: 0,
        params: vec![(GB, GAS_BUILTIN), (N, INT)],
        ret_types: vec![GAS_BUILTIN, INT],
    }];
    Program { type_declarations, libfunc_declarations, statements, funcs }
}

#[test]
fn create_registry_test() {
    assert!(ProgramRegistry::new(&collatz_program()).is_ok());
}

fn simulate((gb, n): (i64, i64), (new_gb, index): (i64, i64)) {
    assert_eq!(
        run(
            &collatz_program(),
            &FunctionId::new("Collatz".to_string()),
            vec![vec![Value::Gas(gb)], vec![Value::Int(n)]]
        ),
        Ok(vec![vec![Value::Gas(new_gb)], vec![Value::Int(index)]])
    );
}

// 5 -> 16 -> 8 -> 4 -> 2 -> 1
#[test]
fn simulate_collatz_5() {
    simulate((100, 5), (47, 5));
}

// 7 -> 22 -> 11 -> 34 -> 17 -> 52 -> 26 -> 13 -> 40 -> 20 -> 10 -> 5 -> 16 -> 8 -> 4 -> 2 -> 1
#[test]
fn simulate_collatz_7() {
    simulate((200, 7), (30, 16));
}

#[test]
fn simulate_out_of_gas() {
    simulate((100, 7), (5, -1));
}

#[test]
fn simulate_is_deterministic() {
    let name = FunctionId::new("Collatz".to_string());
    let inputs = || vec![vec![Value::Gas(200)], vec![Value::Int(27)]];
    let program = collatz_program();
    assert_eq!(run(&program, &name, inputs()), run(&program, &name, inputs()));
}
