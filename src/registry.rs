//! The program registry: resolves every declaration of a program, in file
//! order, and checks the shape of every statement and function against the
//! resolved signatures.
use vstd::prelude::*;
use std::collections::HashMap;
use crate::extensions::{
    branch_output_kinds, input_kinds, specialize_libfunc, specialize_libfunc_spec,
    specialize_type, specialize_type_spec, CoreLibFunc, SpecializationError, TypeInfo,
};
use crate::program::{
    BranchInfo, BranchTarget, Function, LibFuncDeclaration, Program, Statement, TypeDeclaration,
};

verus! {

broadcast use vstd::std_specs::hash::group_hash_axioms;

/// Why a program's registry could not be built.
#[derive(Clone, Copy, PartialEq, Eq, Structural, Debug)]
pub enum RegistryError {
    /// Two type declarations share this id.
    DuplicateTypeId(u64),
    /// The type declaration with this id could not be specialized.
    TypeSpecialization(u64, SpecializationError),
    /// Two libfunc declarations share this id.
    DuplicateLibFuncId(u64),
    /// The libfunc declaration with this id could not be specialized.
    LibFuncSpecialization(u64, SpecializationError),
    /// The statement at this address invokes an undeclared libfunc.
    MissingLibFunc(usize),
    /// The statement at this address passes the wrong number of arguments.
    ArgumentArityMismatch(usize),
    /// The statement at this address lists the wrong number of branches.
    BranchCountMismatch(usize),
    /// A branch of the statement at this address binds the wrong number of results.
    ResultArityMismatch(usize),
    /// A branch of the statement at this address targets no statement.
    BranchTargetOutOfRange(usize),
    /// The function at this index starts outside the program.
    FunctionEntryOutOfRange(usize),
    /// The function at this index names an undeclared type.
    MissingFunctionType(usize),
}

/// Concrete information for every declared id of a program.
pub struct ProgramRegistry {
    pub types: HashMap<u64, TypeInfo>,
    pub libfuncs: HashMap<u64, CoreLibFunc>,
}

/// The types declared by the first `n` type declarations.
pub open spec fn types_upto(decls: Seq<TypeDeclaration>, n: nat) -> Result<
    Map<u64, TypeInfo>,
    RegistryError,
>
    decreases n,
{
    if n == 0 || n > decls.len() {
        Ok(Map::empty())
    } else {
        match types_upto(decls, (n - 1) as nat) {
            Err(e) => Err(e),
            Ok(m) => {
                let d = decls[n - 1];
                if m.contains_key(d.id) {
                    Err(RegistryError::DuplicateTypeId(d.id))
                } else {
                    match specialize_type_spec(d.generic_id@, d.args@, m) {
                        Err(e) => Err(RegistryError::TypeSpecialization(d.id, e)),
                        Ok(info) => Ok(m.insert(d.id, info)),
                    }
                }
            },
        }
    }
}

/// The libfuncs declared by the first `n` libfunc declarations.
pub open spec fn libfuncs_upto(
    decls: Seq<LibFuncDeclaration>,
    n: nat,
    types: Map<u64, TypeInfo>,
) -> Result<Map<u64, CoreLibFunc>, RegistryError>
    decreases n,
{
    if n == 0 || n > decls.len() {
        Ok(Map::empty())
    } else {
        match libfuncs_upto(decls, (n - 1) as nat, types) {
            Err(e) => Err(e),
            Ok(m) => {
                let d = decls[n - 1];
                if m.contains_key(d.id) {
                    Err(RegistryError::DuplicateLibFuncId(d.id))
                } else {
                    match specialize_libfunc_spec(d.generic_id@, d.args@, types) {
                        Err(e) => Err(RegistryError::LibFuncSpecialization(d.id, e)),
                        Ok(c) => Ok(m.insert(d.id, c)),
                    }
                }
            },
        }
    }
}

/// The address a branch of the statement at `idx` continues at.
pub open spec fn target_address(target: BranchTarget, idx: int) -> int {
    match target {
        BranchTarget::Fallthrough => idx + 1,
        BranchTarget::Statement(a) => a as int,
    }
}

/// Checks one branch of the statement at `idx`.
pub open spec fn branch_check(
    b: BranchInfo,
    expected_results: int,
    idx: usize,
    n_statements: int,
) -> Result<(), RegistryError> {
    if b.results@.len() != expected_results {
        Err(RegistryError::ResultArityMismatch(idx))
    } else if target_address(b.target, idx as int) >= n_statements {
        Err(RegistryError::BranchTargetOutOfRange(idx))
    } else {
        Ok(())
    }
}

/// Checks the branches from the `j`-th on.
pub open spec fn branches_check_from(
    bs: Seq<BranchInfo>,
    c: CoreLibFunc,
    idx: usize,
    n_statements: int,
    j: int,
) -> Result<(), RegistryError>
    decreases bs.len() - j,
{
    if j < 0 || j >= bs.len() {
        Ok(())
    } else {
        match branch_check(bs[j], branch_output_kinds(c)[j].len() as int, idx, n_statements) {
            Err(e) => Err(e),
            Ok(()) => branches_check_from(bs, c, idx, n_statements, j + 1),
        }
    }
}

/// Checks the statement at `idx` against the resolved libfuncs.
pub open spec fn statement_check(
    s: Statement,
    idx: usize,
    n_statements: int,
    libfuncs: Map<u64, CoreLibFunc>,
) -> Result<(), RegistryError> {
    match s {
        Statement::Return(_) => Ok(()),
        Statement::Invocation(inv) => if !libfuncs.contains_key(inv.libfunc_id) {
            Err(RegistryError::MissingLibFunc(idx))
        } else {
            let c = libfuncs[inv.libfunc_id];
            if inv.args@.len() != input_kinds(c).len() {
                Err(RegistryError::ArgumentArityMismatch(idx))
            } else if inv.branches@.len() != branch_output_kinds(c).len() {
                Err(RegistryError::BranchCountMismatch(idx))
            } else {
                branches_check_from(inv.branches@, c, idx, n_statements, 0)
            }
        },
    }
}

/// Checks the statements from address `i` on.
pub open spec fn statements_check_from(
    ss: Seq<Statement>,
    libfuncs: Map<u64, CoreLibFunc>,
    i: int,
) -> Result<(), RegistryError>
    decreases ss.len() - i,
{
    if i < 0 || i >= ss.len() {
        Ok(())
    } else {
        match statement_check(ss[i], i as usize, ss.len() as int, libfuncs) {
            Err(e) => Err(e),
            Ok(()) => statements_check_from(ss, libfuncs, i + 1),
        }
    }
}

/// Every parameter type of the function is declared.
pub open spec fn params_declared(f: Function, types: Map<u64, TypeInfo>) -> bool {
    forall|i: int| 0 <= i < f.params@.len() ==> types.contains_key(#[trigger] f.params@[i].1)
}

/// Every return type of the function is declared.
pub open spec fn rets_declared(f: Function, types: Map<u64, TypeInfo>) -> bool {
    forall|i: int| 0 <= i < f.ret_types@.len() ==> types.contains_key(#[trigger] f.ret_types@[i])
}

/// Checks the function at index `k`.
pub open spec fn function_check(
    f: Function,
    k: usize,
    n_statements: int,
    types: Map<u64, TypeInfo>,
) -> Result<(), RegistryError> {
    if f.entry >= n_statements {
        Err(RegistryError::FunctionEntryOutOfRange(k))
    } else if !params_declared(f, types) || !rets_declared(f, types) {
        Err(RegistryError::MissingFunctionType(k))
    } else {
        Ok(())
    }
}

/// Checks the functions from index `k` on.
pub open spec fn functions_check_from(
    fs: Seq<Function>,
    n_statements: int,
    types: Map<u64, TypeInfo>,
    k: int,
) -> Result<(), RegistryError>
    decreases fs.len() - k,
{
    if k < 0 || k >= fs.len() {
        Ok(())
    } else {
        match function_check(fs[k], k as usize, n_statements, types) {
            Err(e) => Err(e),
            Ok(()) => functions_check_from(fs, n_statements, types, k + 1),
        }
    }
}

/// The registry of a program: its resolved types and libfuncs, or the first
/// error found in file order.
pub open spec fn registry_of(p: Program) -> Result<
    (Map<u64, TypeInfo>, Map<u64, CoreLibFunc>),
    RegistryError,
> {
    match types_upto(p.type_declarations@, p.type_declarations@.len()) {
        Err(e) => Err(e),
        Ok(types) => match libfuncs_upto(
            p.libfunc_declarations@,
            p.libfunc_declarations@.len(),
            types,
        ) {
            Err(e) => Err(e),
            Ok(libfuncs) => match statements_check_from(p.statements@, libfuncs, 0) {
                Err(e) => Err(e),
                Ok(()) => match functions_check_from(
                    p.funcs@,
                    p.statements@.len() as int,
                    types,
                    0,
                ) {
                    Err(e) => Err(e),
                    Ok(()) => Ok((types, libfuncs)),
                },
            },
        },
    }
}

proof fn lemma_types_error_persists(decls: Seq<TypeDeclaration>, n: nat, m: nat)
    requires
        n <= m <= decls.len(),
        types_upto(decls, n) is Err,
    ensures
        types_upto(decls, m) == types_upto(decls, n),
    decreases m - n,
{
    if n < m {
        lemma_types_error_persists(decls, n, (m - 1) as nat);
    }
}

proof fn lemma_libfuncs_error_persists(
    decls: Seq<LibFuncDeclaration>,
    n: nat,
    m: nat,
    types: Map<u64, TypeInfo>,
)
    requires
        n <= m <= decls.len(),
        libfuncs_upto(decls, n, types) is Err,
    ensures
        libfuncs_upto(decls, m, types) == libfuncs_upto(decls, n, types),
    decreases m - n,
{
    if n < m {
        lemma_libfuncs_error_persists(decls, n, (m - 1) as nat, types);
    }
}

fn build_types(decls: &Vec<TypeDeclaration>) -> (r: Result<HashMap<u64, TypeInfo>, RegistryError>)
    ensures
        match r {
            Ok(m) => types_upto(decls@, decls@.len()) == Ok::<_, RegistryError>(m@),
            Err(e) => types_upto(decls@, decls@.len()) == Err::<Map<u64, TypeInfo>, _>(e),
        },
{
    let mut m: HashMap<u64, TypeInfo> = HashMap::new();
    let mut i: usize = 0;
    while i < decls.len()
        invariant
            i <= decls@.len(),
            types_upto(decls@, i as nat) == Ok::<_, RegistryError>(m@),
        decreases decls@.len() - i,
    {
        let d = &decls[i];
        if m.contains_key(&d.id) {
            proof {
                lemma_types_error_persists(decls@, (i + 1) as nat, decls@.len());
            }
            return Err(RegistryError::DuplicateTypeId(d.id));
        }
        match specialize_type(&d.generic_id, &d.args, &m) {
            Err(e) => {
                proof {
                    lemma_types_error_persists(decls@, (i + 1) as nat, decls@.len());
                }
                return Err(RegistryError::TypeSpecialization(d.id, e));
            },
            Ok(info) => {
                m.insert(d.id, info);
            },
        }
        i = i + 1;
    }
    Ok(m)
}

fn build_libfuncs(decls: &Vec<LibFuncDeclaration>, types: &HashMap<u64, TypeInfo>) -> (r: Result<
    HashMap<u64, CoreLibFunc>,
    RegistryError,
>)
    ensures
        match r {
            Ok(m) => libfuncs_upto(decls@, decls@.len(), types@) == Ok::<_, RegistryError>(m@),
            Err(e) => libfuncs_upto(decls@, decls@.len(), types@) == Err::<
                Map<u64, CoreLibFunc>,
                _,
            >(e),
        },
{
    let mut m: HashMap<u64, CoreLibFunc> = HashMap::new();
    let mut i: usize = 0;
    while i < decls.len()
        invariant
            i <= decls@.len(),
            libfuncs_upto(decls@, i as nat, types@) == Ok::<_, RegistryError>(m@),
        decreases decls@.len() - i,
    {
        let d = &decls[i];
        if m.contains_key(&d.id) {
            proof {
                lemma_libfuncs_error_persists(decls@, (i + 1) as nat, decls@.len(), types@);
            }
            return Err(RegistryError::DuplicateLibFuncId(d.id));
        }
        match specialize_libfunc(&d.generic_id, &d.args, types) {
            Err(e) => {
                proof {
                    lemma_libfuncs_error_persists(decls@, (i + 1) as nat, decls@.len(), types@);
                }
                return Err(RegistryError::LibFuncSpecialization(d.id, e));
            },
            Ok(c) => {
                m.insert(d.id, c);
            },
        }
        i = i + 1;
    }
    Ok(m)
}

fn check_statement(
    s: &Statement,
    idx: usize,
    n_statements: usize,
    libfuncs: &HashMap<u64, CoreLibFunc>,
) -> (r: Result<(), RegistryError>)
    ensures
        r == statement_check(*s, idx, n_statements as int, libfuncs@),
{
    match s {
        Statement::Return(_) => Ok(()),
        Statement::Invocation(inv) => {
            let c = match libfuncs.get(&inv.libfunc_id) {
                Some(c) => *c,
                None => {
                    return Err(RegistryError::MissingLibFunc(idx));
                },
            };
            if inv.args.len() != c.num_inputs() {
                return Err(RegistryError::ArgumentArityMismatch(idx));
            }
            let nb = c.num_branches();
            if inv.branches.len() != nb {
                return Err(RegistryError::BranchCountMismatch(idx));
            }
            let mut j: usize = 0;
            while j < nb
                invariant
                    nb == inv.branches@.len() == branch_output_kinds(c).len(),
                    j <= nb,
                    c == libfuncs@[inv.libfunc_id],
                    statement_check(*s, idx, n_statements as int, libfuncs@)
                        == branches_check_from(inv.branches@, c, idx, n_statements as int, j as int),
                decreases nb - j,
            {
                let b = &inv.branches[j];
                if b.results.len() != c.num_outputs(j) {
                    return Err(RegistryError::ResultArityMismatch(idx));
                }
                let in_range = match b.target {
                    BranchTarget::Fallthrough => idx < n_statements && idx + 1 < n_statements,
                    BranchTarget::Statement(a) => a < n_statements,
                };
                if !in_range {
                    return Err(RegistryError::BranchTargetOutOfRange(idx));
                }
                j = j + 1;
            }
            Ok(())
        },
    }
}

fn check_function(f: &Function, k: usize, n_statements: usize, types: &HashMap<u64, TypeInfo>) -> (r:
    Result<(), RegistryError>)
    ensures
        r == function_check(*f, k, n_statements as int, types@),
{
    if f.entry >= n_statements {
        return Err(RegistryError::FunctionEntryOutOfRange(k));
    }
    let mut i: usize = 0;
    while i < f.params.len()
        invariant
            f.entry < n_statements,
            i <= f.params@.len(),
            forall|j: int| 0 <= j < i ==> types@.contains_key(f.params@[j].1),
        decreases f.params@.len() - i,
    {
        if !types.contains_key(&f.params[i].1) {
            assert(!types@.contains_key(f.params@[i as int].1));
            assert(!params_declared(*f, types@));
            return Err(RegistryError::MissingFunctionType(k));
        }
        i = i + 1;
    }
    let mut i: usize = 0;
    while i < f.ret_types.len()
        invariant
            f.entry < n_statements,
            i <= f.ret_types@.len(),
            forall|j: int| 0 <= j < f.params@.len() ==> types@.contains_key(f.params@[j].1),
            forall|j: int| 0 <= j < i ==> types@.contains_key(f.ret_types@[j]),
        decreases f.ret_types@.len() - i,
    {
        if !types.contains_key(&f.ret_types[i]) {
            assert(!types@.contains_key(f.ret_types@[i as int]));
            assert(!rets_declared(*f, types@));
            return Err(RegistryError::MissingFunctionType(k));
        }
        i = i + 1;
    }
    Ok(())
}

impl ProgramRegistry {
    /// Builds the registry of a program, or reports the first error in file
    /// order; nothing of a failed build is kept.
    pub fn new(p: &Program) -> (r: Result<ProgramRegistry, RegistryError>)
        ensures
            match r {
                Ok(reg) => registry_of(*p) == Ok::<_, RegistryError>((reg.types@, reg.libfuncs@)),
                Err(e) => registry_of(*p) == Err::<
                    (Map<u64, TypeInfo>, Map<u64, CoreLibFunc>),
                    _,
                >(e),
            },
    {
        let types = match build_types(&p.type_declarations) {
            Ok(m) => m,
            Err(e) => {
                return Err(e);
            },
        };
        let libfuncs = match build_libfuncs(&p.libfunc_declarations, &types) {
            Ok(m) => m,
            Err(e) => {
                return Err(e);
            },
        };
        let n = p.statements.len();
        let mut i: usize = 0;
        while i < n
            invariant
                n == p.statements@.len(),
                i <= n,
                types_upto(p.type_declarations@, p.type_declarations@.len()) == Ok::<
                    _,
                    RegistryError,
                >(types@),
                libfuncs_upto(p.libfunc_declarations@, p.libfunc_declarations@.len(), types@)
                    == Ok::<_, RegistryError>(libfuncs@),
                statements_check_from(p.statements@, libfuncs@, 0)
                    == statements_check_from(p.statements@, libfuncs@, i as int),
            decreases n - i,
        {
            if let Err(e) = check_statement(&p.statements[i], i, n, &libfuncs) {
                assert(statements_check_from(p.statements@, libfuncs@, i as int) == Err::<(), RegistryError>(e));
                return Err(e);
            }
            i = i + 1;
        }
        let mut k: usize = 0;
        while k < p.funcs.len()
            invariant
                n == p.statements@.len(),
                k <= p.funcs@.len(),
                types_upto(p.type_declarations@, p.type_declarations@.len()) == Ok::<
                    _,
                    RegistryError,
                >(types@),
                libfuncs_upto(p.libfunc_declarations@, p.libfunc_declarations@.len(), types@)
                    == Ok::<_, RegistryError>(libfuncs@),
                statements_check_from(p.statements@, libfuncs@, 0) == Ok::<(), RegistryError>(()),
                functions_check_from(p.funcs@, n as int, types@, 0)
                    == functions_check_from(p.funcs@, n as int, types@, k as int),
            decreases p.funcs@.len() - k,
        {
            if let Err(e) = check_function(&p.funcs[k], k, n, &types) {
                return Err(e);
            }
            k = k + 1;
        }
        Ok(ProgramRegistry { types, libfuncs })
    }
}

} // verus!
verus! {

proof fn lemma_types_upto_keys(decls: Seq<TypeDeclaration>, n: nat)
    requires
        n <= decls.len(),
        types_upto(decls, n) is Ok,
    ensures
        forall|i: int| 0 <= i < n ==> types_upto(decls, n)->Ok_0.contains_key(#[trigger] decls[i].id),
        forall|k: u64|
            types_upto(decls, n)->Ok_0.contains_key(k) ==> exists|i: int|
                0 <= i < n && (#[trigger] decls[i]).id == k,
    decreases n,
{
    if n > 0 {
        lemma_types_upto_keys(decls, (n - 1) as nat);
        let m = types_upto(decls, (n - 1) as nat)->Ok_0;
        assert forall|k: u64| types_upto(decls, n)->Ok_0.contains_key(k) implies exists|i: int|
            0 <= i < n && (#[trigger] decls[i]).id == k by {
            if k != decls[n - 1].id {
                assert(m.contains_key(k));
            }
        }
    }
}

proof fn lemma_libfuncs_upto_keys(
    decls: Seq<LibFuncDeclaration>,
    n: nat,
    types: Map<u64, TypeInfo>,
)
    requires
        n <= decls.len(),
        libfuncs_upto(decls, n, types) is Ok,
    ensures
        forall|i: int|
            0 <= i < n ==> libfuncs_upto(decls, n, types)->Ok_0.contains_key(#[trigger] decls[i].id),
        forall|k: u64|
            libfuncs_upto(decls, n, types)->Ok_0.contains_key(k) ==> exists|i: int|
                0 <= i < n && (#[trigger] decls[i]).id == k,
    decreases n,
{
    if n > 0 {
        lemma_libfuncs_upto_keys(decls, (n - 1) as nat, types);
        let m = libfuncs_upto(decls, (n - 1) as nat, types)->Ok_0;
        assert forall|k: u64| libfuncs_upto(decls, n, types)->Ok_0.contains_key(k) implies exists|
            i: int,
        | 0 <= i < n && (#[trigger] decls[i]).id == k by {
            if k != decls[n - 1].id {
                assert(m.contains_key(k));
            }
        }
    }
}

proof fn lemma_statement_ok_from_all(ss: Seq<Statement>, libfuncs: Map<u64, CoreLibFunc>, k: int, i: int)
    requires
        0 <= k <= i < ss.len(),
        statements_check_from(ss, libfuncs, k) is Ok,
    ensures
        statement_check(ss[i], i as usize, ss.len() as int, libfuncs) is Ok,
    decreases i - k,
{
    if k < i {
        lemma_statement_ok_from_all(ss, libfuncs, k + 1, i);
    }
}

proof fn lemma_statement_err_fails_all(ss: Seq<Statement>, libfuncs: Map<u64, CoreLibFunc>, k: int, i: int)
    requires
        0 <= k <= i < ss.len(),
        statement_check(ss[i], i as usize, ss.len() as int, libfuncs) is Err,
    ensures
        statements_check_from(ss, libfuncs, k) is Err,
    decreases i - k,
{
    if k < i {
        lemma_statement_err_fails_all(ss, libfuncs, k + 1, i);
    }
}

proof fn lemma_branch_ok_from_all(
    bs: Seq<BranchInfo>,
    c: CoreLibFunc,
    idx: usize,
    n: int,
    k: int,
    j: int,
)
    requires
        0 <= k <= j < bs.len(),
        branches_check_from(bs, c, idx, n, k) is Ok,
    ensures
        branch_check(bs[j], branch_output_kinds(c)[j].len() as int, idx, n) is Ok,
    decreases j - k,
{
    if k < j {
        lemma_branch_ok_from_all(bs, c, idx, n, k + 1, j);
    }
}

/// A program whose registry builds has unique declared ids, a resolved entry
/// for every one of them and for nothing else, and statements whose arity
/// matches the signatures of the libfuncs they invoke: the number of
/// arguments, the number of branches, and the number of results on each
/// branch.
pub proof fn lemma_registry_ok_is_well_formed(p: Program)
    requires
        registry_of(p) is Ok,
    ensures
        ({
            let (types, libfuncs) = registry_of(p)->Ok_0;
            let tds = p.type_declarations@;
            let lds = p.libfunc_declarations@;
            &&& forall|i: int, j: int|
                0 <= i < j < tds.len() ==> (#[trigger] tds[i]).id != (#[trigger] tds[j]).id
            &&& forall|i: int, j: int|
                0 <= i < j < lds.len() ==> (#[trigger] lds[i]).id != (#[trigger] lds[j]).id
            &&& forall|i: int| 0 <= i < tds.len() ==> types.contains_key(#[trigger] tds[i].id)
            &&& forall|i: int| 0 <= i < lds.len() ==> libfuncs.contains_key(#[trigger] lds[i].id)
            &&& forall|k: u64|
                #[trigger] types.contains_key(k) ==> exists|i: int| 0 <= i < tds.len() && tds[i].id == k
            &&& forall|k: u64|
                #[trigger] libfuncs.contains_key(k) ==> exists|i: int|
                    0 <= i < lds.len() && lds[i].id == k
            &&& forall|i: int|
                0 <= i < p.statements@.len() && (#[trigger] p.statements@[i]) is Invocation ==> {
                    let inv = p.statements@[i]->Invocation_0;
                    &&& libfuncs.contains_key(inv.libfunc_id)
                    &&& inv.args@.len() == input_kinds(libfuncs[inv.libfunc_id]).len()
                    &&& inv.branches@.len() == branch_output_kinds(libfuncs[inv.libfunc_id]).len()
                    &&& forall|j: int|
                        0 <= j < inv.branches@.len() ==> (#[trigger] inv.branches@[j]).results@.len()
                            == branch_output_kinds(libfuncs[inv.libfunc_id])[j].len()
                }
        }),
{
    let tds = p.type_declarations@;
    let lds = p.libfunc_declarations@;
    let types = types_upto(tds, tds.len())->Ok_0;
    let libfuncs = libfuncs_upto(lds, lds.len(), types)->Ok_0;
    lemma_types_upto_keys(tds, tds.len());
    lemma_libfuncs_upto_keys(lds, lds.len(), types);
    assert forall|i: int, j: int| 0 <= i < j < tds.len() implies (#[trigger] tds[i]).id != (
    #[trigger] tds[j]).id by {
        if tds[i].id == tds[j].id {
            if types_upto(tds, j as nat) is Err {
                lemma_types_error_persists(tds, j as nat, tds.len());
            } else {
                lemma_types_upto_keys(tds, j as nat);
                lemma_types_error_persists(tds, (j + 1) as nat, tds.len());
            }
        }
    }
    assert forall|i: int, j: int| 0 <= i < j < lds.len() implies (#[trigger] lds[i]).id != (
    #[trigger] lds[j]).id by {
        if lds[i].id == lds[j].id {
            if libfuncs_upto(lds, j as nat, types) is Err {
                lemma_libfuncs_error_persists(lds, j as nat, lds.len(), types);
            } else {
                lemma_libfuncs_upto_keys(lds, j as nat, types);
                lemma_libfuncs_error_persists(lds, (j + 1) as nat, lds.len(), types);
            }
        }
    }
    assert forall|i: int|
        0 <= i < p.statements@.len() && (#[trigger] p.statements@[i]) is Invocation implies {
        let inv = p.statements@[i]->Invocation_0;
        &&& libfuncs.contains_key(inv.libfunc_id)
        &&& inv.args@.len() == input_kinds(libfuncs[inv.libfunc_id]).len()
        &&& inv.branches@.len() == branch_output_kinds(libfuncs[inv.libfunc_id]).len()
        &&& forall|j: int|
            0 <= j < inv.branches@.len() ==> (#[trigger] inv.branches@[j]).results@.len()
                == branch_output_kinds(libfuncs[inv.libfunc_id])[j].len()
    } by {
        lemma_statement_ok_from_all(p.statements@, libfuncs, 0, i);
        let inv = p.statements@[i]->Invocation_0;
        let c = libfuncs[inv.libfunc_id];
        assert forall|j: int| 0 <= j < inv.branches@.len() implies (
        #[trigger] inv.branches@[j]).results@.len() == branch_output_kinds(c)[j].len() by {
            lemma_branch_ok_from_all(
                inv.branches@,
                c,
                i as usize,
                p.statements@.len() as int,
                0,
                j,
            );
        }
    }
}

/// A registry cannot be built for a program that declares a type id twice.
pub proof fn lemma_duplicate_type_id_fails(p: Program, i: int, j: int)
    requires
        0 <= i < j < p.type_declarations@.len(),
        p.type_declarations@[i].id == p.type_declarations@[j].id,
    ensures
        registry_of(p) is Err,
{
    if registry_of(p) is Ok {
        lemma_registry_ok_is_well_formed(p);
        let tds = p.type_declarations@;
        assert(tds[i].id != tds[j].id);
    }
}

/// A registry cannot be built for a program that declares a libfunc id twice.
pub proof fn lemma_duplicate_libfunc_id_fails(p: Program, i: int, j: int)
    requires
        0 <= i < j < p.libfunc_declarations@.len(),
        p.libfunc_declarations@[i].id == p.libfunc_declarations@[j].id,
    ensures
        registry_of(p) is Err,
{
    if registry_of(p) is Ok {
        lemma_registry_ok_is_well_formed(p);
        let lds = p.libfunc_declarations@;
        assert(lds[i].id != lds[j].id);
    }
}

/// A registry cannot be built for a program with a statement that invokes a
/// libfunc id that no declaration introduces.
pub proof fn lemma_undeclared_libfunc_fails(p: Program, i: int)
    requires
        0 <= i < p.statements@.len(),
        p.statements@[i] is Invocation,
        forall|j: int|
            0 <= j < p.libfunc_declarations@.len() ==> (#[trigger] p.libfunc_declarations@[j]).id
                != p.statements@[i]->Invocation_0.libfunc_id,
    ensures
        registry_of(p) is Err,
{
    if registry_of(p) is Ok {
        lemma_registry_ok_is_well_formed(p);
        let libfuncs = registry_of(p)->Ok_0.1;
        let id = p.statements@[i]->Invocation_0.libfunc_id;
        assert(libfuncs.contains_key(id));
    }
}

proof fn lemma_branch_err_fails_all(
    bs: Seq<BranchInfo>,
    c: CoreLibFunc,
    idx: usize,
    n: int,
    k: int,
    j: int,
)
    requires
        0 <= k <= j < bs.len(),
        branch_check(bs[j], branch_output_kinds(c)[j].len() as int, idx, n) is Err,
    ensures
        branches_check_from(bs, c, idx, n, k) is Err,
    decreases j - k,
{
    if k < j {
        lemma_branch_err_fails_all(bs, c, idx, n, k + 1, j);
    }
}

/// Once every declaration resolves, a statement that invokes a declared
/// libfunc with the wrong number of arguments, the wrong number of branches,
/// or the wrong number of results on some branch makes the build fail.
pub proof fn lemma_arity_mismatch_fails(p: Program, i: int)
    requires
        types_upto(p.type_declarations@, p.type_declarations@.len()) is Ok,
        libfuncs_upto(
            p.libfunc_declarations@,
            p.libfunc_declarations@.len(),
            types_upto(p.type_declarations@, p.type_declarations@.len())->Ok_0,
        ) is Ok,
        0 <= i < p.statements@.len(),
        p.statements@[i] is Invocation,
        ({
            let types = types_upto(p.type_declarations@, p.type_declarations@.len())->Ok_0;
            let libfuncs = libfuncs_upto(
                p.libfunc_declarations@,
                p.libfunc_declarations@.len(),
                types,
            )->Ok_0;
            let inv = p.statements@[i]->Invocation_0;
            libfuncs.contains_key(inv.libfunc_id) && {
                let c = libfuncs[inv.libfunc_id];
                ||| inv.args@.len() != input_kinds(c).len()
                ||| inv.branches@.len() != branch_output_kinds(c).len()
                ||| exists|j: int|
                    0 <= j < inv.branches@.len() && j < branch_output_kinds(c).len()
                        && (#[trigger] inv.branches@[j]).results@.len()
                        != branch_output_kinds(c)[j].len()
            }
        }),
    ensures
        registry_of(p) is Err,
{
    let types = types_upto(p.type_declarations@, p.type_declarations@.len())->Ok_0;
    let libfuncs = libfuncs_upto(
        p.libfunc_declarations@,
        p.libfunc_declarations@.len(),
        types,
    )->Ok_0;
    let ss = p.statements@;
    let inv = ss[i]->Invocation_0;
    let c = libfuncs[inv.libfunc_id];
    if inv.args@.len() == input_kinds(c).len() && inv.branches@.len() == branch_output_kinds(
        c,
    ).len() {
        let j = choose|j: int|
            0 <= j < inv.branches@.len() && j < branch_output_kinds(c).len()
                && (#[trigger] inv.branches@[j]).results@.len() != branch_output_kinds(c)[j].len();
        lemma_branch_err_fails_all(inv.branches@, c, i as usize, ss.len() as int, 0, j);
    }
    assert(statement_check(ss[i], i as usize, ss.len() as int, libfuncs) is Err);
    lemma_statement_err_fails_all(ss, libfuncs, 0, i);
}

} // verus!
