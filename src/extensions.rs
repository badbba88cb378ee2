//! The closed set of extension families: each resolves the generic arguments
//! of a declaration into concrete information.
use vstd::prelude::*;
use std::collections::HashMap;
use crate::program::GenericArg;

verus! {

broadcast use vstd::std_specs::hash::group_hash_axioms;

/// The kind of datum a concrete type holds at run time.
#[derive(Clone, Copy, PartialEq, Eq, Structural, Debug)]
pub enum ValueKind {
    Int,
    Gas,
    NonZeroInt,
}

/// What the registry knows of a concrete type.
#[derive(Clone, Copy, PartialEq, Eq, Structural, Debug)]
pub struct TypeInfo {
    pub kind: ValueKind,
    /// Storage size, in cells.
    pub size: u64,
    /// Whether the type may be duplicated (by an explicit instruction).
    pub duplicatable: bool,
    /// Whether the type may be dropped (by an explicit instruction).
    pub droppable: bool,
}

/// Why a declaration could not be specialized.
#[derive(Clone, Copy, PartialEq, Eq, Structural, Debug)]
pub enum SpecializationError {
    UnsupportedId,
    WrongNumberOfGenericArgs,
    UnsupportedGenericArg,
    MissingTypeDependency,
}

/// The type families, dispatched by their generic name.
#[derive(Clone, Copy, PartialEq, Eq, Structural, Debug)]
pub enum TypeFamily {
    Int,
    GasBuiltin,
    NonZero,
}

/// Integer operations with a constant right operand.
#[derive(Clone, Copy, PartialEq, Eq, Structural, Debug)]
pub enum IntOperator {
    Add,
    Sub,
    Mul,
    Div,
    Mod,
}

/// The libfunc families, dispatched by their generic name.
#[derive(Clone, Copy, PartialEq, Eq, Structural, Debug)]
pub enum LibFuncFamily {
    StoreTemp,
    AlignTemps,
    IntConst,
    IntOp(IntOperator),
    IntDup,
    IntIgnore,
    IntJumpNz,
    UnwrapNz,
    GetGas,
    RefundGas,
    Jump,
}

/// A concrete libfunc: a family with its generic arguments resolved.
#[derive(Clone, Copy, PartialEq, Eq, Structural, Debug)]
pub enum CoreLibFunc {
    /// Moves a value of the given kind to temporary storage.
    StoreTemp(ValueKind),
    /// Aligns temporary storage for the given kind; no inputs, no outputs.
    AlignTemps(ValueKind),
    /// Produces the constant.
    IntConst(i64),
    /// Applies the operator with the constant as right operand.
    IntOp(IntOperator, i64),
    /// Duplicates an integer.
    IntDup,
    /// Drops an integer.
    IntIgnore,
    /// Branches on an integer: non-zero to the first branch, wrapped; zero to the second.
    IntJumpNz,
    /// Unwraps a non-zero integer into a plain one.
    UnwrapNz,
    /// Deducts the amount from the gas counter when it suffices (first
    /// branch); otherwise leaves it untouched (second branch).
    GetGas(i64),
    /// Adds the amount back to the gas counter.
    RefundGas(i64),
    /// Unconditional jump.
    Jump,
}

pub open spec fn type_info_of(kind: ValueKind) -> TypeInfo {
    match kind {
        ValueKind::Gas => TypeInfo { kind, size: 1, duplicatable: false, droppable: false },
        _ => TypeInfo { kind, size: 1, duplicatable: true, droppable: true },
    }
}

pub open spec fn type_family_of(name: Seq<char>) -> Option<TypeFamily> {
    if name == "int"@ {
        Some(TypeFamily::Int)
    } else if name == "GasBuiltin"@ {
        Some(TypeFamily::GasBuiltin)
    } else if name == "NonZero"@ {
        Some(TypeFamily::NonZero)
    } else {
        None
    }
}

pub open spec fn libfunc_family_of(name: Seq<char>) -> Option<LibFuncFamily> {
    if name == "store_temp"@ {
        Some(LibFuncFamily::StoreTemp)
    } else if name == "align_temps"@ {
        Some(LibFuncFamily::AlignTemps)
    } else if name == "int_const"@ {
        Some(LibFuncFamily::IntConst)
    } else if name == "int_add"@ {
        Some(LibFuncFamily::IntOp(IntOperator::Add))
    } else if name == "int_sub"@ {
        Some(LibFuncFamily::IntOp(IntOperator::Sub))
    } else if name == "int_mul"@ {
        Some(LibFuncFamily::IntOp(IntOperator::Mul))
    } else if name == "int_div"@ {
        Some(LibFuncFamily::IntOp(IntOperator::Div))
    } else if name == "int_mod"@ {
        Some(LibFuncFamily::IntOp(IntOperator::Mod))
    } else if name == "int_dup"@ {
        Some(LibFuncFamily::IntDup)
    } else if name == "int_ignore"@ {
        Some(LibFuncFamily::IntIgnore)
    } else if name == "int_jump_nz"@ {
        Some(LibFuncFamily::IntJumpNz)
    } else if name == "unwrap_nz"@ {
        Some(LibFuncFamily::UnwrapNz)
    } else if name == "get_gas"@ {
        Some(LibFuncFamily::GetGas)
    } else if name == "refund_gas"@ {
        Some(LibFuncFamily::RefundGas)
    } else if name == "jump"@ {
        Some(LibFuncFamily::Jump)
    } else {
        None
    }
}

/// The kind named by a single type argument, if it names a known type.
pub open spec fn type_arg_kind(
    args: Seq<GenericArg>,
    known: Map<u64, TypeInfo>,
) -> Result<ValueKind, SpecializationError> {
    if args.len() != 1 {
        Err(SpecializationError::WrongNumberOfGenericArgs)
    } else {
        match args[0] {
            GenericArg::Type(t) => if known.contains_key(t) {
                Ok(known[t].kind)
            } else {
                Err(SpecializationError::MissingTypeDependency)
            },
            GenericArg::Value(_) => Err(SpecializationError::UnsupportedGenericArg),
        }
    }
}

/// The value of a single literal argument.
pub open spec fn value_arg(args: Seq<GenericArg>) -> Result<i64, SpecializationError> {
    if args.len() != 1 {
        Err(SpecializationError::WrongNumberOfGenericArgs)
    } else {
        match args[0] {
            GenericArg::Value(v) => Ok(v),
            GenericArg::Type(_) => Err(SpecializationError::UnsupportedGenericArg),
        }
    }
}

/// What a type declaration resolves to, given the types declared before it.
pub open spec fn specialize_type_spec(
    name: Seq<char>,
    args: Seq<GenericArg>,
    known: Map<u64, TypeInfo>,
) -> Result<TypeInfo, SpecializationError> {
    match type_family_of(name) {
        None => Err(SpecializationError::UnsupportedId),
        Some(TypeFamily::Int) => if args.len() != 0 {
            Err(SpecializationError::WrongNumberOfGenericArgs)
        } else {
            Ok(type_info_of(ValueKind::Int))
        },
        Some(TypeFamily::GasBuiltin) => if args.len() != 0 {
            Err(SpecializationError::WrongNumberOfGenericArgs)
        } else {
            Ok(type_info_of(ValueKind::Gas))
        },
        Some(TypeFamily::NonZero) => match type_arg_kind(args, known) {
            Err(e) => Err(e),
            Ok(ValueKind::Int) => Ok(type_info_of(ValueKind::NonZeroInt)),
            Ok(_) => Err(SpecializationError::UnsupportedGenericArg),
        },
    }
}

/// A family that takes no generic arguments.
pub open spec fn nullary(args: Seq<GenericArg>, c: CoreLibFunc) -> Result<
    CoreLibFunc,
    SpecializationError,
> {
    if args.len() != 0 {
        Err(SpecializationError::WrongNumberOfGenericArgs)
    } else {
        Ok(c)
    }
}

/// What a libfunc declaration resolves to, given the declared types.
pub open spec fn specialize_libfunc_spec(
    name: Seq<char>,
    args: Seq<GenericArg>,
    known: Map<u64, TypeInfo>,
) -> Result<CoreLibFunc, SpecializationError> {
    match libfunc_family_of(name) {
        None => Err(SpecializationError::UnsupportedId),
        Some(LibFuncFamily::StoreTemp) => match type_arg_kind(args, known) {
            Err(e) => Err(e),
            Ok(k) => Ok(CoreLibFunc::StoreTemp(k)),
        },
        Some(LibFuncFamily::AlignTemps) => match type_arg_kind(args, known) {
            Err(e) => Err(e),
            Ok(k) => Ok(CoreLibFunc::AlignTemps(k)),
        },
        Some(LibFuncFamily::IntConst) => match value_arg(args) {
            Err(e) => Err(e),
            Ok(v) => Ok(CoreLibFunc::IntConst(v)),
        },
        Some(LibFuncFamily::IntOp(op)) => match value_arg(args) {
            Err(e) => Err(e),
            Ok(v) => Ok(CoreLibFunc::IntOp(op, v)),
        },
        Some(LibFuncFamily::IntDup) => nullary(args, CoreLibFunc::IntDup),
        Some(LibFuncFamily::IntIgnore) => nullary(args, CoreLibFunc::IntIgnore),
        Some(LibFuncFamily::IntJumpNz) => nullary(args, CoreLibFunc::IntJumpNz),
        Some(LibFuncFamily::UnwrapNz) => match type_arg_kind(args, known) {
            Err(e) => Err(e),
            Ok(ValueKind::Int) => Ok(CoreLibFunc::UnwrapNz),
            Ok(_) => Err(SpecializationError::UnsupportedGenericArg),
        },
        Some(LibFuncFamily::GetGas) => match value_arg(args) {
            Err(e) => Err(e),
            Ok(v) => if v < 0 {
                Err(SpecializationError::UnsupportedGenericArg)
            } else {
                Ok(CoreLibFunc::GetGas(v))
            },
        },
        Some(LibFuncFamily::RefundGas) => match value_arg(args) {
            Err(e) => Err(e),
            Ok(v) => if v < 0 {
                Err(SpecializationError::UnsupportedGenericArg)
            } else {
                Ok(CoreLibFunc::RefundGas(v))
            },
        },
        Some(LibFuncFamily::Jump) => nullary(args, CoreLibFunc::Jump),
    }
}

/// The kinds of a libfunc's inputs, in order.
pub open spec fn input_kinds(c: CoreLibFunc) -> Seq<ValueKind> {
    match c {
        CoreLibFunc::StoreTemp(k) => seq![k],
        CoreLibFunc::IntOp(_, _) | CoreLibFunc::IntDup | CoreLibFunc::IntIgnore
        | CoreLibFunc::IntJumpNz => seq![ValueKind::Int],
        CoreLibFunc::UnwrapNz => seq![ValueKind::NonZeroInt],
        CoreLibFunc::GetGas(_) | CoreLibFunc::RefundGas(_) => seq![ValueKind::Gas],
        _ => seq![],
    }
}

/// The kinds of a libfunc's outputs, for each of its branches.
pub open spec fn branch_output_kinds(c: CoreLibFunc) -> Seq<Seq<ValueKind>> {
    match c {
        CoreLibFunc::StoreTemp(k) => seq![seq![k]],
        CoreLibFunc::IntConst(_) | CoreLibFunc::IntOp(_, _) | CoreLibFunc::UnwrapNz => seq![
            seq![ValueKind::Int],
        ],
        CoreLibFunc::IntDup => seq![seq![ValueKind::Int, ValueKind::Int]],
        CoreLibFunc::IntJumpNz => seq![seq![ValueKind::NonZeroInt], seq![]],
        CoreLibFunc::GetGas(_) => seq![seq![ValueKind::Gas], seq![ValueKind::Gas]],
        CoreLibFunc::RefundGas(_) => seq![seq![ValueKind::Gas]],
        _ => seq![seq![]],
    }
}

fn name_is(name: &String, lit: &str) -> (r: bool)
    ensures
        r == (name@ == lit@),
{
    *name == lit.to_owned()
}

/// Resolves a type family by name.
pub fn type_family(name: &String) -> (r: Option<TypeFamily>)
    ensures
        r == type_family_of(name@),
{
    if name_is(name, "int") {
        Some(TypeFamily::Int)
    } else if name_is(name, "GasBuiltin") {
        Some(TypeFamily::GasBuiltin)
    } else if name_is(name, "NonZero") {
        Some(TypeFamily::NonZero)
    } else {
        None
    }
}

/// Resolves a libfunc family by name.
pub fn libfunc_family(name: &String) -> (r: Option<LibFuncFamily>)
    ensures
        r == libfunc_family_of(name@),
{
    if name_is(name, "store_temp") {
        Some(LibFuncFamily::StoreTemp)
    } else if name_is(name, "align_temps") {
        Some(LibFuncFamily::AlignTemps)
    } else if name_is(name, "int_const") {
        Some(LibFuncFamily::IntConst)
    } else if name_is(name, "int_add") {
        Some(LibFuncFamily::IntOp(IntOperator::Add))
    } else if name_is(name, "int_sub") {
        Some(LibFuncFamily::IntOp(IntOperator::Sub))
    } else if name_is(name, "int_mul") {
        Some(LibFuncFamily::IntOp(IntOperator::Mul))
    } else if name_is(name, "int_div") {
        Some(LibFuncFamily::IntOp(IntOperator::Div))
    } else if name_is(name, "int_mod") {
        Some(LibFuncFamily::IntOp(IntOperator::Mod))
    } else if name_is(name, "int_dup") {
        Some(LibFuncFamily::IntDup)
    } else if name_is(name, "int_ignore") {
        Some(LibFuncFamily::IntIgnore)
    } else if name_is(name, "int_jump_nz") {
        Some(LibFuncFamily::IntJumpNz)
    } else if name_is(name, "unwrap_nz") {
        Some(LibFuncFamily::UnwrapNz)
    } else if name_is(name, "get_gas") {
        Some(LibFuncFamily::GetGas)
    } else if name_is(name, "refund_gas") {
        Some(LibFuncFamily::RefundGas)
    } else if name_is(name, "jump") {
        Some(LibFuncFamily::Jump)
    } else {
        None
    }
}

fn info_of(kind: ValueKind) -> (r: TypeInfo)
    ensures
        r == type_info_of(kind),
{
    match kind {
        ValueKind::Gas => TypeInfo { kind, size: 1, duplicatable: false, droppable: false },
        _ => TypeInfo { kind, size: 1, duplicatable: true, droppable: true },
    }
}

fn get_type_arg_kind(args: &Vec<GenericArg>, known: &HashMap<u64, TypeInfo>) -> (r: Result<
    ValueKind,
    SpecializationError,
>)
    ensures
        r == type_arg_kind(args@, known@),
{
    if args.len() != 1 {
        return Err(SpecializationError::WrongNumberOfGenericArgs);
    }
    match args[0] {
        GenericArg::Type(t) => match known.get(&t) {
            Some(info) => Ok(info.kind),
            None => Err(SpecializationError::MissingTypeDependency),
        },
        GenericArg::Value(_) => Err(SpecializationError::UnsupportedGenericArg),
    }
}

fn get_value_arg(args: &Vec<GenericArg>) -> (r: Result<i64, SpecializationError>)
    ensures
        r == value_arg(args@),
{
    if args.len() != 1 {
        return Err(SpecializationError::WrongNumberOfGenericArgs);
    }
    match args[0] {
        GenericArg::Value(v) => Ok(v),
        GenericArg::Type(_) => Err(SpecializationError::UnsupportedGenericArg),
    }
}

/// Resolves a type declaration against the types declared before it.
pub fn specialize_type(
    name: &String,
    args: &Vec<GenericArg>,
    known: &HashMap<u64, TypeInfo>,
) -> (r: Result<TypeInfo, SpecializationError>)
    ensures
        r == specialize_type_spec(name@, args@, known@),
{
    match type_family(name) {
        None => Err(SpecializationError::UnsupportedId),
        Some(TypeFamily::Int) => if args.len() != 0 {
            Err(SpecializationError::WrongNumberOfGenericArgs)
        } else {
            Ok(info_of(ValueKind::Int))
        },
        Some(TypeFamily::GasBuiltin) => if args.len() != 0 {
            Err(SpecializationError::WrongNumberOfGenericArgs)
        } else {
            Ok(info_of(ValueKind::Gas))
        },
        Some(TypeFamily::NonZero) => match get_type_arg_kind(args, known) {
            Err(e) => Err(e),
            Ok(ValueKind::Int) => Ok(info_of(ValueKind::NonZeroInt)),
            Ok(_) => Err(SpecializationError::UnsupportedGenericArg),
        },
    }
}

fn check_nullary(args: &Vec<GenericArg>, c: CoreLibFunc) -> (r: Result<
    CoreLibFunc,
    SpecializationError,
>)
    ensures
        r == nullary(args@, c),
{
    if args.len() != 0 {
        Err(SpecializationError::WrongNumberOfGenericArgs)
    } else {
        Ok(c)
    }
}

/// Resolves a libfunc declaration against the declared types.
pub fn specialize_libfunc(
    name: &String,
    args: &Vec<GenericArg>,
    known: &HashMap<u64, TypeInfo>,
) -> (r: Result<CoreLibFunc, SpecializationError>)
    ensures
        r == specialize_libfunc_spec(name@, args@, known@),
{
    match libfunc_family(name) {
        None => Err(SpecializationError::UnsupportedId),
        Some(LibFuncFamily::StoreTemp) => match get_type_arg_kind(args, known) {
            Err(e) => Err(e),
            Ok(k) => Ok(CoreLibFunc::StoreTemp(k)),
        },
        Some(LibFuncFamily::AlignTemps) => match get_type_arg_kind(args, known) {
            Err(e) => Err(e),
            Ok(k) => Ok(CoreLibFunc::AlignTemps(k)),
        },
        Some(LibFuncFamily::IntConst) => match get_value_arg(args) {
            Err(e) => Err(e),
            Ok(v) => Ok(CoreLibFunc::IntConst(v)),
        },
        Some(LibFuncFamily::IntOp(op)) => match get_value_arg(args) {
            Err(e) => Err(e),
            Ok(v) => Ok(CoreLibFunc::IntOp(op, v)),
        },
        Some(LibFuncFamily::IntDup) => check_nullary(args, CoreLibFunc::IntDup),
        Some(LibFuncFamily::IntIgnore) => check_nullary(args, CoreLibFunc::IntIgnore),
        Some(LibFuncFamily::IntJumpNz) => check_nullary(args, CoreLibFunc::IntJumpNz),
        Some(LibFuncFamily::UnwrapNz) => match get_type_arg_kind(args, known) {
            Err(e) => Err(e),
            Ok(ValueKind::Int) => Ok(CoreLibFunc::UnwrapNz),
            Ok(_) => Err(SpecializationError::UnsupportedGenericArg),
        },
        Some(LibFuncFamily::GetGas) => match get_value_arg(args) {
            Err(e) => Err(e),
            Ok(v) => if v < 0 {
                Err(SpecializationError::UnsupportedGenericArg)
            } else {
                Ok(CoreLibFunc::GetGas(v))
            },
        },
        Some(LibFuncFamily::RefundGas) => match get_value_arg(args) {
            Err(e) => Err(e),
            Ok(v) => if v < 0 {
                Err(SpecializationError::UnsupportedGenericArg)
            } else {
                Ok(CoreLibFunc::RefundGas(v))
            },
        },
        Some(LibFuncFamily::Jump) => check_nullary(args, CoreLibFunc::Jump),
    }
}

impl CoreLibFunc {
    /// The number of inputs the libfunc takes.
    pub fn num_inputs(&self) -> (r: usize)
        ensures
            r == input_kinds(*self).len(),
    {
        match self {
            CoreLibFunc::StoreTemp(_) | CoreLibFunc::IntOp(_, _) | CoreLibFunc::IntDup
            | CoreLibFunc::IntIgnore | CoreLibFunc::IntJumpNz | CoreLibFunc::UnwrapNz
            | CoreLibFunc::GetGas(_) | CoreLibFunc::RefundGas(_) => 1,
            _ => 0,
        }
    }

    /// The number of branches the libfunc may take.
    pub fn num_branches(&self) -> (r: usize)
        ensures
            r == branch_output_kinds(*self).len(),
    {
        match self {
            CoreLibFunc::IntJumpNz | CoreLibFunc::GetGas(_) => 2,
            _ => 1,
        }
    }

    /// The number of outputs of the given branch.
    pub fn num_outputs(&self, branch: usize) -> (r: usize)
        requires
            branch < branch_output_kinds(*self).len(),
        ensures
            r == branch_output_kinds(*self)[branch as int].len(),
    {
        match self {
            CoreLibFunc::StoreTemp(_) | CoreLibFunc::IntConst(_) | CoreLibFunc::IntOp(_, _)
            | CoreLibFunc::UnwrapNz | CoreLibFunc::GetGas(_) | CoreLibFunc::RefundGas(_) => 1,
            CoreLibFunc::IntDup => 2,
            CoreLibFunc::IntJumpNz => if branch == 0 {
                1
            } else {
                0
            },
            _ => 0,
        }
    }
}

} // verus!
verus! {

/// The number of generic arguments a type family takes.
pub open spec fn type_family_arity(f: TypeFamily) -> nat {
    match f {
        TypeFamily::NonZero => 1,
        _ => 0,
    }
}

/// The number of generic arguments a libfunc family takes.
pub open spec fn libfunc_family_arity(f: LibFuncFamily) -> nat {
    match f {
        LibFuncFamily::IntDup | LibFuncFamily::IntIgnore | LibFuncFamily::IntJumpNz
        | LibFuncFamily::Jump => 0,
        _ => 1,
    }
}

/// Whether a libfunc family takes a literal value (rather than a type) as
/// its single generic argument.
pub open spec fn takes_value_arg(f: LibFuncFamily) -> bool {
    match f {
        LibFuncFamily::IntConst | LibFuncFamily::IntOp(_) | LibFuncFamily::GetGas
        | LibFuncFamily::RefundGas => true,
        _ => false,
    }
}

/// Malformed generic arguments never specialize: a type declaration with the
/// wrong number of arguments for its family fails with
/// `WrongNumberOfGenericArgs`, and one whose argument is a value where a type
/// is expected fails with `UnsupportedGenericArg`.
pub proof fn lemma_malformed_type_args_fail(
    name: Seq<char>,
    args: Seq<GenericArg>,
    known: Map<u64, TypeInfo>,
)
    requires
        type_family_of(name) is Some,
    ensures
        args.len() != type_family_arity(type_family_of(name)->Some_0) ==> specialize_type_spec(
            name,
            args,
            known,
        ) == Err::<TypeInfo, _>(SpecializationError::WrongNumberOfGenericArgs),
        args.len() == type_family_arity(type_family_of(name)->Some_0) && args.len() == 1
            && args[0] is Value ==> specialize_type_spec(name, args, known) == Err::<TypeInfo, _>(
            SpecializationError::UnsupportedGenericArg,
        ),
{
}

/// Malformed generic arguments never specialize: a libfunc declaration with
/// the wrong number of arguments for its family fails with
/// `WrongNumberOfGenericArgs`, and one whose single argument has the wrong
/// kind (a type for a value, or a value for a type) fails with
/// `UnsupportedGenericArg`.
pub proof fn lemma_malformed_libfunc_args_fail(
    name: Seq<char>,
    args: Seq<GenericArg>,
    known: Map<u64, TypeInfo>,
)
    requires
        libfunc_family_of(name) is Some,
    ensures
        args.len() != libfunc_family_arity(libfunc_family_of(name)->Some_0)
            ==> specialize_libfunc_spec(name, args, known) == Err::<CoreLibFunc, _>(
            SpecializationError::WrongNumberOfGenericArgs,
        ),
        args.len() == 1 && libfunc_family_arity(libfunc_family_of(name)->Some_0) == 1 && (
        args[0] is Value) != takes_value_arg(libfunc_family_of(name)->Some_0)
            ==> specialize_libfunc_spec(name, args, known) == Err::<CoreLibFunc, _>(
            SpecializationError::UnsupportedGenericArg,
        ),
{
}

} // verus!
