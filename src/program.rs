//! The program model: declarations, statements and function entry points.
use vstd::prelude::*;

verus! {

/// A generic argument as written in a declaration: a reference to an earlier
/// declared concrete type, or a literal value.
#[derive(Clone, Copy, PartialEq, Eq, Structural, Debug)]
pub enum GenericArg {
    Type(u64),
    Value(i64),
}

/// `type <id> = <generic_id><args>;`
pub struct TypeDeclaration {
    pub id: u64,
    pub generic_id: String,
    pub args: Vec<GenericArg>,
}

/// `libfunc <id> = <generic_id><args>;`
pub struct LibFuncDeclaration {
    pub id: u64,
    pub generic_id: String,
    pub args: Vec<GenericArg>,
}

/// Where execution continues after a branch is taken.
#[derive(Clone, Copy, PartialEq, Eq, Structural, Debug)]
pub enum BranchTarget {
    /// The statement right after the current one.
    Fallthrough,
    /// The statement at the given address.
    Statement(usize),
}

/// One branch of an invocation: its target and the variables that the
/// branch's outputs are bound to, in order.
pub struct BranchInfo {
    pub target: BranchTarget,
    pub results: Vec<u64>,
}

/// A call of a concrete libfunc on the given variables.
pub struct Invocation {
    pub libfunc_id: u64,
    pub args: Vec<u64>,
    pub branches: Vec<BranchInfo>,
}

/// A statement of a program.
pub enum Statement {
    Invocation(Invocation),
    /// Ends the function, handing back the given variables.
    Return(Vec<u64>),
}

/// The name of a function entry point.
pub struct FunctionId {
    pub name: String,
}

impl FunctionId {
    pub fn new(name: String) -> (r: FunctionId)
        ensures
            r.name@ == name@,
    {
        FunctionId { name }
    }
}

/// A function: its name, its first statement, its parameters (variable and
/// type) and its return types.
pub struct Function {
    pub id: FunctionId,
    pub entry: usize,
    pub params: Vec<(u64, u64)>,
    pub ret_types: Vec<u64>,
}

/// A whole program in file order.
pub struct Program {
    pub type_declarations: Vec<TypeDeclaration>,
    pub libfunc_declarations: Vec<LibFuncDeclaration>,
    pub statements: Vec<Statement>,
    pub funcs: Vec<Function>,
}

} // verus!
