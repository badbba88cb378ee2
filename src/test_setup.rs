//! The text-building and checking steps of setting up a test module,
//! function, expression or block: how the source text is composed, how the
//! diagnostics are reported, and when a parsed block is a single expression.
use vstd::prelude::*;
use vstd::string::StringExecFns;

verus! {

/// Why a test block is not a single expression.
#[derive(Clone, Copy, PartialEq, Eq, Structural, Debug)]
pub enum ExprError {
    /// The block holds statements besides its tail.
    NotAnExpression,
    /// The block has no tail expression.
    MissingTail,
}

/// The content of a test module: the function code, preceded by the extra
/// module code and a newline when there is any.
pub fn test_module_content(function_code: &str, module_code: &str) -> (r: String)
    ensures
        r@ == if module_code@.len() == 0 {
            function_code@
        } else {
            module_code@ + "\n"@ + function_code@
        },
{
    if module_code.is_empty() {
        function_code.to_owned()
    } else {
        let mut r = module_code.to_owned();
        r.append("\n");
        r.append(function_code);
        r
    }
}

/// The code of the test function `test_func` that wraps an expression in a
/// block after the extra function body.
pub fn test_expr_function_code(expr_code: &str, function_body: &str) -> (r: String)
    ensures
        r@ == "func test_func() { "@ + function_body@ + " {\n"@ + expr_code@ + "\n} }"@,
{
    let mut r = "func test_func() { ".to_owned();
    r.append(function_body);
    r.append(" {\n");
    r.append(expr_code);
    r.append("\n} }");
    r
}

/// The expression code of a block: the code wrapped in braces.
pub fn test_block_expr_code(expr_code: &str) -> (r: String)
    ensures
        r@ == "{ "@ + expr_code@ + " }"@,
{
    let mut r = "{ ".to_owned();
    r.append(expr_code);
    r.append(" }");
    r
}

/// The diagnostics of a test module: the syntax diagnostics, then the
/// semantic ones.
pub fn combine_diagnostics(syntax: &str, semantic: &str) -> (r: String)
    ensures
        r@ == syntax@ + semantic@,
{
    let mut r = syntax.to_owned();
    r.append(semantic);
    r
}

/// The single expression of a block: its tail, when the block has no
/// statements.
pub fn single_expression<E>(n_statements: usize, tail: Option<E>) -> (r: Result<E, ExprError>)
    ensures
        n_statements != 0 ==> r == Err::<E, ExprError>(ExprError::NotAnExpression),
        n_statements == 0 && tail is None ==> r == Err::<E, ExprError>(ExprError::MissingTail),
        n_statements == 0 && tail is Some ==> r == Ok::<E, ExprError>(tail->Some_0),
{
    if n_statements != 0 {
        return Err(ExprError::NotAnExpression);
    }
    match tail {
        Some(e) => Ok(e),
        None => Err(ExprError::MissingTail),
    }
}

} // verus!
