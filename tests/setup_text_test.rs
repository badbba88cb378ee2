use sierra::test_setup::{
    combine_diagnostics, single_expression, test_block_expr_code, test_expr_function_code,
    test_module_content, ExprError,
};

#[test]
fn module_content_without_module_code() {
    assert_eq!(test_module_content("func foo() {}", ""), "func foo() {}");
}

#[test]
fn module_content_with_module_code() {
    assert_eq!(
        test_module_content("func foo() {}", "extern type T;"),
        "extern type T;\nfunc foo() {}"
    );
}

#[test]
fn expr_function_code() {
    assert_eq!(
        test_expr_function_code("5 + 6", "let x = 1;"),
        "func test_func() { let x = 1; {\n5 + 6\n} }"
    );
    assert_eq!(test_expr_function_code("x", ""), "func test_func() {  {\nx\n} }");
}

#[test]
fn block_expr_code() {
    assert_eq!(test_block_expr_code("let a = 1; a"), "{ let a = 1; a }");
}

#[test]
fn diagnostics_are_combined_in_order() {
    assert_eq!(combine_diagnostics("syntax error\n", "semantic error\n"), "syntax error\nsemantic error\n");
    assert_eq!(combine_diagnostics("", ""), "");
}

#[test]
fn single_expression_cases() {
    assert_eq!(single_expression(0, Some(3u32)), Ok(3));
    assert_eq!(single_expression(2, Some(3u32)), Err(ExprError::NotAnExpression));
    assert_eq!(single_expression::<u32>(0, None), Err(ExprError::MissingTail));
    assert_eq!(single_expression::<u32>(1, None), Err(ExprError::NotAnExpression));
}
