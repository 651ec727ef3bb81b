use rustlightast::rustlight_print::RustCodeGenerator;
use rustlightast::rustlight_ast::{
    Block, CallableTraitQualifier, CallableTraitType, ClosureParam, Expr, FunctionDef,
    GenericParam, Item, Literal, Param, PathType, RustModule, Statement, Type, TypeAlias,
    Visibility,
};

fn callable_target() -> Type {
    Type::Generic(
        "Rc".to_string(),
        vec![Type::CallableTrait(CallableTraitType {
            qualifier: CallableTraitQualifier::Dyn,
            trait_name: "Fn".to_string(),
            args: vec![Type::Named("Int".to_string())],
            return_type: Box::new(Type::Named("Int".to_string())),
        })],
    )
}

fn print_function_body(expr: Expr, target: Type) -> String {
    let module = RustModule {
        name: "Cast_Test".to_string(),
        docs: Vec::new(),
        items: vec![Item::Function(FunctionDef {
            name: "cast_closure".to_string(),
            params: vec![Param {
                name: "f".to_string(),
                ty: target.clone(),
            }],
            return_type: target.clone(),
            generics: Vec::new(),
            body: Block {
                stmts: Vec::new(),
                expr: Some(Box::new(expr)),
            },
            asyncness: false,
            vis: Visibility::Public,
            docs: Vec::new(),
            attrs: Vec::new(),
        })],
        attrs: Vec::new(),
        vis: Visibility::Private,
    };

    RustCodeGenerator::new().generate_module_code(&module)
}

#[test]
fn prints_structured_cast_expression() {
    let target = callable_target();
    let printed = print_function_body(
        Expr::Cast(Box::new(Expr::Ident("f".to_string())), target.clone()),
        target,
    );
    assert!(printed.contains("f as Rc<dyn Fn(Int) -> Int>"));
}

#[test]
fn parenthesizes_borrowed_binary_expressions() {
    let printed = print_function_body(
        Expr::Reference(
            Box::new(Expr::BinaryOp(
                Box::new(Expr::Ident("n".to_string())),
                "+".to_string(),
                Box::new(Expr::Literal(Literal::Int(1))),
            )),
            true,
            false,
        ),
        Type::Named("BigInt".to_string()),
    );
    assert!(printed.contains("&(n + 1)"));
}

#[test]
fn prints_explicit_closure_return_types() {
    let printed = print_function_body(
        Expr::TypedClosure(
            vec![ClosureParam::typed("x", Type::Named("Int".to_string()))],
            Type::Named("Pred<Unit>".to_string()),
            Box::new(Expr::Macro("panic!(\"partial\")".to_string())),
            true,
        ),
        callable_target(),
    );
    assert!(printed.contains("move |x: Int| -> Pred<Unit> { panic!(\"partial\") }"));
}

#[test]
fn prints_generic_type_alias_parameters_and_bounds() {
    let module = RustModule {
        name: "Alias_Test".to_string(),
        docs: Vec::new(),
        items: vec![Item::TypeAlias(TypeAlias {
            name: "Callback".to_string(),
            target: Type::Generic("Rc".to_string(), vec![Type::Named("T".to_string())]),
            generics: vec![GenericParam {
                name: "T".to_string(),
                bounds: vec!["Clone".to_string()],
            }],
            vis: Visibility::Public,
            docs: Vec::new(),
        })],
        attrs: Vec::new(),
        vis: Visibility::Private,
    };
    let mut generator = RustCodeGenerator::new();
    let printed = generator.generate_module_code(&module);

    assert!(printed.contains("pub type Callback<T: Clone> = Rc<T>;"));
}

#[test]
fn prints_bare_return_statement() {
    let module = RustModule {
        name: "Return_Test".to_string(),
        docs: Vec::new(),
        items: vec![Item::Function(FunctionDef {
            name: "early_exit".to_string(),
            params: Vec::new(),
            return_type: Type::Unit,
            generics: Vec::new(),
            body: Block {
                stmts: vec![Statement::Return(None)],
                expr: None,
            },
            asyncness: false,
            vis: Visibility::Public,
            docs: Vec::new(),
            attrs: Vec::new(),
        })],
        attrs: Vec::new(),
        vis: Visibility::Private,
    };

    let printed = RustCodeGenerator::new().generate_module_code(&module);
    assert!(printed.contains("return;"));
}

#[test]
fn prints_return_statement_with_value() {
    let module = RustModule {
        name: "Return_Test".to_string(),
        docs: Vec::new(),
        items: vec![Item::Function(FunctionDef {
            name: "return_value".to_string(),
            params: Vec::new(),
            return_type: Type::Named("Int".to_string()),
            generics: Vec::new(),
            body: Block {
                stmts: vec![Statement::Return(Some(Expr::Ident("value".to_string())))],
                expr: None,
            },
            asyncness: false,
            vis: Visibility::Public,
            docs: Vec::new(),
            attrs: Vec::new(),
        })],
        attrs: Vec::new(),
        vis: Visibility::Private,
    };

    let printed = RustCodeGenerator::new().generate_module_code(&module);
    assert!(printed.contains("return value;"));
}

#[test]
fn prints_nested_else_if_without_an_extra_block() {
    let bool_block = |value| Block {
        stmts: Vec::new(),
        expr: Some(Box::new(Expr::Literal(Literal::Bool(value)))),
    };
    let nested_if = Expr::If {
        condition: Box::new(Expr::Ident("inner".to_string())),
        then_branch: bool_block(true),
        else_branch: Some(bool_block(false)),
    };
    let printed = print_function_body(
        Expr::If {
            condition: Box::new(Expr::Ident("outer".to_string())),
            then_branch: bool_block(true),
            else_branch: Some(Block {
                stmts: Vec::new(),
                expr: Some(Box::new(nested_if)),
            }),
        },
        Type::Named("bool".to_string()),
    );

    assert!(printed.contains("} else if inner {"));
    assert!(!printed.contains("} else {\n        if inner"));
}

#[test]
fn prints_while_loop() {
    let printed = print_function_body(
        Expr::While {
            condition: Box::new(Expr::BinaryOp(
                Box::new(Expr::Ident("i".to_string())),
                "<".to_string(),
                Box::new(Expr::Literal(Literal::Int(10))),
            )),
            body: Block {
                stmts: vec![Statement::Break],
                expr: None,
            },
        },
        Type::Unit,
    );

    assert!(printed.contains("while i < 10 {\n        break;\n    }"));
}

#[test]
fn parenthesizes_addition_inside_multiplication() {
    let printed = print_function_body(
        Expr::BinaryOp(
            Box::new(Expr::BinaryOp(
                Box::new(Expr::Ident("a".to_string())),
                "+".to_string(),
                Box::new(Expr::Ident("b".to_string())),
            )),
            "*".to_string(),
            Box::new(Expr::Ident("c".to_string())),
        ),
        Type::Named("Int".to_string()),
    );

    assert!(printed.contains("(a + b) * c"));
}

#[test]
fn omits_parentheses_for_multiplication_inside_addition() {
    let printed = print_function_body(
        Expr::BinaryOp(
            Box::new(Expr::Ident("a".to_string())),
            "+".to_string(),
            Box::new(Expr::BinaryOp(
                Box::new(Expr::Ident("b".to_string())),
                "*".to_string(),
                Box::new(Expr::Ident("c".to_string())),
            )),
        ),
        Type::Named("Int".to_string()),
    );

    assert!(printed.contains("a + b * c"));
}

#[test]
fn parenthesizes_right_nested_subtraction() {
    let printed = print_function_body(
        Expr::BinaryOp(
            Box::new(Expr::Ident("a".to_string())),
            "-".to_string(),
            Box::new(Expr::BinaryOp(
                Box::new(Expr::Ident("b".to_string())),
                "-".to_string(),
                Box::new(Expr::Ident("c".to_string())),
            )),
        ),
        Type::Named("Int".to_string()),
    );

    assert!(printed.contains("a - (b - c)"));
}

#[test]
fn omits_parentheses_for_left_nested_subtraction() {
    let printed = print_function_body(
        Expr::BinaryOp(
            Box::new(Expr::BinaryOp(
                Box::new(Expr::Ident("a".to_string())),
                "-".to_string(),
                Box::new(Expr::Ident("b".to_string())),
            )),
            "-".to_string(),
            Box::new(Expr::Ident("c".to_string())),
        ),
        Type::Named("Int".to_string()),
    );

    assert!(printed.contains("a - b - c"));
}

#[test]
fn parenthesizes_addition_in_unary_operand() {
    let printed = print_function_body(
        Expr::UnaryOp(
            "-".to_string(),
            Box::new(Expr::BinaryOp(
                Box::new(Expr::Ident("a".to_string())),
                "+".to_string(),
                Box::new(Expr::Ident("b".to_string())),
            )),
        ),
        Type::Named("Int".to_string()),
    );

    assert!(printed.contains("-(a + b)"));
}

#[test]
fn omits_parentheses_around_unary_expression_in_multiplication() {
    let printed = print_function_body(
        Expr::BinaryOp(
            Box::new(Expr::UnaryOp(
                "-".to_string(),
                Box::new(Expr::Ident("a".to_string())),
            )),
            "*".to_string(),
            Box::new(Expr::Ident("b".to_string())),
        ),
        Type::Named("Int".to_string()),
    );

    assert!(printed.contains("-a * b"));
}

#[test]
fn parenthesizes_addition_in_reference_operand() {
    let printed = print_function_body(
        Expr::Reference(
            Box::new(Expr::BinaryOp(
                Box::new(Expr::Ident("a".to_string())),
                "+".to_string(),
                Box::new(Expr::Ident("b".to_string())),
            )),
            true,
            false,
        ),
        Type::Named("Int".to_string()),
    );

    assert!(printed.contains("&(a + b)"));
}

#[test]
fn omits_parentheses_for_method_call_in_reference_operand() {
    let printed = print_function_body(
        Expr::Reference(
            Box::new(Expr::MethodCall(
                Box::new(Expr::Ident("foo".to_string())),
                "bar".to_string(),
                vec![],
            )),
            true,
            false,
        ),
        Type::Named("Int".to_string()),
    );

    assert!(printed.contains("&foo.bar()"));
}

#[test]
fn parenthesizes_addition_in_cast_operand() {
    let printed = print_function_body(
        Expr::Cast(
            Box::new(Expr::BinaryOp(
                Box::new(Expr::Ident("a".to_string())),
                "+".to_string(),
                Box::new(Expr::Ident("b".to_string())),
            )),
            Type::Named("i64".to_string()),
        ),
        Type::Named("i64".to_string()),
    );

    assert!(printed.contains("(a + b) as i64"));
}

#[test]
fn omits_parentheses_for_unary_cast_operand() {
    let printed = print_function_body(
        Expr::Cast(
            Box::new(Expr::UnaryOp(
                "-".to_string(),
                Box::new(Expr::Ident("a".to_string())),
            )),
            Type::Named("i64".to_string()),
        ),
        Type::Named("i64".to_string()),
    );

    assert!(printed.contains("-a as i64"));
}

#[test]
fn parenthesizes_cast_used_as_method_receiver() {
    let printed = print_function_body(
        Expr::MethodCall(
            Box::new(Expr::Cast(
                Box::new(Expr::Ident("x".to_string())),
                Type::Named("T".to_string()),
            )),
            "foo".to_string(),
            vec![],
        ),
        Type::Named("Int".to_string()),
    );

    assert!(printed.contains("(x as T).foo()"));
}

#[test]
fn omits_unnecessary_parentheses_around_root_cast() {
    let printed = print_function_body(
        Expr::Cast(
            Box::new(Expr::Ident("x".to_string())),
            Type::Named("T".to_string()),
        ),
        Type::Named("T".to_string()),
    );

    assert!(printed.contains("x as T"));
    assert!(!printed.contains("(x as T)"));
}

#[test]
fn parenthesizes_binary_expression_used_as_call_callee() {
    let printed = print_function_body(
        Expr::Call(
            Box::new(Expr::BinaryOp(
                Box::new(Expr::Ident("f".to_string())),
                "+".to_string(),
                Box::new(Expr::Ident("g".to_string())),
            )),
            vec![],
        ),
        Type::Named("Int".to_string()),
    );

    assert!(printed.contains("(f + g)()"));
}

#[test]
fn parenthesizes_binary_expression_used_as_method_receiver() {
    let printed = print_function_body(
        Expr::MethodCall(
            Box::new(Expr::BinaryOp(
                Box::new(Expr::Ident("f".to_string())),
                "+".to_string(),
                Box::new(Expr::Ident("g".to_string())),
            )),
            "call".to_string(),
            vec![],
        ),
        Type::Named("Int".to_string()),
    );

    assert!(printed.contains("(f + g).call()"));
}

#[test]
fn parenthesizes_binary_expression_used_as_index_receiver() {
    let printed = print_function_body(
        Expr::Index(
            Box::new(Expr::BinaryOp(
                Box::new(Expr::Ident("arr".to_string())),
                "+".to_string(),
                Box::new(Expr::Ident("offset".to_string())),
            )),
            Box::new(Expr::Ident("index".to_string())),
        ),
        Type::Named("Int".to_string()),
    );

    assert!(printed.contains("(arr + offset)[index]"));
}

#[test]
fn parenthesizes_logical_expression_used_as_await_receiver() {
    let printed = print_function_body(
        Expr::Await(Box::new(Expr::BinaryOp(
            Box::new(Expr::Ident("future1".to_string())),
            "||".to_string(),
            Box::new(Expr::Ident("future2".to_string())),
        ))),
        Type::Named("Result".to_string()),
    );

    assert!(printed.contains("(future1 || future2).await"));
}

#[test]
fn omits_parentheses_in_postfix_chain() {
    let printed = print_function_body(
        Expr::Await(Box::new(Expr::Index(
            Box::new(Expr::MethodCall(
                Box::new(Expr::Call(Box::new(Expr::Ident("foo".to_string())), vec![])),
                "bar".to_string(),
                vec![],
            )),
            Box::new(Expr::Ident("i".to_string())),
        ))),
        Type::Named("Result".to_string()),
    );

    assert!(printed.contains("foo().bar()[i].await"));
}

#[test]
fn parenthesizes_left_nested_assignment() {
    let printed = print_function_body(
        Expr::Assign(
            Box::new(Expr::Assign(
                Box::new(Expr::Ident("x".to_string())),
                Box::new(Expr::Ident("y".to_string())),
            )),
            Box::new(Expr::Ident("z".to_string())),
        ),
        Type::Named("Int".to_string()),
    );

    assert!(printed.contains("(x = y) = z"));
}

#[test]
fn omits_parentheses_for_right_nested_assignment() {
    let printed = print_function_body(
        Expr::Assign(
            Box::new(Expr::Ident("x".to_string())),
            Box::new(Expr::Assign(
                Box::new(Expr::Ident("y".to_string())),
                Box::new(Expr::Ident("z".to_string())),
            )),
        ),
        Type::Named("Int".to_string()),
    );

    assert!(printed.contains("x = y = z"));
}

#[test]
fn parenthesizes_assignment_inside_addition() {
    let printed = print_function_body(
        Expr::BinaryOp(
            Box::new(Expr::Assign(
                Box::new(Expr::Ident("x".to_string())),
                Box::new(Expr::Ident("y".to_string())),
            )),
            "+".to_string(),
            Box::new(Expr::Ident("z".to_string())),
        ),
        Type::Named("Int".to_string()),
    );

    assert!(printed.contains("(x = y) + z"));
}

#[test]
fn omits_parentheses_for_addition_on_assignment_rhs() {
    let printed = print_function_body(
        Expr::Assign(
            Box::new(Expr::Ident("x".to_string())),
            Box::new(Expr::BinaryOp(
                Box::new(Expr::Ident("y".to_string())),
                "+".to_string(),
                Box::new(Expr::Ident("z".to_string())),
            )),
        ),
        Type::Named("Int".to_string()),
    );

    assert!(printed.contains("x = y + z"));
}

#[test]
fn preserves_explicit_parentheses() {
    let printed = print_function_body(
        Expr::Parenthesized(Box::new(Expr::BinaryOp(
            Box::new(Expr::Ident("a".to_string())),
            "+".to_string(),
            Box::new(Expr::Ident("b".to_string())),
        ))),
        Type::Named("Int".to_string()),
    );

    assert!(printed.contains("(a + b)"));
}

#[test]
fn preserves_redundant_parentheses() {
    let printed = print_function_body(
        Expr::Parenthesized(Box::new(Expr::Ident("a".to_string()))),
        Type::Named("Int".to_string()),
    );

    assert!(printed.contains("(a)"));
}

#[test]
fn preserves_nested_explicit_parentheses() {
    let printed = print_function_body(
        Expr::Parenthesized(Box::new(Expr::Parenthesized(Box::new(Expr::Ident(
            "a".to_string(),
        ))))),
        Type::Named("Int".to_string()),
    );

    assert!(printed.contains("((a))"));
}

#[test]
fn parenthesizes_unknown_binary_operator_when_nested() {
    let printed = print_function_body(
        Expr::BinaryOp(
            Box::new(Expr::BinaryOp(
                Box::new(Expr::Ident("a".to_string())),
                "???".to_string(),
                Box::new(Expr::Ident("b".to_string())),
            )),
            "+".to_string(),
            Box::new(Expr::Ident("c".to_string())),
        ),
        Type::Named("Int".to_string()),
    );

    assert!(printed.contains("(a ??? b) + c"));
}

#[test]
fn prints_unknown_binary_operator_at_root_without_parentheses() {
    let printed = print_function_body(
        Expr::BinaryOp(
            Box::new(Expr::Ident("a".to_string())),
            "???".to_string(),
            Box::new(Expr::Ident("b".to_string())),
        ),
        Type::Named("Int".to_string()),
    );

    assert!(printed.contains("a ??? b"));
}

#[test]
fn parenthesizes_binary_child_of_unknown_operator() {
    let printed = print_function_body(
        Expr::BinaryOp(
            Box::new(Expr::Ident("a".to_string())),
            "???".to_string(),
            Box::new(Expr::BinaryOp(
                Box::new(Expr::Ident("b".to_string())),
                "+".to_string(),
                Box::new(Expr::Ident("c".to_string())),
            )),
        ),
        Type::Named("Int".to_string()),
    );

    assert!(printed.contains("a ??? (b + c)"));
}

#[test]
fn preserves_explicit_parentheses_in_call_arguments() {
    let printed = print_function_body(
        Expr::Call(
            Box::new(Expr::Ident("foo".to_string())),
            vec![Expr::Parenthesized(Box::new(Expr::BinaryOp(
                Box::new(Expr::Ident("a".to_string())),
                "+".to_string(),
                Box::new(Expr::Ident("b".to_string())),
            )))],
        ),
        Type::Named("Int".to_string()),
    );

    assert!(printed.contains("foo((a + b))"));
}

#[test]
fn parenthesizes_left_nested_comparison() {
    let printed = print_function_body(
        Expr::BinaryOp(
            Box::new(Expr::BinaryOp(
                Box::new(Expr::Ident("a".to_string())),
                "<".to_string(),
                Box::new(Expr::Ident("b".to_string())),
            )),
            "<".to_string(),
            Box::new(Expr::Ident("c".to_string())),
        ),
        Type::Named("bool".to_string()),
    );

    assert!(printed.contains("(a < b) < c"));
}

#[test]
fn parenthesizes_right_nested_comparison() {
    let printed = print_function_body(
        Expr::BinaryOp(
            Box::new(Expr::Ident("a".to_string())),
            "<".to_string(),
            Box::new(Expr::BinaryOp(
                Box::new(Expr::Ident("b".to_string())),
                "<".to_string(),
                Box::new(Expr::Ident("c".to_string())),
            )),
        ),
        Type::Named("bool".to_string()),
    );

    assert!(printed.contains("a < (b < c)"));
}

#[test]
fn parenthesizes_member_path_used_as_call_callee() {
    let printed = print_function_body(
        Expr::Call(
            Box::new(Expr::Path(
                vec!["a".to_string(), "f".to_string()],
                PathType::Member,
            )),
            vec![Expr::Ident("x".to_string())],
        ),
        Type::Unit,
    );

    assert!(printed.contains("(a.f)(x)"));
}

#[test]
fn omits_parentheses_for_member_path_used_as_method_receiver() {
    let printed = print_function_body(
        Expr::MethodCall(
            Box::new(Expr::Path(
                vec!["a".to_string(), "f".to_string()],
                PathType::Member,
            )),
            "g".to_string(),
            vec![],
        ),
        Type::Named("Int".to_string()),
    );

    assert!(printed.contains("a.f.g()"));
}

#[test]
fn prints_for_loop() {
    let printed = print_function_body(
        Expr::For {
            pattern: "i".to_string(),
            iter: Box::new(Expr::Array(vec![
                Expr::Literal(Literal::Int(1)),
                Expr::Literal(Literal::Int(2)),
                Expr::Literal(Literal::Int(3)),
            ])),
            body: Block {
                stmts: vec![Statement::Continue],
                expr: None,
            },
        },
        Type::Unit,
    );

    assert!(printed.contains("for i in [1, 2, 3] {\n        continue;\n    }"));
}
