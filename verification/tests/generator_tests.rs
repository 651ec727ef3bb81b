use rustlightast::rustlight_ast::{
    Attribute, AttributeArg, Block, BuilderMethod, CallableTraitQualifier, CallableTraitType,
    ClosureParam, ConstDef, EnumDef, Expr, Field, FunctionDef, GenericParam, ImplBlock, ImplItem,
    Item, LazyStaticDef, LetStmt, Literal, MatchArm, Param, PathType, RustModule, Statement,
    StructDef, Type, UnionDef, UseKind, UseStatement, Variant, Visibility,
};
use rustlightast::rustlight_print::RustCodeGenerator;

fn s(x: &str) -> String {
    x.to_string()
}

fn ident(x: &str) -> Expr {
    Expr::Ident(s(x))
}

fn named(x: &str) -> Type {
    Type::Named(s(x))
}

fn empty_block() -> Block {
    Block { stmts: Vec::new(), expr: None }
}

fn block_of(expr: Expr) -> Block {
    Block { stmts: Vec::new(), expr: Some(Box::new(expr)) }
}

fn module_of(items: Vec<Item>) -> RustModule {
    RustModule {
        name: s("m"),
        docs: Vec::new(),
        items,
        attrs: Vec::new(),
        vis: Visibility::Private,
    }
}

fn print(items: Vec<Item>) -> String {
    RustCodeGenerator::new().generate_module_code(&module_of(items))
}

fn function(name: &str, params: Vec<Param>, ret: Type, generics: Vec<GenericParam>, body: Block) -> FunctionDef {
    FunctionDef {
        name: s(name),
        params,
        return_type: ret,
        generics,
        body,
        asyncness: false,
        vis: Visibility::Public,
        docs: Vec::new(),
        attrs: Vec::new(),
    }
}

fn print_expr(expr: Expr) -> String {
    print(vec![Item::Function(function("f", Vec::new(), Type::Unit, Vec::new(), block_of(expr)))])
}

fn print_type(ty: Type) -> String {
    print(vec![Item::Function(function(
        "f",
        vec![Param { name: s("x"), ty }],
        Type::Unit,
        Vec::new(),
        empty_block(),
    ))])
}

#[test]
fn prints_whole_function_layout() {
    let printed = print_expr(ident("x"));
    assert_eq!(printed, "pub fn f() -> () {\n    x\n}\n\n");
}

#[test]
fn generating_twice_gives_the_same_text() {
    let module = RustModule {
        name: s("m"),
        docs: vec![s("//! docs")],
        items: vec![
            Item::Use(UseStatement { path: vec![s("std"), s("fmt")], kind: UseKind::Simple }),
            Item::Function(function("f", Vec::new(), Type::Unit, Vec::new(), block_of(ident("x")))),
        ],
        attrs: vec![Attribute { name: s("allow"), args: vec![AttributeArg::Ident(s("dead_code"))] }],
        vis: Visibility::Public,
    };
    let mut generator = RustCodeGenerator::new();
    let first = generator.generate_module_code(&module);
    let second = generator.generate_module_code(&module);
    assert_eq!(first, second);
    assert_eq!(
        first,
        "//! docs\n#[allow(dead_code)]\n\nuse std::fmt;\n\npub fn f() -> () {\n    x\n}\n\n"
    );
}

#[test]
fn default_generator_matches_new() {
    let module = module_of(vec![Item::Raw(s("fn raw() {}"))]);
    let a = RustCodeGenerator::default().generate_module_code(&module);
    let b = RustCodeGenerator::new().generate_module_code(&module);
    assert_eq!(a, b);
    assert_eq!(a, "fn raw() {}\n");
}

#[test]
fn raw_items_are_split_into_lines() {
    assert_eq!(print(vec![Item::Raw(s("a\r\nb\n\nc\r"))]), "a\nb\n\nc\r\n");
    assert_eq!(print(vec![Item::Raw(s("x\n"))]), "x\n");
    assert_eq!(print(vec![Item::Raw(s(""))]), "");
}

#[test]
fn uses_of_one_root_stay_together() {
    let use_of = |root: &str, last: &str| {
        Item::Use(UseStatement { path: vec![s(root), s(last)], kind: UseKind::Simple })
    };
    let printed = print(vec![
        use_of("std", "fmt"),
        use_of("std", "io"),
        use_of("crate", "a"),
        Item::Use(UseStatement { path: vec![s("crate"), s("b")], kind: UseKind::Glob }),
        Item::Use(UseStatement {
            path: vec![s("crate"), s("c")],
            kind: UseKind::Nested(vec![s("x"), s("y")]),
        }),
        Item::Raw(s("// end")),
    ]);
    assert_eq!(
        printed,
        "use std::fmt;\nuse std::io;\n\nuse crate::a;\nuse crate::b::*;\nuse crate::c::{x, y};\n\n// end\n"
    );
}

#[test]
fn prints_struct_with_derives_generics_and_fields() {
    let printed = print(vec![Item::Struct(StructDef {
        name: s("Point"),
        fields: vec![
            Field { name: s("x"), ty: named("T"), docs: Vec::new(), attrs: Vec::new() },
            Field { name: s("y"), ty: named("T"), docs: vec![s(" // y")], attrs: Vec::new() },
        ],
        generics: vec![GenericParam { name: s("T"), bounds: vec![s("'static"), s("Copy")] }],
        derives: vec![s("Debug"), s("Clone")],
        docs: vec![s("/// A point")],
        vis: Visibility::Public,
    })]);
    assert_eq!(
        printed,
        "/// A point\n#[derive(Debug, Clone)]\npub struct Point <T: Copy + 'static> {\n    pub x: T,pub y: T, // y\n}\n\n"
    );
}

#[test]
fn prints_tuple_struct() {
    let printed = print(vec![Item::Struct(StructDef {
        name: s("Pair"),
        fields: vec![
            Field { name: s(""), ty: named("u8"), docs: Vec::new(), attrs: Vec::new() },
            Field { name: s(""), ty: named("u16"), docs: Vec::new(), attrs: Vec::new() },
        ],
        generics: Vec::new(),
        derives: Vec::new(),
        docs: Vec::new(),
        vis: Visibility::Restricted(vec![s("crate"), s("a")]),
    })]);
    assert_eq!(printed, "pub(in crate::a) struct Pair (u8, u16);\n\n");
}

#[test]
fn prints_enum_and_union() {
    let printed = print(vec![
        Item::Enum(EnumDef {
            name: s("E"),
            variants: vec![
                Variant { name: s("A"), data: None, docs: vec![s("/// first")] },
                Variant { name: s("B"), data: Some(vec![named("u8"), named("String")]), docs: Vec::new() },
            ],
            generics: Vec::new(),
            derives: Vec::new(),
            docs: Vec::new(),
            vis: Visibility::Public,
        }),
        Item::Union(UnionDef {
            name: s("U"),
            fields: vec![Field { name: s("a"), ty: named("u32"), docs: Vec::new(), attrs: Vec::new() }],
            generics: vec![GenericParam { name: s("T"), bounds: Vec::new() }],
            derives: Vec::new(),
            docs: Vec::new(),
            vis: Visibility::Private,
        }),
    ]);
    assert_eq!(
        printed,
        "pub enum E {\n    /// first\n    A,\n    B(u8, String),\n}\n\nunion U <T> {\n    pub a: u32,}\n\n"
    );
}

#[test]
fn where_clause_is_sorted_by_name_with_static_bounds_last() {
    let generics = vec![
        GenericParam { name: s("U"), bounds: vec![s("Copy")] },
        GenericParam { name: s("S"), bounds: Vec::new() },
        GenericParam { name: s("T"), bounds: vec![s("'static"), s("Clone"), s("Send")] },
    ];
    let printed = print(vec![Item::Function(function("g", Vec::new(), Type::Unit, generics, empty_block()))]);
    assert_eq!(
        printed,
        "pub fn g<U, S, T>() -> ()\nwhere\n    T: Clone + Send + 'static,\n    U: Copy\n{\n}\n\n"
    );
}

#[test]
fn long_signature_is_wrapped() {
    let params = vec![
        Param { name: s("first_parameter"), ty: named("SomeLongTypeName") },
        Param { name: s("second_parameter"), ty: named("AnotherLongTypeName") },
    ];
    let printed = print(vec![Item::Function(function("long_function_name", params, named("u8"), Vec::new(), empty_block()))]);
    assert_eq!(
        printed,
        "pub fn long_function_name\n    (first_parameter: SomeLongTypeName, second_parameter: AnotherLongTypeName) -> u8 {\n}\n\n"
    );
}

#[test]
fn unnamed_parameter_prints_only_its_type() {
    let f = function("h", vec![Param { name: s(""), ty: named("i32") }], Type::Never, Vec::new(), empty_block());
    assert_eq!(print(vec![Item::Function(f)]), "pub fn h(i32) -> ! {\n}\n\n");
}

#[test]
fn async_function_with_docs_and_attributes() {
    let mut f = function("run", Vec::new(), Type::Unit, Vec::new(), empty_block());
    f.asyncness = true;
    f.vis = Visibility::Private;
    f.docs = vec![s("/// Runs.")];
    f.attrs = vec![Attribute {
        name: s("cfg"),
        args: vec![AttributeArg::KeyValue(s("feature"), Literal::Str(s("x"))), AttributeArg::Literal(Literal::Int(3))],
    }];
    assert_eq!(
        print(vec![Item::Function(f)]),
        "/// Runs.\n#[cfg(feature = \"x\", 3)]\nasync fn run() -> () {\n}\n\n"
    );
}

#[test]
fn prints_types() {
    let callable = Type::CallableTrait(CallableTraitType {
        qualifier: CallableTraitQualifier::Impl,
        trait_name: s("FnMut"),
        args: vec![named("A"), named("B")],
        return_type: Box::new(Type::Unit),
    });
    assert!(print_type(callable).contains("x: impl FnMut(A, B) -> ()"));
    assert!(print_type(Type::Tuple(vec![named("T")])).contains("x: (T,)"));
    assert!(print_type(Type::Tuple(vec![named("T"), named("U")])).contains("x: (T, U)"));
    assert!(print_type(Type::Tuple(Vec::new())).contains("x: ()"));
    assert!(print_type(Type::Array(Box::new(named("u8")), 16)).contains("x: [u8; 16]"));
    assert!(print_type(Type::Slice(Box::new(named("u8")))).contains("x: [u8]"));
    assert!(print_type(Type::Reference(Box::new(named("T")), true, true)).contains("x: &mut T"));
    assert!(print_type(Type::Reference(Box::new(named("T")), false, true)).contains("x: mut T"));
    assert!(print_type(Type::Path(vec![s("std"), s("vec"), s("Vec")])).contains("x: std::vec::Vec"));
    assert!(print_type(Type::Generic(s("HashMap"), vec![named("K"), named("V")])).contains("x: HashMap<K, V>"));
}

#[test]
fn prints_literals() {
    assert!(print_expr(Expr::Literal(Literal::Int(-42))).contains("    -42\n"));
    assert!(print_expr(Expr::Literal(Literal::Int(i64::MIN))).contains("    -9223372036854775808\n"));
    assert!(print_expr(Expr::Literal(Literal::Int(0))).contains("    0\n"));
    assert!(print_expr(Expr::Literal(Literal::Bool(false))).contains("    false\n"));
    assert!(print_expr(Expr::Literal(Literal::Char('z'))).contains("    'z'\n"));
    assert!(print_expr(Expr::Literal(Literal::Str(s("hi")))).contains("    \"hi\"\n"));
    assert!(print_expr(Expr::Literal(Literal::Float(s("1.5")))).contains("    1.5\n"));
    assert!(print_expr(Expr::Literal(Literal::Raw(s("1u8")))).contains("    1u8\n"));
}

#[test]
fn prints_float_values_as_display_gives_them() {
    let whole: f64 = 2.0;
    let half: f64 = -0.25;
    assert!(print_expr(Expr::Literal(Literal::Float(whole.to_string()))).contains("    2\n"));
    assert!(print_expr(Expr::Literal(Literal::Float(half.to_string()))).contains("    -0.25\n"));
}

#[test]
fn prints_statements() {
    let body = Block {
        stmts: vec![
            Statement::Let(LetStmt { ifmut: true, name: s("a"), ty: Some(named("u8")), init: Some(Expr::Literal(Literal::Int(1))) }),
            Statement::Let(LetStmt { ifmut: false, name: s("b"), ty: None, init: None }),
            Statement::Expr(Expr::Call(Box::new(ident("g")), vec![ident("a"), ident("b")])),
            Statement::Comment(s("note")),
        ],
        expr: None,
    };
    let printed = print(vec![Item::Function(function("f", Vec::new(), Type::Unit, Vec::new(), body))]);
    assert_eq!(
        printed,
        "pub fn f() -> () {\n    let mut a: u8 = 1;\n    let b;\n    g(a, b);\n    // note\n}\n\n"
    );
}

#[test]
fn prints_match_with_guard_and_channel_comments() {
    let arm = |pattern: &str, guard: Option<Expr>| MatchArm {
        pattern: s(pattern),
        guard,
        body: Block { stmts: vec![Statement::Break], expr: None },
    };
    let printed = print_expr(Expr::Match {
        expr: Box::new(ident("rx")),
        arms: vec![
            arm("Ok(msg)", Some(ident("ready"))),
            arm("Err(TryRecvError::Empty)", None),
            arm("Err(TryRecvError::Disconnected)", None),
            arm("_", None),
        ],
    });
    assert!(printed.contains(
        "    match rx {\n        Ok(msg) if ready => {\n            // Message received \u{2192} call handler function\n            break;\n        },\n"
    ));
    assert!(printed.contains("        Err(TryRecvError::Empty) => {\n            // No message; do not block, skip directly\n"));
    assert!(printed.contains("        Err(TryRecvError::Disconnected) => {\n            // Channel has been closed\n"));
    assert!(printed.contains("        _ => {\n            break;\n        },\n    }\n"));
}

#[test]
fn prints_closures_and_builder_chain() {
    let chain = Expr::BuilderChain(vec![
        BuilderMethod::Named(s("\"worker\".to_string()")),
        BuilderMethod::Spawn {
            closure: Box::new(Expr::Closure(vec![ClosureParam::untyped("x")], Box::new(ident("x")), false)),
            move_kw: true,
        },
    ]);
    let printed = print_expr(chain);
    assert!(printed.contains(
        "    thread::Builder::new()\n        .name(\"worker\".to_string())\n        .spawn(move |x| { x })\n"
    ));
    let block_closure = Expr::Closure(Vec::new(), Box::new(Expr::Block(block_of(ident("y")))), false);
    assert!(print_expr(block_closure).contains("    || {\n        y\n    }\n"));
}

#[test]
fn prints_unsafe_if_let_and_loop() {
    let compact = Expr::Unsafe(Box::new(Block { stmts: vec![Statement::Expr(ident("f"))], expr: None }));
    assert!(print_expr(compact).contains("    unsafe { f;\n     }"));
    let expanded = Expr::Unsafe(Box::new(block_of(ident("g"))));
    assert!(print_expr(expanded).contains("    unsafe {\n        g\n    }"));
    let if_let = Expr::IfLet {
        pattern: s("Some(v)"),
        value: Box::new(ident("o")),
        then_branch: block_of(ident("v")),
        else_branch: Some(block_of(ident("w"))),
    };
    assert!(print_expr(if_let).contains("    if let Some(v) = o {\n        v\n    } else {\n        w\n    }"));
    let looped = Expr::Loop(Box::new(Block { stmts: vec![Statement::Continue], expr: None }));
    assert!(print_expr(looped).contains("    loop {\n        continue;\n    }"));
}

#[test]
fn prints_paths_calls_and_operators() {
    assert!(print_expr(Expr::Path(vec![s("a"), s("b")], PathType::Namespace)).contains("    a::b\n"));
    assert!(print_expr(Expr::MethodCall(Box::new(ident("f")), s(""), vec![ident("x")])).contains("    f(x)\n"));
    assert!(print_expr(Expr::Tuple(vec![ident("a")])).contains("    (a,)\n"));
    assert!(print_expr(Expr::Array(Vec::new())).contains("    []\n"));
    assert!(print_expr(Expr::Reference(Box::new(ident("x")), true, true)).contains("    &mut x\n"));
    assert!(print_expr(Expr::Macro(s("vec![1]"))).contains("    vec![1]\n"));
    let cmp = Expr::BinaryOp(
        Box::new(Expr::BinaryOp(Box::new(ident("a")), s("&&"), Box::new(ident("b")))),
        s("||"),
        Box::new(Expr::BinaryOp(Box::new(ident("c")), s("<<"), Box::new(ident("d")))),
    );
    assert!(print_expr(cmp).contains("    a && b || c << d\n"));
    let or_in_and = Expr::BinaryOp(
        Box::new(Expr::BinaryOp(Box::new(ident("a")), s("||"), Box::new(ident("b")))),
        s("&&"),
        Box::new(ident("c")),
    );
    assert!(print_expr(or_in_and).contains("    (a || b) && c\n"));
    let closure_operand = Expr::BinaryOp(
        Box::new(Expr::Closure(Vec::new(), Box::new(ident("x")), false)),
        s("+"),
        Box::new(ident("y")),
    );
    assert!(print_expr(closure_operand).contains("    (|| { x }) + y\n"));
}

#[test]
fn prints_impl_block_with_items() {
    let method = function("get", vec![Param { name: s("&self"), ty: Type::Unit }], named("u8"), Vec::new(), block_of(Expr::Literal(Literal::Int(1))));
    let printed = print(vec![Item::Impl(ImplBlock {
        target: Type::Generic(s("W"), vec![named("T")]),
        generics: vec![GenericParam { name: s("T"), bounds: vec![s("Clone")] }],
        items: vec![
            ImplItem::AssocType(s("Out"), named("u8")),
            ImplItem::AssocConst(s("N"), named("usize"), Expr::Literal(Literal::Int(3))),
            ImplItem::Method(method),
        ],
        trait_impl: Some(named("Tr")),
    })]);
    assert_eq!(
        printed,
        "impl<T: Clone> Tr for W<T> {\n    type Out = u8;\n    const N: usize = \n    3;\n    pub fn get(&self: ()) -> u8 {\n        1\n    }\n    \n}\n\n"
    );
}

#[test]
fn prints_const_lazy_static_and_nested_module() {
    let printed = print(vec![
        Item::Const(ConstDef { name: s("C"), ty: named("u8"), value: Expr::Literal(Literal::Int(7)), vis: Visibility::Public, docs: Vec::new() }),
        Item::LazyStatic(LazyStaticDef { name: s("L"), ty: named("u8"), init: block_of(ident("x")), vis: Visibility::Private, docs: Vec::new() }),
        Item::Mod(Box::new(RustModule {
            name: s("inner"),
            docs: vec![s("//! inner docs")],
            items: vec![Item::Raw(s("fn a() {}"))],
            attrs: Vec::new(),
            vis: Visibility::Restricted(vec![s("crate")]),
        })),
    ]);
    assert_eq!(
        printed,
        "pub const C: u8 = 7;\n\nlazy_static! {\n    static ref L: u8 = {\n        x\n    };\n}\n\npub(in crate ) mod inner {\n    //! inner docs\n    fn a() {}\n}\n\n"
    );
}

#[test]
fn closure_params_are_built_and_printed() {
    let p = ClosureParam::typed("y", named("u8"));
    assert_eq!(p.pattern, "y");
    assert!(p.ty.is_some());
    let q = ClosureParam::untyped("z");
    assert!(q.ty.is_none());
    let r: ClosureParam = "w".into();
    assert_eq!(r.pattern, "w");
    let t: ClosureParam = s("v").into();
    assert_eq!(t.pattern, "v");
    let closure = Expr::TypedClosure(vec![p, q], named("u8"), Box::new(ident("y")), false);
    assert!(print_expr(closure).contains("    |y: u8, z| -> u8 { y }\n"));
}

#[test]
fn cloned_module_prints_the_same() {
    let module = RustModule {
        name: s("m"),
        docs: Vec::new(),
        items: vec![Item::Function(function(
            "f",
            Vec::new(),
            Type::Unit,
            Vec::new(),
            block_of(Expr::If {
                condition: Box::new(ident("c")),
                then_branch: block_of(ident("a")),
                else_branch: Some(block_of(ident("b"))),
            }),
        ))],
        attrs: Vec::new(),
        vis: Visibility::Private,
    };
    let copy = module.clone();
    let mut generator = RustCodeGenerator::new();
    assert_eq!(generator.generate_module_code(&module), generator.generate_module_code(&copy));
}
