//! A lightweight abstract syntax tree for Rust source code, at module level.
use vstd::prelude::*;

verus! {

/// Lightweight Rust abstract syntax tree (module level)
#[derive(Debug)]
pub struct RustModule {
    pub name: String,
    pub docs: Vec<String>,
    pub items: Vec<Item>,
    /// `#[attributes]` of the module
    pub attrs: Vec<Attribute>,
    /// controls the visibility of the module
    pub vis: Visibility,
}

/// Module item definitions
#[derive(Debug)]
pub enum Item {
    /// raw Rust item or crate-level directive
    Raw(String),
    Struct(StructDef),
    Enum(EnumDef),
    Union(UnionDef),
    Function(FunctionDef),
    Impl(ImplBlock),
    Const(ConstDef),
    TypeAlias(TypeAlias),
    Use(UseStatement),
    /// nested module
    Mod(Box<RustModule>),
    /// `lazy_static!` macro
    LazyStatic(LazyStaticDef),
}

/// Struct definition
#[derive(Debug)]
pub struct StructDef {
    pub name: String,
    pub fields: Vec<Field>,
    pub generics: Vec<GenericParam>,
    /// `#[derive(...)]`
    pub derives: Vec<String>,
    pub docs: Vec<String>,
    /// controls struct visibility
    pub vis: Visibility,
}

/// Union definition
#[derive(Debug)]
pub struct UnionDef {
    pub name: String,
    /// union fields
    pub fields: Vec<Field>,
    pub generics: Vec<GenericParam>,
    /// `#[derive(...)]`
    pub derives: Vec<String>,
    pub docs: Vec<String>,
    /// controls union visibility
    pub vis: Visibility,
}

/// Enum definition
#[derive(Debug)]
pub struct EnumDef {
    pub name: String,
    pub variants: Vec<Variant>,
    pub generics: Vec<GenericParam>,
    pub derives: Vec<String>,
    pub docs: Vec<String>,
    pub vis: Visibility,
}

/// Function definition
#[derive(Debug)]
pub struct FunctionDef {
    pub name: String,
    pub params: Vec<Param>,
    pub return_type: Type,
    pub generics: Vec<GenericParam>,
    pub body: Block,
    pub asyncness: bool,
    pub vis: Visibility,
    pub docs: Vec<String>,
    pub attrs: Vec<Attribute>,
}

/// Implementation block
#[derive(Debug)]
pub struct ImplBlock {
    pub target: Type,
    pub generics: Vec<GenericParam>,
    pub items: Vec<ImplItem>,
    /// implemented for which trait
    pub trait_impl: Option<Type>,
}

/// Constant definition
#[derive(Debug)]
pub struct ConstDef {
    pub name: String,
    pub ty: Type,
    pub value: Expr,
    pub vis: Visibility,
    pub docs: Vec<String>,
}

/// Type alias
#[derive(Debug)]
pub struct TypeAlias {
    pub name: String,
    pub target: Type,
    pub generics: Vec<GenericParam>,
    pub vis: Visibility,
    pub docs: Vec<String>,
}

// ========== Basic type definitions ========== //
/// Type representation
#[derive(Debug)]
pub enum Type {
    /// `std::vec::Vec`
    Path(Vec<String>),
    /// `i32`, `String`
    Named(String),
    /// `HashMap<K, V>`
    Generic(String, Vec<Type>),
    /// `dyn Fn(A) -> B` / `impl Fn(A) -> B`
    CallableTrait(CallableTraitType),
    /// `&mut T`: the first flag asks for `&`, the second for `mut`
    Reference(Box<Type>, bool, bool),
    /// `(T1, T2)`
    Tuple(Vec<Type>),
    /// `[T]`
    Slice(Box<Type>),
    /// `[T; N]` fixed-size array
    Array(Box<Type>, usize),
    /// `()`
    Unit,
    /// `!`
    Never,
}

/// Callable trait type such as `dyn Fn(A) -> B` or `impl Fn(A) -> B`.
#[derive(Debug)]
pub struct CallableTraitType {
    pub qualifier: CallableTraitQualifier,
    pub trait_name: String,
    pub args: Vec<Type>,
    pub return_type: Box<Type>,
}

#[derive(Debug)]
pub enum CallableTraitQualifier {
    Dyn,
    Impl,
}

/// A closure parameter with its pattern and optional type kept separately.
///
/// Keeping the type structured lets optimization passes inspect and rewrite
/// closure annotations without reparsing a printed `pattern: Type` string.
#[derive(Debug)]
pub struct ClosureParam {
    pub pattern: String,
    pub ty: Option<Type>,
}

impl ClosureParam {
    /// A closure parameter written without a type annotation.
    pub fn untyped(pattern: &str) -> (res: Self)
        ensures
            res.pattern@ == pattern@,
            res.ty is None,
    {
        Self { pattern: pattern.to_owned(), ty: None }
    }

    /// A closure parameter written as `pattern: ty`.
    pub fn typed(pattern: &str, ty: Type) -> (res: Self)
        ensures
            res.pattern@ == pattern@,
            res.ty == Some(ty),
    {
        Self { pattern: pattern.to_owned(), ty: Some(ty) }
    }
}

impl From<String> for ClosureParam {
    fn from(pattern: String) -> (res: Self) {
        ClosureParam { pattern, ty: None }
    }
}

impl vstd::std_specs::convert::FromSpecImpl<String> for ClosureParam {
    open spec fn obeys_from_spec() -> bool {
        true
    }

    open spec fn from_spec(pattern: String) -> Self {
        ClosureParam { pattern, ty: None }
    }
}

impl<'a> From<&'a str> for ClosureParam {
    fn from(pattern: &'a str) -> (res: Self)
        ensures
            res.pattern@ == pattern@,
            res.ty is None,
    {
        Self::untyped(pattern)
    }
}

impl<'a> vstd::std_specs::convert::FromSpecImpl<&'a str> for ClosureParam {
    /// A `String` is not determined by its text in this model, so the result is
    /// not named as one value; the impl's own contract says what it holds.
    open spec fn obeys_from_spec() -> bool {
        false
    }

    open spec fn from_spec(pattern: &'a str) -> Self {
        choose|p: ClosureParam| p.pattern@ == pattern@ && p.ty is None
    }
}

#[derive(Debug)]
pub enum PathType {
    /// separated by `::` (e.g., `std::thread`)
    Namespace,
    /// separated by `.` (e.g., `self.field`)
    Member,
}

/// Expression
#[derive(Debug)]
pub enum Expr {
    Ident(String),
    /// An opaque macro invocation preserved as Rust source, e.g. `panic!("msg")`.
    Macro(String),
    Path(Vec<String>, PathType),
    Literal(Literal),
    Array(Vec<Expr>),
    Tuple(Vec<Expr>),
    Call(Box<Expr>, Vec<Expr>),
    MethodCall(Box<Expr>, String, Vec<Expr>),
    Block(Block),
    Loop(Box<Block>),
    /// `while condition { body }`
    While { condition: Box<Expr>, body: Block },
    /// `for pattern in iter { body }`
    For { pattern: String, iter: Box<Expr>, body: Block },
    Await(Box<Expr>),
    /// `(params, body, is_move)`: the third field is `true` for `move |…| …` closures.
    Closure(Vec<ClosureParam>, Box<Expr>, bool),
    /// A closure whose explicit Rust return type must survive parse/print.
    TypedClosure(Vec<ClosureParam>, Type, Box<Expr>, bool),
    /// builder-style chained calls
    BuilderChain(Vec<BuilderMethod>),
    /// unsafe expression support
    Unsafe(Box<Block>),
    /// conditional expression
    If { condition: Box<Expr>, then_branch: Block, else_branch: Option<Block> },
    IfLet { pattern: String, value: Box<Expr>, then_branch: Block, else_branch: Option<Block> },
    /// match expression
    Match { expr: Box<Expr>, arms: Vec<MatchArm> },
    /// `&expr`: the first flag asks for `&`, the second for `mut`
    Reference(Box<Expr>, bool, bool),
    /// `left op right`, e.g., `a != 0`
    BinaryOp(Box<Expr>, String, Box<Expr>),
    /// `op expr`, e.g., `!x`, `-y`
    UnaryOp(String, Box<Expr>),
    /// `expr[index]`, e.g., `array[i]`
    Index(Box<Expr>, Box<Expr>),
    /// `(expr)`, e.g., `(a + b)`
    Parenthesized(Box<Expr>),
    /// `expr as Type`
    Cast(Box<Expr>, Type),
    /// `left = right`, e.g., `state = State::S0`
    Assign(Box<Expr>, Box<Expr>),
}

/// Match expression arm
#[derive(Debug)]
pub struct MatchArm {
    pub pattern: String,
    pub guard: Option<Expr>,
    pub body: Block,
}

/// Distinguish different builder methods such as `.name()`, `.spawn()`.
#[derive(Debug)]
pub enum BuilderMethod {
    /// e.g., `.name("thread_name")`
    Named(String),
    Spawn {
        closure: Box<Expr>,
        /// move semantics handled in `BuilderMethod`
        move_kw: bool,
    },
}

/// Literal
#[derive(Debug)]
pub enum Literal {
    /// Literal source preserved verbatim when its spelling carries Rust type or
    /// escaping information that must survive a parse/print round trip.
    Raw(String),
    Int(i64),
    /// A floating-point literal, held as the decimal text that Rust's `Display`
    /// gives for the value (`1.5`, `3`, `-0.25`).
    Float(String),
    Str(String),
    Bool(bool),
    Char(char),
}

/// Code block
#[derive(Debug)]
pub struct Block {
    pub stmts: Vec<Statement>,
    pub expr: Option<Box<Expr>>,
}

/// Statement
#[derive(Debug)]
pub enum Statement {
    Let(LetStmt),
    Expr(Expr),
    Item(Box<Item>),
    /// `return;` or `return value;`
    Return(Option<Expr>),
    /// continue statement
    Continue,
    /// break statement
    Break,
    /// comment statement
    Comment(String),
}

/// let binding
#[derive(Debug)]
pub struct LetStmt {
    pub ifmut: bool,
    pub name: String,
    pub ty: Option<Type>,
    pub init: Option<Expr>,
}

// ========== Auxiliary types ========== //
#[derive(Debug)]
pub enum Visibility {
    Public,
    Private,
    /// `pub(in path)`
    Restricted(Vec<String>),
    /// no visibility needed for trait implementations, follows the trait
    Inherited,
}

#[derive(Debug)]
pub struct Attribute {
    pub name: String,
    pub args: Vec<AttributeArg>,
}

#[derive(Debug)]
pub enum AttributeArg {
    Ident(String),
    Literal(Literal),
    KeyValue(String, Literal),
}

#[derive(Debug)]
pub struct Field {
    pub name: String,
    pub ty: Type,
    pub docs: Vec<String>,
    pub attrs: Vec<Attribute>,
}

#[derive(Debug)]
pub struct Variant {
    pub name: String,
    /// `Some` for a tuple variant
    pub data: Option<Vec<Type>>,
    pub docs: Vec<String>,
}

#[derive(Debug)]
pub struct GenericParam {
    pub name: String,
    /// trait bounds
    pub bounds: Vec<String>,
}

#[derive(Debug)]
pub struct Param {
    pub name: String,
    pub ty: Type,
}

#[derive(Debug)]
pub enum ImplItem {
    Method(FunctionDef),
    AssocConst(String, Type, Expr),
    AssocType(String, Type),
}

#[derive(Debug)]
pub struct UseStatement {
    pub path: Vec<String>,
    pub kind: UseKind,
}

#[derive(Debug)]
pub enum UseKind {
    Simple,
    /// `{path}::*`
    Glob,
    /// `{path}::{a, b}`
    Nested(Vec<String>),
}

/// `lazy_static!` macro definition
#[derive(Debug)]
pub struct LazyStaticDef {
    pub name: String,
    pub ty: Type,
    pub init: Block,
    pub vis: Visibility,
    pub docs: Vec<String>,
}

/// `b` is a copy of the type `a`: the same variant, equal names and flags, and
/// nested types that are copies in turn, element by element.
pub open spec fn same_type(a: Type, b: Type) -> bool
    decreases a,
{
    match a {
        Type::Path(p) => b matches Type::Path(q) && q@ == p@,
        Type::Named(n) => b matches Type::Named(m) && m == n,
        Type::Generic(n, args) => b matches Type::Generic(m, brgs) && m == n && same_types(
            args@,
            brgs@,
        ),
        Type::CallableTrait(c) => b matches Type::CallableTrait(d) && d.qualifier == c.qualifier
            && d.trait_name == c.trait_name && same_types(c.args@, d.args@) && same_type(
            *c.return_type,
            *d.return_type,
        ),
        Type::Reference(t, r, m) => b matches Type::Reference(u, r2, m2) && r2 == r && m2 == m
            && same_type(*t, *u),
        Type::Tuple(ts) => b matches Type::Tuple(us) && same_types(ts@, us@),
        Type::Slice(t) => b matches Type::Slice(u) && same_type(*t, *u),
        Type::Array(t, n) => b matches Type::Array(u, m) && m == n && same_type(*t, *u),
        Type::Unit => b is Unit,
        Type::Never => b is Never,
    }
}

/// `b` holds copies of the types of `a`, in the same order.
pub open spec fn same_types(a: Seq<Type>, b: Seq<Type>) -> bool
    decreases a,
{
    if a.len() == 0 {
        b.len() == 0
    } else {
        b.len() == a.len() && same_types(a.drop_last(), b.drop_last()) && same_type(
            a.last(),
            b.last(),
        )
    }
}

/// `b` is a copy of the visibility `a`.
pub open spec fn same_visibility(a: Visibility, b: Visibility) -> bool {
    match a {
        Visibility::Restricted(p) => b matches Visibility::Restricted(q) && q@ == p@,
        _ => b == a,
    }
}

/// `b` is a copy of the kind of `use` `a`.
pub open spec fn same_use_kind(a: UseKind, b: UseKind) -> bool {
    match a {
        UseKind::Nested(names) => b matches UseKind::Nested(others) && others@ == names@,
        _ => b == a,
    }
}

/// `b` is a copy of the `use` item `a`.
pub open spec fn same_use(a: UseStatement, b: UseStatement) -> bool {
    b.path@ == a.path@ && same_use_kind(a.kind, b.kind)
}

/// `b` is a copy of the attribute `a`.
pub open spec fn same_attribute(a: Attribute, b: Attribute) -> bool {
    b.name == a.name && b.args@ == a.args@
}

/// `b` holds copies of the attributes of `a`, in the same order.
pub open spec fn same_attributes(a: Seq<Attribute>, b: Seq<Attribute>) -> bool {
    b.len() == a.len() && forall|i: int| 0 <= i < a.len() ==> same_attribute(a[i], #[trigger] b[i])
}

/// `b` is a copy of the generic parameter `a`.
pub open spec fn same_generic(a: GenericParam, b: GenericParam) -> bool {
    b.name == a.name && b.bounds@ == a.bounds@
}

/// `b` holds copies of the generic parameters of `a`, in the same order.
pub open spec fn same_generics(a: Seq<GenericParam>, b: Seq<GenericParam>) -> bool {
    b.len() == a.len() && forall|i: int| 0 <= i < a.len() ==> same_generic(a[i], #[trigger] b[i])
}

/// `b` is a copy of the optional type `a`.
pub open spec fn same_opt_type(a: Option<Type>, b: Option<Type>) -> bool {
    match a {
        Some(t) => b matches Some(u) && same_type(t, u),
        None => b is None,
    }
}

/// `b` is a copy of the parameter `a`.
pub open spec fn same_param(a: Param, b: Param) -> bool {
    b.name == a.name && same_type(a.ty, b.ty)
}

/// `b` holds copies of the parameters of `a`, in the same order.
pub open spec fn same_params(a: Seq<Param>, b: Seq<Param>) -> bool {
    b.len() == a.len() && forall|i: int| 0 <= i < a.len() ==> same_param(a[i], #[trigger] b[i])
}

/// `b` is a copy of the closure parameter `a`.
pub open spec fn same_closure_param(a: ClosureParam, b: ClosureParam) -> bool {
    b.pattern == a.pattern && same_opt_type(a.ty, b.ty)
}

/// `b` holds copies of the closure parameters of `a`, in the same order.
pub open spec fn same_closure_params(a: Seq<ClosureParam>, b: Seq<ClosureParam>) -> bool {
    b.len() == a.len() && forall|i: int|
        0 <= i < a.len() ==> same_closure_param(a[i], #[trigger] b[i])
}

/// `b` is a copy of the field `a`.
pub open spec fn same_field(a: Field, b: Field) -> bool {
    &&& b.name == a.name
    &&& same_type(a.ty, b.ty)
    &&& b.docs@ == a.docs@
    &&& same_attributes(a.attrs@, b.attrs@)
}

/// `b` holds copies of the fields of `a`, in the same order.
pub open spec fn same_fields(a: Seq<Field>, b: Seq<Field>) -> bool {
    b.len() == a.len() && forall|i: int| 0 <= i < a.len() ==> same_field(a[i], #[trigger] b[i])
}

/// `b` is a copy of the enum variant `a`.
pub open spec fn same_variant(a: Variant, b: Variant) -> bool {
    &&& b.name == a.name
    &&& match a.data {
        Some(ts) => b.data matches Some(us) && same_types(ts@, us@),
        None => b.data is None,
    }
    &&& b.docs@ == a.docs@
}

/// `b` holds copies of the variants of `a`, in the same order.
pub open spec fn same_variants(a: Seq<Variant>, b: Seq<Variant>) -> bool {
    b.len() == a.len() && forall|i: int| 0 <= i < a.len() ==> same_variant(a[i], #[trigger] b[i])
}

/// `b` is a copy of the struct definition `a`.
pub open spec fn same_struct(a: StructDef, b: StructDef) -> bool {
    &&& b.name == a.name
    &&& same_fields(a.fields@, b.fields@)
    &&& same_generics(a.generics@, b.generics@)
    &&& b.derives@ == a.derives@
    &&& b.docs@ == a.docs@
    &&& same_visibility(a.vis, b.vis)
}

/// `b` is a copy of the union definition `a`.
pub open spec fn same_union(a: UnionDef, b: UnionDef) -> bool {
    &&& b.name == a.name
    &&& same_fields(a.fields@, b.fields@)
    &&& same_generics(a.generics@, b.generics@)
    &&& b.derives@ == a.derives@
    &&& b.docs@ == a.docs@
    &&& same_visibility(a.vis, b.vis)
}

/// `b` is a copy of the enum definition `a`.
pub open spec fn same_enum(a: EnumDef, b: EnumDef) -> bool {
    &&& b.name == a.name
    &&& same_variants(a.variants@, b.variants@)
    &&& same_generics(a.generics@, b.generics@)
    &&& b.derives@ == a.derives@
    &&& b.docs@ == a.docs@
    &&& same_visibility(a.vis, b.vis)
}

/// `b` is a copy of the type alias `a`.
pub open spec fn same_type_alias(a: TypeAlias, b: TypeAlias) -> bool {
    &&& b.name == a.name
    &&& same_type(a.target, b.target)
    &&& same_generics(a.generics@, b.generics@)
    &&& same_visibility(a.vis, b.vis)
    &&& b.docs@ == a.docs@
}

/// `b` is a copy of the expression `a`: the same variant, equal names, operators,
/// literals and flags, and nested nodes that are copies in turn.
pub open spec fn same_expr(a: Expr, b: Expr) -> bool
    decreases a,
{
    match a {
        Expr::Ident(id) => b matches Expr::Ident(id2) && id2 == id,
        Expr::Macro(source) => b matches Expr::Macro(source2) && source2 == source,
        Expr::Path(path, path_type) => b matches Expr::Path(path2, path_type2) && path2@ == path@
            && path_type2 == path_type,
        Expr::Literal(lit) => b matches Expr::Literal(lit2) && lit2 == lit,
        Expr::Array(items) => b matches Expr::Array(items2) && same_exprs(items@, items2@),
        Expr::Tuple(items) => b matches Expr::Tuple(items2) && same_exprs(items@, items2@),
        Expr::Call(callee, args) => b matches Expr::Call(callee2, args2) && same_expr(
            *callee,
            *callee2,
        ) && same_exprs(args@, args2@),
        Expr::MethodCall(receiver, method, args) => b matches Expr::MethodCall(
            receiver2,
            method2,
            args2,
        ) && method2 == method && same_expr(*receiver, *receiver2) && same_exprs(args@, args2@),
        Expr::Block(block) => b matches Expr::Block(block2) && same_block(block, block2),
        Expr::Loop(block) => b matches Expr::Loop(block2) && same_block(*block, *block2),
        Expr::While { condition, body } => b matches Expr::While {
            condition: condition2,
            body: body2,
        } && same_expr(*condition, *condition2) && same_block(body, body2),
        Expr::For { pattern, iter, body } => b matches Expr::For {
            pattern: pattern2,
            iter: iter2,
            body: body2,
        } && pattern2 == pattern && same_expr(*iter, *iter2) && same_block(body, body2),
        Expr::Await(inner) => b matches Expr::Await(inner2) && same_expr(*inner, *inner2),
        Expr::Closure(params, body, is_move) => b matches Expr::Closure(params2, body2, is_move2)
            && is_move2 == is_move && same_closure_params(params@, params2@) && same_expr(
            *body,
            *body2,
        ),
        Expr::TypedClosure(params, return_type, body, is_move) => b matches Expr::TypedClosure(
            params2,
            return_type2,
            body2,
            is_move2,
        ) && is_move2 == is_move && same_closure_params(params@, params2@) && same_type(
            return_type,
            return_type2,
        ) && same_expr(*body, *body2),
        Expr::BuilderChain(methods) => b matches Expr::BuilderChain(methods2)
            && same_builder_methods(methods@, methods2@),
        Expr::Unsafe(block) => b matches Expr::Unsafe(block2) && same_block(*block, *block2),
        Expr::If { condition, then_branch, else_branch } => b matches Expr::If {
            condition: condition2,
            then_branch: then_branch2,
            else_branch: else_branch2,
        } && same_expr(*condition, *condition2) && same_block(then_branch, then_branch2) && (
        match else_branch {
            Some(e) => else_branch2 matches Some(e2) && same_block(e, e2),
            None => else_branch2 is None,
        }),
        Expr::IfLet { pattern, value, then_branch, else_branch } => b matches Expr::IfLet {
            pattern: pattern2,
            value: value2,
            then_branch: then_branch2,
            else_branch: else_branch2,
        } && pattern2 == pattern && same_expr(*value, *value2) && same_block(
            then_branch,
            then_branch2,
        ) && (match else_branch {
            Some(e) => else_branch2 matches Some(e2) && same_block(e, e2),
            None => else_branch2 is None,
        }),
        Expr::Match { expr, arms } => b matches Expr::Match { expr: expr2, arms: arms2 }
            && same_expr(*expr, *expr2) && same_arms(arms@, arms2@),
        Expr::Reference(inner, is_reference, mutable) => b matches Expr::Reference(
            inner2,
            is_reference2,
            mutable2,
        ) && is_reference2 == is_reference && mutable2 == mutable && same_expr(*inner, *inner2),
        Expr::BinaryOp(left, op, right) => b matches Expr::BinaryOp(left2, op2, right2) && op2
            == op && same_expr(*left, *left2) && same_expr(*right, *right2),
        Expr::UnaryOp(op, inner) => b matches Expr::UnaryOp(op2, inner2) && op2 == op
            && same_expr(*inner, *inner2),
        Expr::Index(array, index) => b matches Expr::Index(array2, index2) && same_expr(
            *array,
            *array2,
        ) && same_expr(*index, *index2),
        Expr::Parenthesized(inner) => b matches Expr::Parenthesized(inner2) && same_expr(
            *inner,
            *inner2,
        ),
        Expr::Cast(inner, ty) => b matches Expr::Cast(inner2, ty2) && same_expr(*inner, *inner2)
            && same_type(ty, ty2),
        Expr::Assign(left, right) => b matches Expr::Assign(left2, right2) && same_expr(
            *left,
            *left2,
        ) && same_expr(*right, *right2),
    }
}

/// `b` holds copies of the expressions of `a`, in the same order.
pub open spec fn same_exprs(a: Seq<Expr>, b: Seq<Expr>) -> bool
    decreases a,
{
    if a.len() == 0 {
        b.len() == 0
    } else {
        b.len() == a.len() && same_exprs(a.drop_last(), b.drop_last()) && same_expr(
            a.last(),
            b.last(),
        )
    }
}

/// `b` is a copy of the match arm `a`.
pub open spec fn same_arm(a: MatchArm, b: MatchArm) -> bool
    decreases a,
{
    &&& b.pattern == a.pattern
    &&& match a.guard {
        Some(g) => b.guard matches Some(g2) && same_expr(g, g2),
        None => b.guard is None,
    }
    &&& same_block(a.body, b.body)
}

/// `b` holds copies of the match arms of `a`, in the same order.
pub open spec fn same_arms(a: Seq<MatchArm>, b: Seq<MatchArm>) -> bool
    decreases a,
{
    if a.len() == 0 {
        b.len() == 0
    } else {
        b.len() == a.len() && same_arms(a.drop_last(), b.drop_last()) && same_arm(
            a.last(),
            b.last(),
        )
    }
}

/// `b` is a copy of the builder method `a`.
pub open spec fn same_builder_method(a: BuilderMethod, b: BuilderMethod) -> bool
    decreases a,
{
    match a {
        BuilderMethod::Named(name) => b matches BuilderMethod::Named(name2) && name2 == name,
        BuilderMethod::Spawn { closure, move_kw } => b matches BuilderMethod::Spawn {
            closure: closure2,
            move_kw: move_kw2,
        } && move_kw2 == move_kw && same_expr(*closure, *closure2),
    }
}

/// `b` holds copies of the builder methods of `a`, in the same order.
pub open spec fn same_builder_methods(a: Seq<BuilderMethod>, b: Seq<BuilderMethod>) -> bool
    decreases a,
{
    if a.len() == 0 {
        b.len() == 0
    } else {
        b.len() == a.len() && same_builder_methods(a.drop_last(), b.drop_last())
            && same_builder_method(a.last(), b.last())
    }
}

/// `b` is a copy of the block `a`.
pub open spec fn same_block(a: Block, b: Block) -> bool
    decreases a,
{
    &&& same_stmts(a.stmts@, b.stmts@)
    &&& match a.expr {
        Some(e) => b.expr matches Some(e2) && same_expr(*e, *e2),
        None => b.expr is None,
    }
}

/// `b` holds copies of the statements of `a`, in the same order.
pub open spec fn same_stmts(a: Seq<Statement>, b: Seq<Statement>) -> bool
    decreases a,
{
    if a.len() == 0 {
        b.len() == 0
    } else {
        b.len() == a.len() && same_stmts(a.drop_last(), b.drop_last()) && same_stmt(
            a.last(),
            b.last(),
        )
    }
}

/// `b` is a copy of the statement `a`.
pub open spec fn same_stmt(a: Statement, b: Statement) -> bool
    decreases a,
{
    match a {
        Statement::Let(ls) => b matches Statement::Let(ls2) && same_let(ls, ls2),
        Statement::Expr(e) => b matches Statement::Expr(e2) && same_expr(e, e2),
        Statement::Item(item) => b matches Statement::Item(item2) && same_item(*item, *item2),
        Statement::Return(value) => b matches Statement::Return(value2) && (match value {
            Some(v) => value2 matches Some(v2) && same_expr(v, v2),
            None => value2 is None,
        }),
        Statement::Continue => b is Continue,
        Statement::Break => b is Break,
        Statement::Comment(c) => b matches Statement::Comment(c2) && c2 == c,
    }
}

/// `b` is a copy of the `let` statement `a`.
pub open spec fn same_let(a: LetStmt, b: LetStmt) -> bool
    decreases a,
{
    &&& b.ifmut == a.ifmut
    &&& b.name == a.name
    &&& same_opt_type(a.ty, b.ty)
    &&& match a.init {
        Some(e) => b.init matches Some(e2) && same_expr(e, e2),
        None => b.init is None,
    }
}

/// `b` is a copy of the item `a`.
pub open spec fn same_item(a: Item, b: Item) -> bool
    decreases a,
{
    match a {
        Item::Raw(raw) => b matches Item::Raw(raw2) && raw2 == raw,
        Item::Struct(s) => b matches Item::Struct(s2) && same_struct(s, s2),
        Item::Enum(e) => b matches Item::Enum(e2) && same_enum(e, e2),
        Item::Union(u) => b matches Item::Union(u2) && same_union(u, u2),
        Item::Function(f) => b matches Item::Function(f2) && same_function(f, f2),
        Item::Impl(i) => b matches Item::Impl(i2) && same_impl(i, i2),
        Item::Const(c) => b matches Item::Const(c2) && same_const(c, c2),
        Item::TypeAlias(t) => b matches Item::TypeAlias(t2) && same_type_alias(t, t2),
        Item::Use(u) => b matches Item::Use(u2) && same_use(u, u2),
        Item::Mod(m) => b matches Item::Mod(m2) && same_module(*m, *m2),
        Item::LazyStatic(l) => b matches Item::LazyStatic(l2) && same_lazy_static(l, l2),
    }
}

/// `b` holds copies of the items of `a`, in the same order.
pub open spec fn same_items(a: Seq<Item>, b: Seq<Item>) -> bool
    decreases a,
{
    if a.len() == 0 {
        b.len() == 0
    } else {
        b.len() == a.len() && same_items(a.drop_last(), b.drop_last()) && same_item(
            a.last(),
            b.last(),
        )
    }
}

/// `b` is a copy of the module `a`.
pub open spec fn same_module(a: RustModule, b: RustModule) -> bool
    decreases a,
{
    &&& b.name == a.name
    &&& b.docs@ == a.docs@
    &&& same_items(a.items@, b.items@)
    &&& same_attributes(a.attrs@, b.attrs@)
    &&& same_visibility(a.vis, b.vis)
}

/// `b` is a copy of the function definition `a`.
pub open spec fn same_function(a: FunctionDef, b: FunctionDef) -> bool
    decreases a,
{
    &&& b.name == a.name
    &&& same_params(a.params@, b.params@)
    &&& same_type(a.return_type, b.return_type)
    &&& same_generics(a.generics@, b.generics@)
    &&& same_block(a.body, b.body)
    &&& b.asyncness == a.asyncness
    &&& same_visibility(a.vis, b.vis)
    &&& b.docs@ == a.docs@
    &&& same_attributes(a.attrs@, b.attrs@)
}

/// `b` is a copy of the impl block `a`.
pub open spec fn same_impl(a: ImplBlock, b: ImplBlock) -> bool
    decreases a,
{
    &&& same_type(a.target, b.target)
    &&& same_generics(a.generics@, b.generics@)
    &&& same_impl_items(a.items@, b.items@)
    &&& same_opt_type(a.trait_impl, b.trait_impl)
}

/// `b` holds copies of the impl items of `a`, in the same order.
pub open spec fn same_impl_items(a: Seq<ImplItem>, b: Seq<ImplItem>) -> bool
    decreases a,
{
    if a.len() == 0 {
        b.len() == 0
    } else {
        b.len() == a.len() && same_impl_items(a.drop_last(), b.drop_last()) && same_impl_item(
            a.last(),
            b.last(),
        )
    }
}

/// `b` is a copy of the impl item `a`.
pub open spec fn same_impl_item(a: ImplItem, b: ImplItem) -> bool
    decreases a,
{
    match a {
        ImplItem::Method(f) => b matches ImplItem::Method(f2) && same_function(f, f2),
        ImplItem::AssocConst(name, ty, e) => b matches ImplItem::AssocConst(name2, ty2, e2) && name2
            == name && same_type(ty, ty2) && same_expr(e, e2),
        ImplItem::AssocType(name, ty) => b matches ImplItem::AssocType(name2, ty2) && name2 == name
            && same_type(ty, ty2),
    }
}

/// `b` is a copy of the constant definition `a`.
pub open spec fn same_const(a: ConstDef, b: ConstDef) -> bool
    decreases a,
{
    &&& b.name == a.name
    &&& same_type(a.ty, b.ty)
    &&& same_expr(a.value, b.value)
    &&& same_visibility(a.vis, b.vis)
    &&& b.docs@ == a.docs@
}

/// `b` is a copy of the `lazy_static!` definition `a`.
pub open spec fn same_lazy_static(a: LazyStaticDef, b: LazyStaticDef) -> bool
    decreases a,
{
    &&& b.name == a.name
    &&& same_type(a.ty, b.ty)
    &&& same_block(a.init, b.init)
    &&& same_visibility(a.vis, b.vis)
    &&& b.docs@ == a.docs@
}

/// Every type is a copy of itself.
proof fn lemma_same_type_refl(t: Type)
    ensures
        same_type(t, t),
    decreases t,
{
    match t {
        Type::Generic(_, args) => lemma_same_types_refl(args@),
        Type::CallableTrait(c) => {
            lemma_same_types_refl(c.args@);
            lemma_same_type_refl(*c.return_type);
        },
        Type::Reference(inner, _, _) => lemma_same_type_refl(*inner),
        Type::Tuple(ts) => lemma_same_types_refl(ts@),
        Type::Slice(inner) => lemma_same_type_refl(*inner),
        Type::Array(inner, _) => lemma_same_type_refl(*inner),
        _ => {},
    }
}

/// Every sequence of types is a copy of itself.
proof fn lemma_same_types_refl(ts: Seq<Type>)
    ensures
        same_types(ts, ts),
    decreases ts,
{
    if ts.len() > 0 {
        lemma_same_types_refl(ts.drop_last());
        lemma_same_type_refl(ts.last());
    }
}

/// A copy of a vector of strings holds the same strings.
fn clone_strings(v: &Vec<String>) -> (res: Vec<String>)
    ensures
        res@ == v@,
{
    let res = v.clone();
    assert(res@ =~= v@);
    res
}

impl Clone for CallableTraitQualifier {
    fn clone(&self) -> (res: Self)
        ensures
            res == *self,
    {
        match self {
            CallableTraitQualifier::Dyn => CallableTraitQualifier::Dyn,
            CallableTraitQualifier::Impl => CallableTraitQualifier::Impl,
        }
    }
}

impl Clone for Type {
    fn clone(&self) -> (res: Self)
        ensures
            same_type(*self, res),
        decreases self,
    {
        match self {
            Type::Path(p) => Type::Path(clone_strings(p)),
            Type::Named(n) => Type::Named(n.clone()),
            Type::Generic(n, args) => Type::Generic(n.clone(), clone_types(args)),
            Type::CallableTrait(c) => Type::CallableTrait(CallableTraitType {
                qualifier: c.qualifier.clone(),
                trait_name: c.trait_name.clone(),
                args: clone_types(&c.args),
                return_type: Box::new((*c.return_type).clone()),
            }),
            Type::Reference(inner, r, m) => Type::Reference(Box::new((**inner).clone()), *r, *m),
            Type::Tuple(ts) => Type::Tuple(clone_types(ts)),
            Type::Slice(inner) => Type::Slice(Box::new((**inner).clone())),
            Type::Array(inner, n) => Type::Array(Box::new((**inner).clone()), *n),
            Type::Unit => Type::Unit,
            Type::Never => Type::Never,
        }
    }
}

/// Copies each type of `ts`, in order.
fn clone_types(ts: &Vec<Type>) -> (res: Vec<Type>)
    ensures
        same_types(ts@, res@),
    decreases ts,
{
    let mut res: Vec<Type> = Vec::new();
    for i in 0..ts.len()
        invariant
            same_types(ts@.take(i as int), res@),
    {
        let t = ts[i].clone();
        proof {
            assert(ts@.take(i + 1).drop_last() =~= ts@.take(i as int));
            assert(res@.push(t).drop_last() =~= res@);
        }
        res.push(t);
    }
    proof {
        assert(ts@.take(ts.len() as int) =~= ts@);
    }
    res
}

/// Copies an optional type.
fn clone_opt_type(t: &Option<Type>) -> (res: Option<Type>)
    ensures
        same_opt_type(*t, res),
{
    match t {
        Some(t) => Some(t.clone()),
        None => None,
    }
}

impl Clone for Literal {
    fn clone(&self) -> (res: Self)
        ensures
            res == *self,
    {
        match self {
            Literal::Raw(source) => Literal::Raw(source.clone()),
            Literal::Int(i) => Literal::Int(*i),
            Literal::Float(f) => Literal::Float(f.clone()),
            Literal::Str(s) => Literal::Str(s.clone()),
            Literal::Bool(b) => Literal::Bool(*b),
            Literal::Char(c) => Literal::Char(*c),
        }
    }
}

impl Clone for PathType {
    fn clone(&self) -> (res: Self)
        ensures
            res == *self,
    {
        match self {
            PathType::Namespace => PathType::Namespace,
            PathType::Member => PathType::Member,
        }
    }
}

impl Clone for AttributeArg {
    fn clone(&self) -> (res: Self)
        ensures
            res == *self,
    {
        match self {
            AttributeArg::Ident(id) => AttributeArg::Ident(id.clone()),
            AttributeArg::Literal(lit) => AttributeArg::Literal(lit.clone()),
            AttributeArg::KeyValue(key, lit) => AttributeArg::KeyValue(key.clone(), lit.clone()),
        }
    }
}

impl Clone for Attribute {
    fn clone(&self) -> (res: Self)
        ensures
            same_attribute(*self, res),
    {
        let args = self.args.clone();
        assert(args@ =~= self.args@);
        Attribute { name: self.name.clone(), args }
    }
}

/// Copies each attribute of `attrs`, in order.
fn clone_attributes(attrs: &Vec<Attribute>) -> (res: Vec<Attribute>)
    ensures
        same_attributes(attrs@, res@),
{
    attrs.clone()
}

impl Clone for Visibility {
    fn clone(&self) -> (res: Self)
        ensures
            same_visibility(*self, res),
    {
        match self {
            Visibility::Public => Visibility::Public,
            Visibility::Private => Visibility::Private,
            Visibility::Restricted(path) => Visibility::Restricted(clone_strings(path)),
            Visibility::Inherited => Visibility::Inherited,
        }
    }
}

impl Clone for UseKind {
    fn clone(&self) -> (res: Self)
        ensures
            same_use_kind(*self, res),
    {
        match self {
            UseKind::Simple => UseKind::Simple,
            UseKind::Glob => UseKind::Glob,
            UseKind::Nested(names) => UseKind::Nested(clone_strings(names)),
        }
    }
}

impl Clone for UseStatement {
    fn clone(&self) -> (res: Self)
        ensures
            same_use(*self, res),
    {
        UseStatement { path: clone_strings(&self.path), kind: self.kind.clone() }
    }
}

impl Clone for GenericParam {
    fn clone(&self) -> (res: Self)
        ensures
            same_generic(*self, res),
    {
        GenericParam { name: self.name.clone(), bounds: clone_strings(&self.bounds) }
    }
}

/// Copies each generic parameter of `generics`, in order.
fn clone_generics(generics: &Vec<GenericParam>) -> (res: Vec<GenericParam>)
    ensures
        same_generics(generics@, res@),
{
    generics.clone()
}

impl Clone for Param {
    fn clone(&self) -> (res: Self)
        ensures
            same_param(*self, res),
    {
        Param { name: self.name.clone(), ty: self.ty.clone() }
    }
}

/// Copies each parameter of `params`, in order.
fn clone_params(params: &Vec<Param>) -> (res: Vec<Param>)
    ensures
        same_params(params@, res@),
{
    let res = params.clone();
    assert forall|i: int| 0 <= i < params.len() implies same_param(
        params[i],
        #[trigger] res[i],
    ) by {
        lemma_same_type_refl(params[i].ty);
    }
    res
}

impl Clone for ClosureParam {
    fn clone(&self) -> (res: Self)
        ensures
            same_closure_param(*self, res),
    {
        ClosureParam { pattern: self.pattern.clone(), ty: clone_opt_type(&self.ty) }
    }
}

/// Copies each closure parameter of `params`, in order.
fn clone_closure_params(params: &Vec<ClosureParam>) -> (res: Vec<ClosureParam>)
    ensures
        same_closure_params(params@, res@),
{
    let res = params.clone();
    assert forall|i: int| 0 <= i < params.len() implies same_closure_param(
        params[i],
        #[trigger] res[i],
    ) by {
        if let Some(t) = params[i].ty {
            lemma_same_type_refl(t);
        }
    }
    res
}

impl Clone for Field {
    fn clone(&self) -> (res: Self)
        ensures
            same_field(*self, res),
    {
        Field {
            name: self.name.clone(),
            ty: self.ty.clone(),
            docs: clone_strings(&self.docs),
            attrs: clone_attributes(&self.attrs),
        }
    }
}

/// Copies each field of `fields`, in order.
fn clone_fields(fields: &Vec<Field>) -> (res: Vec<Field>)
    ensures
        same_fields(fields@, res@),
{
    let res = fields.clone();
    assert forall|i: int| 0 <= i < fields.len() implies same_field(
        fields[i],
        #[trigger] res[i],
    ) by {
        lemma_same_type_refl(fields[i].ty);
    }
    res
}

impl Clone for Variant {
    fn clone(&self) -> (res: Self)
        ensures
            same_variant(*self, res),
    {
        Variant {
            name: self.name.clone(),
            data: match &self.data {
                Some(ts) => Some(clone_types(ts)),
                None => None,
            },
            docs: clone_strings(&self.docs),
        }
    }
}

/// Copies each variant of `variants`, in order.
fn clone_variants(variants: &Vec<Variant>) -> (res: Vec<Variant>)
    ensures
        same_variants(variants@, res@),
{
    let res = variants.clone();
    assert forall|i: int| 0 <= i < variants.len() implies same_variant(
        variants[i],
        #[trigger] res[i],
    ) by {
        if let Some(ts) = variants[i].data {
            lemma_same_types_refl(ts@);
        }
    }
    res
}

impl Clone for StructDef {
    fn clone(&self) -> (res: Self)
        ensures
            same_struct(*self, res),
    {
        StructDef {
            name: self.name.clone(),
            fields: clone_fields(&self.fields),
            generics: clone_generics(&self.generics),
            derives: clone_strings(&self.derives),
            docs: clone_strings(&self.docs),
            vis: self.vis.clone(),
        }
    }
}

impl Clone for UnionDef {
    fn clone(&self) -> (res: Self)
        ensures
            same_union(*self, res),
    {
        UnionDef {
            name: self.name.clone(),
            fields: clone_fields(&self.fields),
            generics: clone_generics(&self.generics),
            derives: clone_strings(&self.derives),
            docs: clone_strings(&self.docs),
            vis: self.vis.clone(),
        }
    }
}

impl Clone for EnumDef {
    fn clone(&self) -> (res: Self)
        ensures
            same_enum(*self, res),
    {
        EnumDef {
            name: self.name.clone(),
            variants: clone_variants(&self.variants),
            generics: clone_generics(&self.generics),
            derives: clone_strings(&self.derives),
            docs: clone_strings(&self.docs),
            vis: self.vis.clone(),
        }
    }
}

impl Clone for TypeAlias {
    fn clone(&self) -> (res: Self)
        ensures
            same_type_alias(*self, res),
    {
        TypeAlias {
            name: self.name.clone(),
            target: self.target.clone(),
            generics: clone_generics(&self.generics),
            vis: self.vis.clone(),
            docs: clone_strings(&self.docs),
        }
    }
}

impl Clone for Expr {
    fn clone(&self) -> (res: Self)
        ensures
            same_expr(*self, res),
        decreases self,
    {
        match self {
            Expr::Ident(id) => Expr::Ident(id.clone()),
            Expr::Macro(source) => Expr::Macro(source.clone()),
            Expr::Path(path, path_type) => Expr::Path(clone_strings(path), path_type.clone()),
            Expr::Literal(lit) => Expr::Literal(lit.clone()),
            Expr::Array(items) => Expr::Array(clone_exprs(items)),
            Expr::Tuple(items) => Expr::Tuple(clone_exprs(items)),
            Expr::Call(callee, args) => Expr::Call(Box::new((**callee).clone()), clone_exprs(args)),
            Expr::MethodCall(receiver, method, args) => Expr::MethodCall(
                Box::new((**receiver).clone()),
                method.clone(),
                clone_exprs(args),
            ),
            Expr::Block(block) => Expr::Block(block.clone()),
            Expr::Loop(block) => Expr::Loop(Box::new((**block).clone())),
            Expr::While { condition, body } => Expr::While {
                condition: Box::new((**condition).clone()),
                body: body.clone(),
            },
            Expr::For { pattern, iter, body } => Expr::For {
                pattern: pattern.clone(),
                iter: Box::new((**iter).clone()),
                body: body.clone(),
            },
            Expr::Await(inner) => Expr::Await(Box::new((**inner).clone())),
            Expr::Closure(params, body, is_move) => Expr::Closure(
                clone_closure_params(params),
                Box::new((**body).clone()),
                *is_move,
            ),
            Expr::TypedClosure(params, return_type, body, is_move) => Expr::TypedClosure(
                clone_closure_params(params),
                return_type.clone(),
                Box::new((**body).clone()),
                *is_move,
            ),
            Expr::BuilderChain(methods) => Expr::BuilderChain(clone_builder_methods(methods)),
            Expr::Unsafe(block) => Expr::Unsafe(Box::new((**block).clone())),
            Expr::If { condition, then_branch, else_branch } => Expr::If {
                condition: Box::new((**condition).clone()),
                then_branch: then_branch.clone(),
                else_branch: match else_branch {
                    Some(b) => Some(b.clone()),
                    None => None,
                },
            },
            Expr::IfLet { pattern, value, then_branch, else_branch } => Expr::IfLet {
                pattern: pattern.clone(),
                value: Box::new((**value).clone()),
                then_branch: then_branch.clone(),
                else_branch: match else_branch {
                    Some(b) => Some(b.clone()),
                    None => None,
                },
            },
            Expr::Match { expr, arms } => Expr::Match {
                expr: Box::new((**expr).clone()),
                arms: clone_arms(arms),
            },
            Expr::Reference(inner, is_reference, mutable) => Expr::Reference(
                Box::new((**inner).clone()),
                *is_reference,
                *mutable,
            ),
            Expr::BinaryOp(left, op, right) => Expr::BinaryOp(
                Box::new((**left).clone()),
                op.clone(),
                Box::new((**right).clone()),
            ),
            Expr::UnaryOp(op, inner) => Expr::UnaryOp(op.clone(), Box::new((**inner).clone())),
            Expr::Index(array, index) => Expr::Index(
                Box::new((**array).clone()),
                Box::new((**index).clone()),
            ),
            Expr::Parenthesized(inner) => Expr::Parenthesized(Box::new((**inner).clone())),
            Expr::Cast(inner, ty) => Expr::Cast(Box::new((**inner).clone()), ty.clone()),
            Expr::Assign(left, right) => Expr::Assign(
                Box::new((**left).clone()),
                Box::new((**right).clone()),
            ),
        }
    }
}

/// Copies each expression of `es`, in order.
fn clone_exprs(es: &Vec<Expr>) -> (res: Vec<Expr>)
    ensures
        same_exprs(es@, res@),
    decreases es,
{
    let mut res: Vec<Expr> = Vec::new();
    for i in 0..es.len()
        invariant
            same_exprs(es@.take(i as int), res@),
    {
        proof {
            assert(decreases_to!(es => es@[i as int]));
        }
        let e = es[i].clone();
        proof {
            assert(es@.take(i + 1).drop_last() =~= es@.take(i as int));
            assert(res@.push(e).drop_last() =~= res@);
        }
        res.push(e);
    }
    proof {
        assert(es@.take(es.len() as int) =~= es@);
    }
    res
}

/// Copies each builder method of `ms`, in order.
fn clone_builder_methods(ms: &Vec<BuilderMethod>) -> (res: Vec<BuilderMethod>)
    ensures
        same_builder_methods(ms@, res@),
    decreases ms,
{
    let mut res: Vec<BuilderMethod> = Vec::new();
    for i in 0..ms.len()
        invariant
            same_builder_methods(ms@.take(i as int), res@),
    {
        proof {
            assert(decreases_to!(ms => ms@[i as int]));
        }
        let m = ms[i].clone();
        proof {
            assert(ms@.take(i + 1).drop_last() =~= ms@.take(i as int));
            assert(res@.push(m).drop_last() =~= res@);
        }
        res.push(m);
    }
    proof {
        assert(ms@.take(ms.len() as int) =~= ms@);
    }
    res
}

/// Copies each match arm of `arms`, in order.
fn clone_arms(arms: &Vec<MatchArm>) -> (res: Vec<MatchArm>)
    ensures
        same_arms(arms@, res@),
    decreases arms,
{
    let mut res: Vec<MatchArm> = Vec::new();
    for i in 0..arms.len()
        invariant
            same_arms(arms@.take(i as int), res@),
    {
        proof {
            assert(decreases_to!(arms => arms@[i as int]));
        }
        let a = arms[i].clone();
        proof {
            assert(arms@.take(i + 1).drop_last() =~= arms@.take(i as int));
            assert(res@.push(a).drop_last() =~= res@);
        }
        res.push(a);
    }
    proof {
        assert(arms@.take(arms.len() as int) =~= arms@);
    }
    res
}

impl Clone for MatchArm {
    fn clone(&self) -> (res: Self)
        ensures
            same_arm(*self, res),
        decreases self,
    {
        MatchArm {
            pattern: self.pattern.clone(),
            guard: match &self.guard {
                Some(g) => Some(g.clone()),
                None => None,
            },
            body: self.body.clone(),
        }
    }
}

impl Clone for BuilderMethod {
    fn clone(&self) -> (res: Self)
        ensures
            same_builder_method(*self, res),
        decreases self,
    {
        match self {
            BuilderMethod::Named(name) => BuilderMethod::Named(name.clone()),
            BuilderMethod::Spawn { closure, move_kw } => BuilderMethod::Spawn {
                closure: Box::new((**closure).clone()),
                move_kw: *move_kw,
            },
        }
    }
}

impl Clone for Block {
    fn clone(&self) -> (res: Self)
        ensures
            same_block(*self, res),
        decreases self,
    {
        let mut stmts: Vec<Statement> = Vec::new();
        for i in 0..self.stmts.len()
            invariant
                same_stmts(self.stmts@.take(i as int), stmts@),
        {
            proof {
                assert(decreases_to!(self => self.stmts));
                assert(decreases_to!(self.stmts => self.stmts@));
                assert(decreases_to!(self.stmts@ => self.stmts@[i as int]));
            }
            let st = self.stmts[i].clone();
            proof {
                assert(self.stmts@.take(i + 1).drop_last() =~= self.stmts@.take(i as int));
                assert(stmts@.push(st).drop_last() =~= stmts@);
            }
            stmts.push(st);
        }
        proof {
            assert(self.stmts@.take(self.stmts.len() as int) =~= self.stmts@);
        }
        Block {
            stmts,
            expr: match &self.expr {
                Some(e) => Some(Box::new((**e).clone())),
                None => None,
            },
        }
    }
}

impl Clone for Statement {
    fn clone(&self) -> (res: Self)
        ensures
            same_stmt(*self, res),
        decreases self,
    {
        match self {
            Statement::Let(ls) => Statement::Let(ls.clone()),
            Statement::Expr(e) => Statement::Expr(e.clone()),
            Statement::Item(item) => Statement::Item(Box::new((**item).clone())),
            Statement::Return(value) => Statement::Return(
                match value {
                    Some(v) => Some(v.clone()),
                    None => None,
                },
            ),
            Statement::Continue => Statement::Continue,
            Statement::Break => Statement::Break,
            Statement::Comment(c) => Statement::Comment(c.clone()),
        }
    }
}

impl Clone for LetStmt {
    fn clone(&self) -> (res: Self)
        ensures
            same_let(*self, res),
        decreases self,
    {
        LetStmt {
            ifmut: self.ifmut,
            name: self.name.clone(),
            ty: clone_opt_type(&self.ty),
            init: match &self.init {
                Some(e) => Some(e.clone()),
                None => None,
            },
        }
    }
}

impl Clone for Item {
    fn clone(&self) -> (res: Self)
        ensures
            same_item(*self, res),
        decreases self,
    {
        match self {
            Item::Raw(raw) => Item::Raw(raw.clone()),
            Item::Struct(s) => Item::Struct(s.clone()),
            Item::Enum(e) => Item::Enum(e.clone()),
            Item::Union(u) => Item::Union(u.clone()),
            Item::Function(f) => Item::Function(f.clone()),
            Item::Impl(i) => Item::Impl(i.clone()),
            Item::Const(c) => Item::Const(c.clone()),
            Item::TypeAlias(t) => Item::TypeAlias(t.clone()),
            Item::Use(u) => Item::Use(u.clone()),
            Item::Mod(m) => Item::Mod(Box::new((**m).clone())),
            Item::LazyStatic(l) => Item::LazyStatic(l.clone()),
        }
    }
}

impl Clone for RustModule {
    fn clone(&self) -> (res: Self)
        ensures
            same_module(*self, res),
        decreases self,
    {
        let mut items: Vec<Item> = Vec::new();
        for i in 0..self.items.len()
            invariant
                same_items(self.items@.take(i as int), items@),
        {
            proof {
                assert(decreases_to!(self => self.items));
                assert(decreases_to!(self.items => self.items@));
                assert(decreases_to!(self.items@ => self.items@[i as int]));
            }
            let item = self.items[i].clone();
            proof {
                assert(self.items@.take(i + 1).drop_last() =~= self.items@.take(i as int));
                assert(items@.push(item).drop_last() =~= items@);
            }
            items.push(item);
        }
        proof {
            assert(self.items@.take(self.items.len() as int) =~= self.items@);
        }
        RustModule {
            name: self.name.clone(),
            docs: clone_strings(&self.docs),
            items,
            attrs: clone_attributes(&self.attrs),
            vis: self.vis.clone(),
        }
    }
}

impl Clone for FunctionDef {
    fn clone(&self) -> (res: Self)
        ensures
            same_function(*self, res),
        decreases self,
    {
        FunctionDef {
            name: self.name.clone(),
            params: clone_params(&self.params),
            return_type: self.return_type.clone(),
            generics: clone_generics(&self.generics),
            body: self.body.clone(),
            asyncness: self.asyncness,
            vis: self.vis.clone(),
            docs: clone_strings(&self.docs),
            attrs: clone_attributes(&self.attrs),
        }
    }
}

impl Clone for ImplBlock {
    fn clone(&self) -> (res: Self)
        ensures
            same_impl(*self, res),
        decreases self,
    {
        let mut items: Vec<ImplItem> = Vec::new();
        for i in 0..self.items.len()
            invariant
                same_impl_items(self.items@.take(i as int), items@),
        {
            proof {
                assert(decreases_to!(self => self.items));
                assert(decreases_to!(self.items => self.items@));
                assert(decreases_to!(self.items@ => self.items@[i as int]));
            }
            let item = self.items[i].clone();
            proof {
                assert(self.items@.take(i + 1).drop_last() =~= self.items@.take(i as int));
                assert(items@.push(item).drop_last() =~= items@);
            }
            items.push(item);
        }
        proof {
            assert(self.items@.take(self.items.len() as int) =~= self.items@);
        }
        ImplBlock {
            target: self.target.clone(),
            generics: clone_generics(&self.generics),
            items,
            trait_impl: clone_opt_type(&self.trait_impl),
        }
    }
}

impl Clone for ImplItem {
    fn clone(&self) -> (res: Self)
        ensures
            same_impl_item(*self, res),
        decreases self,
    {
        match self {
            ImplItem::Method(f) => ImplItem::Method(f.clone()),
            ImplItem::AssocConst(name, ty, e) => ImplItem::AssocConst(
                name.clone(),
                ty.clone(),
                e.clone(),
            ),
            ImplItem::AssocType(name, ty) => ImplItem::AssocType(name.clone(), ty.clone()),
        }
    }
}

impl Clone for ConstDef {
    fn clone(&self) -> (res: Self)
        ensures
            same_const(*self, res),
        decreases self,
    {
        ConstDef {
            name: self.name.clone(),
            ty: self.ty.clone(),
            value: self.value.clone(),
            vis: self.vis.clone(),
            docs: clone_strings(&self.docs),
        }
    }
}

impl Clone for LazyStaticDef {
    fn clone(&self) -> (res: Self)
        ensures
            same_lazy_static(*self, res),
        decreases self,
    {
        LazyStaticDef {
            name: self.name.clone(),
            ty: self.ty.clone(),
            init: self.init.clone(),
            vis: self.vis.clone(),
            docs: clone_strings(&self.docs),
        }
    }
}

} // verus!
