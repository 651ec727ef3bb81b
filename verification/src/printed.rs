//! What the code generator prints for each node of the syntax tree, as a
//! sequence of layout pieces (see `layout`).
use vstd::prelude::*;
use vstd::utf8::encode_utf8;

use crate::layout::{line, text, Piece};
use crate::rustlight_ast::{
    Attribute, AttributeArg, Block, BuilderMethod, CallableTraitQualifier, ClosureParam, ConstDef,
    EnumDef, Expr, Field, FunctionDef, GenericParam, ImplBlock, ImplItem, Item, LazyStaticDef,
    Literal, MatchArm, Param, PathType, RustModule, Statement, StructDef, Type, TypeAlias,
    UnionDef, UseKind, UseStatement, Variant, Visibility,
};
use crate::text::{decimal, has_infix, has_prefix, int_text, join, lines, text_lt, views};

verus! {

/// Longest signature, in bytes, that is printed on one line.
pub const MAX_FUNCTION_SIGNATURE_WIDTH: usize = 80;

/// Binding strength of an expression, from loosest to tightest.
#[derive(Debug, Clone, Copy, PartialEq, Eq, Structural)]
pub enum Precedence {
    Unknown,
    Assign,
    LogicalOr,
    LogicalAnd,
    Compare,
    BitOr,
    BitXor,
    BitAnd,
    Shift,
    Add,
    Multiply,
    Cast,
    Unary,
    Postfix,
    Atom,
}

/// The kind of postfix operation applied to a subexpression.
#[derive(Debug, Clone, Copy, PartialEq, Eq, Structural)]
pub enum PostfixKind {
    Call,
    MethodCall,
    Index,
    Await,
}

/// Where a subexpression stands; decides whether it needs parentheses.
#[derive(Debug, Clone, Copy, PartialEq, Eq, Structural)]
pub enum ExprContext {
    Root,
    /// left operand of a binary operator of the given precedence
    BinaryLeft(Precedence),
    /// right operand of a binary operator of the given precedence
    BinaryRight(Precedence),
    AssignLeft,
    AssignRight,
    UnaryOperand,
    CastOperand,
    Postfix(PostfixKind),
}

/// The position of a precedence level in the order from loosest to tightest.
pub open spec fn rank(p: Precedence) -> nat {
    match p {
        Precedence::Unknown => 0,
        Precedence::Assign => 1,
        Precedence::LogicalOr => 2,
        Precedence::LogicalAnd => 3,
        Precedence::Compare => 4,
        Precedence::BitOr => 5,
        Precedence::BitXor => 6,
        Precedence::BitAnd => 7,
        Precedence::Shift => 8,
        Precedence::Add => 9,
        Precedence::Multiply => 10,
        Precedence::Cast => 11,
        Precedence::Unary => 12,
        Precedence::Postfix => 13,
        Precedence::Atom => 14,
    }
}

/// The precedence of a binary operator; `Unknown` for an operator it does not know.
pub open spec fn binary_prec(op: Seq<char>) -> Precedence {
    if op == "||"@ {
        Precedence::LogicalOr
    } else if op == "&&"@ {
        Precedence::LogicalAnd
    } else if op == "=="@ || op == "!="@ || op == "<"@ || op == "<="@ || op == ">"@ || op
        == ">="@ {
        Precedence::Compare
    } else if op == "|"@ {
        Precedence::BitOr
    } else if op == "^"@ {
        Precedence::BitXor
    } else if op == "&"@ {
        Precedence::BitAnd
    } else if op == "<<"@ || op == ">>"@ {
        Precedence::Shift
    } else if op == "+"@ || op == "-"@ {
        Precedence::Add
    } else if op == "*"@ || op == "/"@ || op == "%"@ {
        Precedence::Multiply
    } else {
        Precedence::Unknown
    }
}

/// The precedence of an expression as a whole.
pub open spec fn expr_prec(e: Expr) -> Precedence {
    match e {
        Expr::BinaryOp(_, op, _) => binary_prec(op@),
        Expr::Assign(_, _) => Precedence::Assign,
        Expr::Cast(_, _) => Precedence::Cast,
        Expr::UnaryOp(_, _) | Expr::Reference(_, _, _) => Precedence::Unary,
        Expr::Call(_, _) | Expr::MethodCall(_, _, _) | Expr::Index(_, _) | Expr::Await(_) =>
            Precedence::Postfix,
        Expr::Path(_, PathType::Member) => Precedence::Postfix,
        Expr::Ident(_) | Expr::Literal(_) | Expr::Path(_, PathType::Namespace) | Expr::Array(_)
        | Expr::Tuple(_) | Expr::Macro(_) | Expr::Parenthesized(_) => Precedence::Atom,
        _ => Precedence::Unknown,
    }
}

/// The contexts the printer places subexpressions in: the precedence of a binary
/// parent is that of a binary operator.
pub open spec fn printer_context(ctx: ExprContext) -> bool {
    match ctx {
        ExprContext::BinaryLeft(p) => rank(p) <= rank(Precedence::Multiply),
        ExprContext::BinaryRight(p) => rank(p) <= rank(Precedence::Multiply),
        _ => true,
    }
}

/// A member path of more than one segment, such as `a.f`.
pub open spec fn is_member_path(e: Expr) -> bool {
    match e {
        Expr::Path(path, PathType::Member) => path@.len() > 1,
        _ => false,
    }
}

/// Whether `e`, standing in `ctx`, is printed inside parentheses.
pub open spec fn needs_parens(e: Expr, ctx: ExprContext) -> bool {
    let c = expr_prec(e);
    match ctx {
        ExprContext::Root => false,
        _ => if c == Precedence::Unknown {
            true
        } else {
            match ctx {
                ExprContext::Root => false,
                ExprContext::BinaryLeft(p) => if p == Precedence::Unknown {
                    c != Precedence::Atom
                } else if p == Precedence::Compare && c == Precedence::Compare {
                    true
                } else {
                    rank(c) < rank(p)
                },
                ExprContext::BinaryRight(p) => if p == Precedence::Unknown {
                    c != Precedence::Atom
                } else if p == Precedence::Compare && c == Precedence::Compare {
                    true
                } else {
                    rank(c) <= rank(p)
                },
                ExprContext::AssignLeft => rank(c) <= rank(Precedence::Assign),
                ExprContext::AssignRight => rank(c) < rank(Precedence::Assign),
                ExprContext::UnaryOperand => rank(c) < rank(Precedence::Unary),
                ExprContext::CastOperand => rank(c) < rank(Precedence::Cast),
                ExprContext::Postfix(k) => if k == PostfixKind::Call && is_member_path(e) {
                    true
                } else {
                    rank(c) < rank(Precedence::Postfix)
                },
            }
        },
    }
}

// ========== Text of types and other one-line fragments ========== //
/// The text of a type.
pub open spec fn type_text(t: Type) -> Seq<char>
    decreases t,
{
    match t {
        Type::Path(path) => join(views(path@), "::"@),
        Type::Named(name) => name@,
        Type::Generic(name, params) => name@ + "<"@ + types_text(params@) + ">"@,
        Type::CallableTrait(c) => (match c.qualifier {
            CallableTraitQualifier::Dyn => "dyn"@,
            CallableTraitQualifier::Impl => "impl"@,
        }) + " "@ + c.trait_name@ + "("@ + types_text(c.args@) + ") -> "@ + type_text(
            *c.return_type,
        ),
        Type::Reference(inner, is_reference, mutable) => (if is_reference {
            "&"@
        } else {
            ""@
        }) + (if mutable {
            "mut "@
        } else {
            ""@
        }) + type_text(*inner),
        Type::Tuple(types) => "("@ + types_text(types@) + (if types@.len() == 1 {
            ","@
        } else {
            ""@
        }) + ")"@,
        Type::Slice(inner) => "["@ + type_text(*inner) + "]"@,
        Type::Array(inner, size) => "["@ + type_text(*inner) + "; "@ + decimal(size as nat)
            + "]"@,
        Type::Unit => "()"@,
        Type::Never => "!"@,
    }
}

/// The texts of `ts` separated by `", "`.
pub open spec fn types_text(ts: Seq<Type>) -> Seq<char>
    decreases ts,
{
    if ts.len() == 0 {
        seq![]
    } else if ts.len() == 1 {
        type_text(ts[0])
    } else {
        types_text(ts.drop_last()) + ", "@ + type_text(ts.last())
    }
}

/// Concatenation of the given sequences of pieces.
pub open spec fn flat(ds: Seq<Seq<Piece>>) -> Seq<Piece>
    decreases ds.len(),
{
    if ds.len() == 0 {
        seq![]
    } else {
        flat(ds.drop_last()) + ds.last()
    }
}

/// The given sequences of pieces with `sep` between each two.
pub open spec fn sep_docs(ds: Seq<Seq<Piece>>, sep: Seq<Piece>) -> Seq<Piece>
    decreases ds.len(),
{
    if ds.len() == 0 {
        seq![]
    } else if ds.len() == 1 {
        ds[0]
    } else {
        sep_docs(ds.drop_last(), sep) + sep + ds.last()
    }
}

/// Each text written on its own, with `sep` written between each two.
pub open spec fn sep_texts(parts: Seq<Seq<char>>, sep: Seq<char>) -> Seq<Piece> {
    sep_docs(text_docs(parts), text(sep))
}

/// Each text as a single piece.
pub open spec fn text_docs(parts: Seq<Seq<char>>) -> Seq<Seq<Piece>> {
    parts.map_values(|p: Seq<char>| text(p))
}

/// Each text as a line.
pub open spec fn line_docs(ds: Seq<Seq<char>>) -> Seq<Seq<Piece>> {
    ds.map_values(|d: Seq<char>| line(d))
}

/// Each text on a line of its own.
pub open spec fn doc_lines(ds: Seq<Seq<char>>) -> Seq<Piece> {
    flat(line_docs(ds))
}

/// The source text of a literal.
pub open spec fn literal_text(l: Literal) -> Seq<char> {
    match l {
        Literal::Raw(source) => source@,
        Literal::Int(i) => int_text(i as int),
        Literal::Float(f) => f@,
        Literal::Str(s) => "\""@ + s@ + "\""@,
        Literal::Bool(b) => if b {
            "true"@
        } else {
            "false"@
        },
        Literal::Char(c) => "'"@ + seq![c] + "'"@,
    }
}

/// The visibility prefix of a declaration, with its trailing space.
pub open spec fn vis_text(v: Visibility) -> Seq<char> {
    match v {
        Visibility::Public => "pub "@,
        Visibility::Private => ""@,
        Visibility::Restricted(path) => "pub(in "@ + join(views(path@), "::"@) + ") "@,
        Visibility::Inherited => ""@,
    }
}

/// Whether a bound is the `'static` lifetime.
pub open spec fn is_static_bound(b: Seq<char>) -> bool {
    b == "'static"@
}

/// Trait bounds joined by `" + "`, with the `'static` bounds moved to the end.
pub open spec fn bounds_text(bounds: Seq<Seq<char>>) -> Seq<char> {
    join(non_static_bounds(bounds) + static_bounds(bounds), " + "@)
}

/// The bounds other than `'static`, in order.
pub open spec fn non_static_bounds(bounds: Seq<Seq<char>>) -> Seq<Seq<char>> {
    bounds.filter(|b: Seq<char>| !is_static_bound(b))
}

/// The `'static` bounds.
pub open spec fn static_bounds(bounds: Seq<Seq<char>>) -> Seq<Seq<char>> {
    bounds.filter(|b: Seq<char>| is_static_bound(b))
}

/// A generic parameter with its bounds: `T` or `T: Clone + 'static`.
pub open spec fn generic_param_text(g: GenericParam) -> Seq<char> {
    if g.bounds@.len() == 0 {
        g.name@
    } else {
        g.name@ + ": "@ + bounds_text(views(g.bounds@))
    }
}

/// The text of each generic parameter with its bounds.
pub open spec fn generic_param_texts(gs: Seq<GenericParam>) -> Seq<Seq<char>> {
    gs.map_values(|g: GenericParam| generic_param_text(g))
}

/// `<T: Clone, U>`, or nothing when there are no generic parameters.
pub open spec fn generic_params_text(gs: Seq<GenericParam>) -> Seq<char> {
    if gs.len() == 0 {
        seq![]
    } else {
        "<"@ + join(generic_param_texts(gs), ", "@) + ">"@
    }
}

/// The names of generic parameters.
pub open spec fn generic_names(gs: Seq<GenericParam>) -> Seq<Seq<char>> {
    gs.map_values(|g: GenericParam| g.name@)
}

/// `<T, U>` (names only), or nothing when there are no generic parameters.
pub open spec fn generic_names_text(gs: Seq<GenericParam>) -> Seq<char> {
    if gs.len() == 0 {
        seq![]
    } else {
        "<"@ + join(generic_names(gs), ", "@) + ">"@
    }
}

/// The generic parameters written one by one between `<` and `>`, or nothing.
pub open spec fn generics_doc(gs: Seq<GenericParam>) -> Seq<Piece> {
    if gs.len() == 0 {
        seq![]
    } else {
        text("<"@) + sep_texts(generic_param_texts(gs), ", "@) + text(">"@)
    }
}

/// A function parameter: `name: Type`, or only the type when the name is empty.
pub open spec fn param_text(p: Param) -> Seq<char> {
    if p.name@.len() == 0 {
        type_text(p.ty)
    } else {
        p.name@ + ": "@ + type_text(p.ty)
    }
}

/// Function parameters separated by `", "`.
pub open spec fn params_text(ps: Seq<Param>) -> Seq<char> {
    join(param_texts(ps), ", "@)
}

/// The text of each function parameter.
pub open spec fn param_texts(ps: Seq<Param>) -> Seq<Seq<char>> {
    ps.map_values(|p: Param| param_text(p))
}

/// One attribute argument.
pub open spec fn attr_arg_doc(a: AttributeArg) -> Seq<Piece> {
    match a {
        AttributeArg::Ident(id) => text(id@),
        AttributeArg::Literal(l) => text(literal_text(l)),
        AttributeArg::KeyValue(k, v) => text(k@ + " = "@) + text(literal_text(v)),
    }
}

/// Each attribute argument.
pub open spec fn attr_arg_docs(args: Seq<AttributeArg>) -> Seq<Seq<Piece>> {
    args.map_values(|x: AttributeArg| attr_arg_doc(x))
}

/// An attribute on a line of its own: `#[name]` or `#[name(args)]`.
pub open spec fn attribute_doc(a: Attribute) -> Seq<Piece> {
    text("#["@ + a.name@) + (if a.args@.len() == 0 {
        seq![]
    } else {
        text("("@) + sep_docs(attr_arg_docs(a.args@), text(", "@)) + text(")"@)
    }) + line("]"@)
}

/// Attributes, each on a line of its own.
pub open spec fn attributes_doc(attrs: Seq<Attribute>) -> Seq<Piece> {
    flat(attribute_docs(attrs))
}

/// Each attribute.
pub open spec fn attribute_docs(attrs: Seq<Attribute>) -> Seq<Seq<Piece>> {
    attrs.map_values(|a: Attribute| attribute_doc(a))
}

/// `#[derive(A, B)]` on a line of its own, or nothing when there are no derives.
pub open spec fn derives_doc(derives: Seq<Seq<char>>) -> Seq<Piece> {
    if derives.len() == 0 {
        seq![]
    } else {
        text("#[derive("@) + sep_texts(derives, ", "@) + line(")]"@)
    }
}

/// A closure parameter: `pattern` or `pattern: Type`.
pub open spec fn closure_param_doc(p: ClosureParam) -> Seq<Piece> {
    text(p.pattern@) + match p.ty {
        Some(ty) => text(": "@) + text(type_text(ty)),
        None => seq![],
    }
}

/// Closure parameters separated by `", "`.
pub open spec fn closure_params_doc(ps: Seq<ClosureParam>) -> Seq<Piece> {
    sep_docs(closure_param_docs(ps), text(", "@))
}

/// Each closure parameter.
pub open spec fn closure_param_docs(ps: Seq<ClosureParam>) -> Seq<Seq<Piece>> {
    ps.map_values(|p: ClosureParam| closure_param_doc(p))
}

/// The comment line printed at the start of a match arm with the given pattern.
pub open spec fn arm_comment_doc(pattern: Seq<char>) -> Seq<Piece> {
    if has_prefix(pattern, "Ok("@) {
        line("// Message received \u{2192} call handler function"@)
    } else if has_infix(pattern, "TryRecvError::Empty"@) {
        line("// No message; do not block, skip directly"@)
    } else if has_infix(pattern, "TryRecvError::Disconnected"@) {
        line("// Channel has been closed"@)
    } else {
        seq![]
    }
}

/// An `else` branch made of a single nested `if` expression, printed as `else if`.
pub open spec fn is_else_if(eb: Block) -> bool {
    eb.stmts@.len() == 0 && match eb.expr {
        Some(nested) => *nested is If,
        None => false,
    }
}

/// `(inner)` when `parens` holds, else `inner`.
pub open spec fn paren_wrap(parens: bool, inner: Seq<Piece>) -> Seq<Piece> {
    if parens {
        text("("@) + inner + text(")"@)
    } else {
        inner
    }
}

/// A braced block that starts on the current line and ends with `}`.
pub open spec fn braced(open: Seq<char>, body: Seq<Piece>) -> Seq<Piece> {
    line(open) + seq![Piece::Indent] + body + seq![Piece::Dedent] + text("}"@)
}

/// Concatenating one more sequence of pieces.
pub proof fn lemma_flat_take(ds: Seq<Seq<Piece>>, i: int)
    requires
        0 <= i < ds.len(),
    ensures
        flat(ds.take(i + 1)) == flat(ds.take(i)) + ds[i],
{
    assert(ds.take(i + 1).drop_last() =~= ds.take(i));
}

/// Separating one more sequence of pieces.
pub proof fn lemma_sep_docs_take(ds: Seq<Seq<Piece>>, sep: Seq<Piece>, i: int)
    requires
        0 <= i < ds.len(),
    ensures
        sep_docs(ds.take(i + 1), sep) == sep_docs(ds.take(i), sep) + (if i > 0 {
            sep
        } else {
            seq![]
        }) + ds[i],
{
    assert(ds.take(i + 1).drop_last() =~= ds.take(i));
    if i == 0 {
        assert(sep_docs(ds.take(0), sep) =~= seq![]);
        assert(seq![] + seq![] + ds[0] =~= ds[0]);
    }
}

/// Writing one more separated text.
pub proof fn lemma_sep_texts_take(parts: Seq<Seq<char>>, sep: Seq<char>, i: int)
    requires
        0 <= i < parts.len(),
    ensures
        sep_texts(parts.take(i + 1), sep) == sep_texts(parts.take(i), sep) + (if i > 0 {
            text(sep)
        } else {
            seq![]
        }) + text(parts[i]),
{
    assert(text_docs(parts.take(i + 1)) =~= text_docs(parts).take(i + 1));
    assert(text_docs(parts.take(i)) =~= text_docs(parts).take(i));
    lemma_sep_docs_take(text_docs(parts), text(sep), i);
}

/// Writing one more line.
pub proof fn lemma_doc_lines_take(ds: Seq<Seq<char>>, i: int)
    requires
        0 <= i < ds.len(),
    ensures
        doc_lines(ds.take(i + 1)) == doc_lines(ds.take(i)) + line(ds[i]),
{
    assert(line_docs(ds.take(i + 1)) =~= line_docs(ds).take(i + 1));
    assert(line_docs(ds.take(i)) =~= line_docs(ds).take(i));
    lemma_flat_take(line_docs(ds), i);
}

// ========== Expressions, statements and items ========== //
/// What an expression prints as when it stands in `ctx`.
pub open spec fn expr_doc(e: Expr, ctx: ExprContext) -> Seq<Piece>
    decreases e,
{
    paren_wrap(
        needs_parens(e, ctx),
        match e {
            Expr::Ident(id) => text(id@),
            Expr::Macro(source) => text(source@),
            Expr::Path(path, path_type) => sep_texts(
                views(path@),
                match path_type {
                    PathType::Namespace => "::"@,
                    PathType::Member => "."@,
                },
            ),
            Expr::Literal(lit) => text(literal_text(lit)),
            Expr::Array(items) => text("["@) + exprs_doc(items@) + text("]"@),
            Expr::Tuple(items) => text("("@) + exprs_doc(items@) + (if items@.len() == 1 {
                text(","@)
            } else {
                seq![]
            }) + text(")"@),
            Expr::Call(callee, args) => expr_doc(*callee, ExprContext::Postfix(PostfixKind::Call))
                + text("("@) + exprs_doc(args@) + text(")"@),
            Expr::MethodCall(receiver, method, args) => expr_doc(
                *receiver,
                ExprContext::Postfix(PostfixKind::MethodCall),
            ) + (if method@.len() == 0 {
                seq![]
            } else {
                text("."@ + method@)
            }) + text("("@) + exprs_doc(args@) + text(")"@),
            Expr::Block(block) => braced("{"@, block_doc(block)),
            Expr::Loop(block) => braced("loop {"@, block_doc(*block)),
            Expr::While { condition, body } => text("while "@) + expr_doc(
                *condition,
                ExprContext::Root,
            ) + braced(" {"@, block_doc(body)),
            Expr::For { pattern, iter, body } => text("for "@) + text(pattern@) + text(" in "@)
                + expr_doc(*iter, ExprContext::Root) + braced(" {"@, block_doc(body)),
            Expr::Await(inner) => expr_doc(*inner, ExprContext::Postfix(PostfixKind::Await))
                + text(".await"@),
            Expr::BuilderChain(methods) => line("thread::Builder::new()"@) + builder_doc(
                methods@,
            ),
            Expr::Closure(params, body, is_move) => (if is_move {
                text("move "@)
            } else {
                seq![]
            }) + text("|"@) + closure_params_doc(params@) + text("| "@) + closure_body_wrap(*body is Block, expr_doc(*body, ExprContext::Root)),
            Expr::TypedClosure(params, return_type, body, is_move) => (if is_move {
                text("move "@)
            } else {
                seq![]
            }) + text("|"@) + closure_params_doc(params@) + text("| -> "@) + text(
                type_text(return_type),
            ) + text(" "@) + closure_body_wrap(*body is Block, expr_doc(*body, ExprContext::Root)),
            Expr::Match { expr, arms } => text("match "@) + expr_doc(*expr, ExprContext::Root)
                + line(" {"@) + seq![Piece::Indent] + arms_doc(arms@) + seq![Piece::Dedent]
                + text("}"@),
            Expr::Unsafe(block) => text("unsafe "@) + if block.stmts@.len() == 1
                && block.expr is None {
                text("{ "@) + block_doc(*block) + text(" }"@)
            } else {
                braced("{"@, block_doc(*block))
            },
            Expr::If { condition, then_branch, else_branch } => text("if "@) + expr_doc(
                *condition,
                ExprContext::Root,
            ) + text(" "@) + braced("{"@, block_doc(then_branch)) + match else_branch {
                None => seq![],
                Some(eb) => text(" else "@) + if is_else_if(eb) {
                    expr_doc(*eb.expr.unwrap(), ExprContext::Root)
                } else {
                    braced("{"@, block_doc(eb))
                },
            },
            Expr::IfLet { pattern, value, then_branch, else_branch } => text("if let "@) + text(
                pattern@,
            ) + text(" = "@) + expr_doc(*value, ExprContext::Root) + text(" {\n"@) + seq![
                Piece::Indent,
            ] + block_doc(then_branch) + seq![Piece::Dedent] + text("}"@) + match else_branch {
                None => seq![],
                Some(eb) => text(" else {\n"@) + seq![Piece::Indent] + block_doc(eb) + seq![
                    Piece::Dedent,
                ] + text("}"@),
            },
            Expr::Reference(inner, is_reference, mutable) => (if is_reference {
                text("&"@)
            } else {
                seq![]
            }) + (if mutable {
                text("mut "@)
            } else {
                seq![]
            }) + expr_doc(*inner, ExprContext::UnaryOperand),
            Expr::BinaryOp(left, op, right) => expr_doc(
                *left,
                ExprContext::BinaryLeft(binary_prec(op@)),
            ) + text(" "@) + text(op@) + text(" "@) + expr_doc(
                *right,
                ExprContext::BinaryRight(binary_prec(op@)),
            ),
            Expr::Assign(left, right) => expr_doc(*left, ExprContext::AssignLeft) + text(" = "@)
                + expr_doc(*right, ExprContext::AssignRight),
            Expr::UnaryOp(op, inner) => text(op@) + expr_doc(*inner, ExprContext::UnaryOperand),
            Expr::Index(array, index) => expr_doc(*array, ExprContext::Postfix(PostfixKind::Index))
                + text("["@) + expr_doc(*index, ExprContext::Root) + text("]"@),
            Expr::Parenthesized(inner) => text("("@) + expr_doc(*inner, ExprContext::Root) + text(
                ")"@,
            ),
            Expr::Cast(inner, ty) => expr_doc(*inner, ExprContext::CastOperand) + text(" as "@)
                + text(type_text(ty)),
        },
    )
}

/// Expressions at the root position, separated by `", "`.
pub open spec fn exprs_doc(es: Seq<Expr>) -> Seq<Piece>
    decreases es,
{
    if es.len() == 0 {
        seq![]
    } else if es.len() == 1 {
        expr_doc(es[0], ExprContext::Root)
    } else {
        exprs_doc(es.drop_last()) + text(", "@) + expr_doc(es.last(), ExprContext::Root)
    }
}

/// A closure body printed as `inner`: a block as it is, any other expression
/// inside `{ ` and ` }`.
pub open spec fn closure_body_wrap(is_block: bool, inner: Seq<Piece>) -> Seq<Piece> {
    if is_block {
        inner
    } else {
        text("{ "@) + inner + text(" }"@)
    }
}

/// The methods of a thread builder chain, in order.
pub open spec fn builder_doc(ms: Seq<BuilderMethod>) -> Seq<Piece>
    decreases ms,
{
    if ms.len() == 0 {
        seq![]
    } else {
        builder_doc(ms.drop_last()) + builder_method_doc(ms.last())
    }
}

/// One method of a thread builder chain: a `.name(..)` line, or a `.spawn(..)`
/// that ends without a line break.
pub open spec fn builder_method_doc(m: BuilderMethod) -> Seq<Piece>
    decreases m,
{
    match m {
        BuilderMethod::Named(name) => line("    .name("@ + name@ + ")"@),
        BuilderMethod::Spawn { closure, move_kw } => text("    .spawn("@) + (if move_kw {
            text("move "@)
        } else {
            seq![]
        }) + expr_doc(*closure, ExprContext::Root) + text(")"@),
    }
}

/// Match arms, in order.
pub open spec fn arms_doc(arms: Seq<MatchArm>) -> Seq<Piece>
    decreases arms,
{
    if arms.len() == 0 {
        seq![]
    } else {
        arms_doc(arms.drop_last()) + arm_doc(arms.last())
    }
}

/// One match arm: `pattern [if guard] => {`, the body, then `},`.
pub open spec fn arm_doc(arm: MatchArm) -> Seq<Piece>
    decreases arm,
{
    text(arm.pattern@) + match arm.guard {
        Some(guard) => text(" if "@) + expr_doc(guard, ExprContext::Root),
        None => seq![],
    } + line(" => {"@) + seq![Piece::Indent] + arm_comment_doc(arm.pattern@) + block_doc(arm.body)
        + seq![Piece::Dedent] + line("},"@)
}

/// A block body: its statements, then its final expression on a line of its own.
pub open spec fn block_doc(b: Block) -> Seq<Piece>
    decreases b,
{
    stmts_doc(b.stmts@) + match b.expr {
        Some(e) => expr_doc(*e, ExprContext::Root) + line(""@),
        None => seq![],
    }
}

/// Statements, in order.
pub open spec fn stmts_doc(ss: Seq<Statement>) -> Seq<Piece>
    decreases ss,
{
    if ss.len() == 0 {
        seq![]
    } else {
        stmts_doc(ss.drop_last()) + stmt_doc(ss.last())
    }
}

/// One statement.
pub open spec fn stmt_doc(s: Statement) -> Seq<Piece>
    decreases s,
{
    match s {
        Statement::Let(ls) => text(
            (if ls.ifmut {
                "let mut"@
            } else {
                "let"@
            }) + " "@ + ls.name@,
        ) + match ls.ty {
            Some(ty) => text(": "@ + type_text(ty)),
            None => seq![],
        } + match ls.init {
            Some(init) => text(" = "@) + expr_doc(init, ExprContext::Root),
            None => seq![],
        } + line(";"@),
        Statement::Expr(e) => expr_doc(e, ExprContext::Root) + line(";"@),
        Statement::Item(item) => item_doc(*item),
        Statement::Return(value) => text("return"@) + match value {
            Some(v) => text(" "@) + expr_doc(v, ExprContext::Root),
            None => seq![],
        } + line(";"@),
        Statement::Continue => line("continue;"@),
        Statement::Break => line("break;"@),
        Statement::Comment(c) => line("// "@ + c@),
    }
}

/// Whether a blank line follows `item` when `next` comes after it: after a
/// `use`, unless the next item is a `use` of the same root.
pub open spec fn separate_after_use(item: Item, next: Option<Item>) -> bool {
    match item {
        Item::Use(current) => match next {
            Some(Item::Use(n)) => root_of_use(current) != root_of_use(n),
            Some(_) => true,
            None => false,
        },
        _ => false,
    }
}

/// The first segment of a `use` path.
pub open spec fn root_of_use(u: UseStatement) -> Option<Seq<char>> {
    if u.path@.len() == 0 {
        None
    } else {
        Some(u.path@[0]@)
    }
}

/// The items `s`, in order, when `next` is the item that follows them.
pub open spec fn items_doc(s: Seq<Item>, next: Option<Item>) -> Seq<Piece>
    decreases s,
{
    if s.len() == 0 {
        seq![]
    } else {
        items_doc(s.drop_last(), Some(s.last())) + item_doc(s.last()) + if separate_after_use(
            s.last(),
            next,
        ) {
            line(""@)
        } else {
            seq![]
        }
    }
}

/// One item.
pub open spec fn item_doc(item: Item) -> Seq<Piece>
    decreases item,
{
    match item {
        Item::Raw(raw) => doc_lines(lines(raw@)),
        Item::Struct(s) => struct_doc(s),
        Item::Enum(e) => enum_doc(e),
        Item::Union(u) => union_doc(u),
        Item::Function(f) => function_doc(f),
        Item::Impl(i) => impl_doc(i),
        Item::Const(c) => const_doc(c),
        Item::TypeAlias(t) => type_alias_doc(t),
        Item::Use(u) => use_doc(u),
        Item::Mod(m) => nested_module_doc(*m),
        Item::LazyStatic(l) => lazy_static_doc(l),
    }
}

/// A module declared inside another.
pub open spec fn nested_module_doc(m: RustModule) -> Seq<Piece>
    decreases m,
{
    (match m.vis {
        Visibility::Public => text("pub "@),
        Visibility::Private => seq![],
        Visibility::Restricted(paths) => text("pub(in "@ + join(views(paths@), "::"@) + " ) "@),
        Visibility::Inherited => seq![],
    }) + line("mod "@ + m.name@ + " {"@) + seq![Piece::Indent] + doc_lines(views(m.docs@))
        + attributes_doc(m.attrs@) + items_doc(m.items@, None) + seq![Piece::Dedent] + line(
        "}"@,
    ) + line(""@)
}

/// Whether a struct is a tuple struct: it has fields and none of them is named.
pub open spec fn is_tuple_struct(fields: Seq<Field>) -> bool {
    fields.len() > 0 && forall|i: int| 0 <= i < fields.len() ==> #[trigger] fields[i].name@.len()
        == 0
}

/// A named field, `pub name: Type,`, preceded by its attributes and followed by its docs.
pub open spec fn field_doc(f: Field) -> Seq<Piece> {
    attributes_doc(f.attrs@) + text("pub "@ + f.name@ + ": "@ + type_text(f.ty) + ","@)
        + doc_lines(views(f.docs@))
}

/// Named fields, in order.
pub open spec fn fields_doc(fs: Seq<Field>) -> Seq<Piece> {
    flat(field_docs(fs))
}

/// Each named field.
pub open spec fn field_docs(fs: Seq<Field>) -> Seq<Seq<Piece>> {
    fs.map_values(|f: Field| field_doc(f))
}

/// The type text of each field.
pub open spec fn field_type_texts(fs: Seq<Field>) -> Seq<Seq<char>> {
    fs.map_values(|f: Field| type_text(f.ty))
}

/// The text of each type.
pub open spec fn type_texts(ts: Seq<Type>) -> Seq<Seq<char>> {
    ts.map_values(|t: Type| type_text(t))
}

/// A struct definition.
pub open spec fn struct_doc(s: StructDef) -> Seq<Piece> {
    doc_lines(views(s.docs@)) + derives_doc(views(s.derives@)) + text(
        vis_text(s.vis) + "struct "@ + s.name@ + " "@,
    ) + generics_doc(s.generics@) + if is_tuple_struct(s.fields@) {
        text("("@) + sep_texts(field_type_texts(s.fields@), ", "@) + line(
            ");"@,
        ) + line(""@)
    } else {
        line(" {"@) + seq![Piece::Indent] + fields_doc(s.fields@) + seq![Piece::Dedent] + line(
            "}"@,
        ) + line(""@)
    }
}

/// The generic parameters of an enum or union header, ending its first line.
pub open spec fn header_generics_doc(gs: Seq<GenericParam>) -> Seq<Piece> {
    if gs.len() == 0 {
        line("{"@)
    } else {
        text("<"@) + sep_texts(generic_param_texts(gs), ", "@) + line("> {"@)
    }
}

/// A union definition.
pub open spec fn union_doc(u: UnionDef) -> Seq<Piece> {
    doc_lines(views(u.docs@)) + derives_doc(views(u.derives@)) + text(
        vis_text(u.vis) + "union "@ + u.name@ + " "@,
    ) + header_generics_doc(u.generics@) + seq![Piece::Indent] + fields_doc(u.fields@) + seq![
        Piece::Dedent,
    ] + line("}"@) + line(""@)
}

/// An enum variant: its docs, its name, its tuple payload if any, and `,`.
pub open spec fn variant_doc(v: Variant) -> Seq<Piece> {
    doc_lines(views(v.docs@)) + text(v.name@) + match v.data {
        Some(types) => text("("@) + sep_texts(type_texts(types@), ", "@)
            + text(")"@),
        None => seq![],
    } + line(","@)
}

/// Each enum variant.
pub open spec fn variant_docs(vs: Seq<Variant>) -> Seq<Seq<Piece>> {
    vs.map_values(|v: Variant| variant_doc(v))
}

/// An enum definition.
pub open spec fn enum_doc(e: EnumDef) -> Seq<Piece> {
    doc_lines(views(e.docs@)) + derives_doc(views(e.derives@)) + text(
        vis_text(e.vis) + "enum "@ + e.name@ + " "@,
    ) + header_generics_doc(e.generics@) + seq![Piece::Indent] + flat(variant_docs(e.variants@))
        + seq![Piece::Dedent] + line("}"@) + line(""@)
}

/// A type alias.
pub open spec fn type_alias_doc(t: TypeAlias) -> Seq<Piece> {
    doc_lines(views(t.docs@)) + line(
        vis_text(t.vis) + "type "@ + t.name@ + generic_params_text(t.generics@) + " = "@
            + type_text(t.target) + ";"@,
    ) + line(""@)
}

/// A constant definition.
pub open spec fn const_doc(c: ConstDef) -> Seq<Piece>
    decreases c,
{
    doc_lines(views(c.docs@)) + text(
        vis_text(c.vis) + "const "@ + c.name@ + ": "@ + type_text(c.ty) + " = "@,
    ) + expr_doc(c.value, ExprContext::Root) + line(";"@) + line(""@)
}

/// A `use` declaration.
pub open spec fn use_doc(u: UseStatement) -> Seq<Piece> {
    text("use "@) + sep_texts(views(u.path@), "::"@) + match u.kind {
        UseKind::Simple => line(";"@),
        UseKind::Glob => line("::*;"@),
        UseKind::Nested(items) => text("::{"@) + sep_texts(views(items@), ", "@) + line("};"@),
    }
}

/// A `lazy_static!` definition.
pub open spec fn lazy_static_doc(l: LazyStaticDef) -> Seq<Piece>
    decreases l,
{
    doc_lines(views(l.docs@)) + line("lazy_static! {"@) + seq![Piece::Indent] + text(
        "static ref "@,
    ) + text(l.name@) + text(": "@) + text(type_text(l.ty)) + text(" = "@) + line("{"@) + seq![
        Piece::Indent,
    ] + block_doc(l.init) + seq![Piece::Dedent] + text("}"@) + text(";"@) + line(""@) + seq![
        Piece::Dedent,
    ] + line("}"@) + line(""@)
}

/// The number of bytes of a text in UTF-8, the length of a `String`.
pub open spec fn byte_len(s: Seq<char>) -> nat {
    encode_utf8(s).len()
}

/// The start of a function signature: visibility, `async`, `fn`, name, generic names.
pub open spec fn fn_head(f: FunctionDef) -> Seq<char> {
    vis_text(f.vis) + (if f.asyncness {
        "async "@
    } else {
        ""@
    }) + "fn "@ + f.name@ + generic_names_text(f.generics@)
}

/// The rest of a function signature: `(params) -> ReturnType`.
pub open spec fn fn_params_and_return(f: FunctionDef) -> Seq<char> {
    "("@ + params_text(f.params@) + ") -> "@ + type_text(f.return_type)
}

/// Whether a generic parameter has bounds.
pub open spec fn has_bounds(g: GenericParam) -> bool {
    g.bounds@.len() > 0
}

/// The generic parameters that have bounds, in order.
pub open spec fn bounded(gs: Seq<GenericParam>) -> Seq<GenericParam> {
    gs.filter(|g: GenericParam| has_bounds(g))
}

/// `sorted` (in order of name) with `g` placed after every element whose name is not greater.
pub open spec fn insert_by_name(sorted: Seq<GenericParam>, g: GenericParam) -> Seq<GenericParam>
    decreases sorted.len(),
{
    if sorted.len() == 0 {
        seq![g]
    } else if text_lt(g.name@, sorted.last().name@) {
        insert_by_name(sorted.drop_last(), g).push(sorted.last())
    } else {
        sorted.push(g)
    }
}

/// Inserting `g` by name is placing it at `j` when every element from `j` on has a
/// greater name and the one before `j` does not.
pub proof fn lemma_insert_by_name_at(s: Seq<GenericParam>, g: GenericParam, j: int)
    requires
        0 <= j <= s.len(),
        forall|k: int| j <= k < s.len() ==> text_lt(g.name@, #[trigger] s[k].name@),
        j == 0 || !text_lt(g.name@, s[j - 1].name@),
    ensures
        insert_by_name(s, g) == s.take(j).push(g) + s.skip(j),
    decreases s.len(),
{
    if s.len() == 0 {
        assert(s.take(j).push(g) + s.skip(j) =~= seq![g]);
    } else if j == s.len() {
        assert(s.take(j).push(g) + s.skip(j) =~= s.push(g));
    } else {
        assert(text_lt(g.name@, s[s.len() - 1].name@));
        let d = s.drop_last();
        assert forall|k: int| j <= k < d.len() implies text_lt(g.name@, #[trigger] d[k].name@) by {
            assert(d[k] == s[k]);
        }
        lemma_insert_by_name_at(d, g, j);
        assert(d.take(j).push(g) + d.skip(j) + seq![s.last()] =~= s.take(j).push(g) + s.skip(j));
    }
}

/// `s` sorted by name, keeping the order of equal names (a stable sort).
pub open spec fn sort_by_name(s: Seq<GenericParam>) -> Seq<GenericParam>
    decreases s.len(),
{
    if s.len() == 0 {
        s
    } else {
        insert_by_name(sort_by_name(s.drop_last()), s.last())
    }
}

/// One line of a `where` clause, with a comma unless it is the last.
pub open spec fn where_line(g: GenericParam, last: bool) -> Seq<char> {
    g.name@ + ": "@ + bounds_text(views(g.bounds@)) + if last {
        ""@
    } else {
        ","@
    }
}

/// The lines of a `where` clause for the parameters `b`, in order.
pub open spec fn where_lines(b: Seq<GenericParam>) -> Seq<Piece> {
    flat(Seq::new(b.len(), |i: int| line(where_line(b[i], i + 1 == b.len()))))
}

/// The `where` clause of a function: its bounded generic parameters sorted by name.
pub open spec fn where_doc(gs: Seq<GenericParam>) -> Seq<Piece> {
    let b = sort_by_name(bounded(gs));
    if b.len() == 0 {
        seq![]
    } else {
        line("where"@) + seq![Piece::Indent] + where_lines(b) + seq![Piece::Dedent]
    }
}

/// The signature of a function up to its opening brace: on one line when it is at
/// most 80 bytes long, else with the parameters on an indented line of their own.
pub open spec fn signature_doc(f: FunctionDef) -> Seq<Piece> {
    let head = fn_head(f);
    let rest = fn_params_and_return(f);
    let signature = head + rest;
    let fits = byte_len(signature) <= MAX_FUNCTION_SIGNATURE_WIDTH;
    if exists|i: int| 0 <= i < f.generics@.len() && has_bounds(#[trigger] f.generics@[i]) {
        (if fits {
            line(signature)
        } else {
            line(head) + seq![Piece::Indent] + line(rest) + seq![Piece::Dedent]
        }) + where_doc(f.generics@) + line("{"@)
    } else if fits {
        line(signature + " {"@)
    } else {
        line(head) + seq![Piece::Indent] + line(rest + " {"@) + seq![Piece::Dedent]
    }
}

/// A function definition.
pub open spec fn function_doc(f: FunctionDef) -> Seq<Piece>
    decreases f,
{
    doc_lines(views(f.docs@)) + attributes_doc(f.attrs@) + signature_doc(f) + seq![Piece::Indent]
        + block_doc(f.body) + seq![Piece::Dedent] + line("}"@) + line(""@)
}

/// An implementation block.
pub open spec fn impl_doc(i: ImplBlock) -> Seq<Piece>
    decreases i,
{
    text("impl"@) + generics_doc(i.generics@) + match i.trait_impl {
        Some(t) => text(" "@ + type_text(t) + " for"@),
        None => seq![],
    } + text(" "@ + type_text(i.target) + " "@) + line("{"@) + seq![Piece::Indent]
        + impl_items_doc(i.items@) + seq![Piece::Dedent] + line("}"@) + line(""@)
}

/// The items of an implementation block, in order.
pub open spec fn impl_items_doc(items: Seq<ImplItem>) -> Seq<Piece>
    decreases items,
{
    if items.len() == 0 {
        seq![]
    } else {
        impl_items_doc(items.drop_last()) + impl_item_doc(items.last())
    }
}

/// One item of an implementation block.
pub open spec fn impl_item_doc(item: ImplItem) -> Seq<Piece>
    decreases item,
{
    match item {
        ImplItem::Method(m) => function_doc(m),
        ImplItem::AssocConst(name, ty, e) => line(
            "const "@ + name@ + ": "@ + type_text(ty) + " = "@,
        ) + expr_doc(e, ExprContext::Root) + line(";"@),
        ImplItem::AssocType(name, ty) => line("type "@ + name@ + " = "@ + type_text(ty) + ";"@),
    }
}

/// A whole module: its docs and attributes, a blank line if it has either, then its items.
pub open spec fn module_doc(m: RustModule) -> Seq<Piece> {
    doc_lines(views(m.docs@)) + attributes_doc(m.attrs@) + (if m.docs@.len() > 0 || m.attrs@.len()
        > 0 {
        line(""@)
    } else {
        seq![]
    }) + items_doc(m.items@, None)
}

} // verus!
