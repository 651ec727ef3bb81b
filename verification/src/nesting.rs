//! Every printed node leaves the indentation level as it found it: the pieces it
//! emits are balanced.
use vstd::prelude::*;

use crate::layout::{
    balanced, high, lemma_empty_balanced, lemma_nesting_concat, lemma_nesting_one,
    lemma_render_indent, lemma_text_balanced, lemma_line_balanced, line, render, text, GenView, Piece,
};
use crate::printed::{
    arm_doc, arms_doc, attr_arg_doc, attr_arg_docs, attribute_doc,
    attribute_docs, attributes_doc, block_doc, builder_doc, builder_method_doc,
    closure_param_doc, closure_param_docs, closure_params_doc, const_doc,
    derives_doc, doc_lines, enum_doc, expr_doc, exprs_doc, field_doc, field_docs, fields_doc,
    flat, function_doc, generics_doc, header_generics_doc, impl_doc, impl_item_doc,
    impl_items_doc, item_doc, items_doc, lazy_static_doc, line_docs, module_doc,
    nested_module_doc, paren_wrap, sep_docs, sep_texts, signature_doc, stmt_doc, stmts_doc,
    struct_doc, text_docs, type_alias_doc, union_doc, use_doc, variant_doc, variant_docs,
    where_doc, where_line, where_lines, ExprContext,
};
use crate::rustlight_ast::{
    Attribute, Block, BuilderMethod, ClosureParam, ConstDef, EnumDef, Expr, Field, FunctionDef,
    ImplBlock, ImplItem, Item, LazyStaticDef, MatchArm, RustModule, Statement, StructDef,
    TypeAlias, UnionDef, UseKind, UseStatement,
};

verus! {

broadcast use {
    crate::layout::lemma_nesting_concat,
    crate::layout::lemma_nesting_one,
    crate::layout::lemma_text_balanced,
    crate::layout::lemma_line_balanced,
    crate::layout::lemma_empty_balanced,
};

/// Every sequence of pieces in `ds` is balanced.
pub open spec fn all_balanced(ds: Seq<Seq<Piece>>) -> bool {
    forall|i: int| 0 <= i < ds.len() ==> balanced(#[trigger] ds[i])
}

proof fn lemma_flat_balanced(ds: Seq<Seq<Piece>>)
    requires
        all_balanced(ds),
    ensures
        balanced(flat(ds)),
    decreases ds.len(),
{
    if ds.len() > 0 {
        assert(balanced(ds[ds.len() - 1]));
        lemma_flat_balanced(ds.drop_last());
    }
}

proof fn lemma_sep_docs_balanced(ds: Seq<Seq<Piece>>, sep: Seq<Piece>)
    requires
        all_balanced(ds),
        balanced(sep),
    ensures
        balanced(sep_docs(ds, sep)),
    decreases ds.len(),
{
    if ds.len() > 0 {
        assert(balanced(ds[ds.len() - 1]));
        assert(balanced(ds[0]));
        lemma_sep_docs_balanced(ds.drop_last(), sep);
    }
}

proof fn lemma_sep_texts_balanced(parts: Seq<Seq<char>>, sep: Seq<char>)
    ensures
        balanced(sep_texts(parts, sep)),
{
    assert forall|i: int| 0 <= i < text_docs(parts).len() implies balanced(
        #[trigger] text_docs(parts)[i],
    ) by {
        assert(text_docs(parts)[i] == text(parts[i]));
    }
    lemma_sep_docs_balanced(text_docs(parts), text(sep));
}

proof fn lemma_doc_lines_balanced(ds: Seq<Seq<char>>)
    ensures
        balanced(doc_lines(ds)),
{
    assert forall|i: int| 0 <= i < line_docs(ds).len() implies balanced(
        #[trigger] line_docs(ds)[i],
    ) by {
        assert(line_docs(ds)[i] == line(ds[i]));
    }
    lemma_flat_balanced(line_docs(ds));
}

proof fn lemma_attributes_balanced(attrs: Seq<Attribute>)
    ensures
        balanced(attributes_doc(attrs)),
{
    assert forall|i: int| 0 <= i < attribute_docs(attrs).len() implies balanced(
        #[trigger] attribute_docs(attrs)[i],
    ) by {
        let a = attrs[i];
        assert forall|j: int| 0 <= j < attr_arg_docs(a.args@).len() implies balanced(
            #[trigger] attr_arg_docs(a.args@)[j],
        ) by {
            assert(attr_arg_docs(a.args@)[j] == attr_arg_doc(a.args@[j]));
        }
        lemma_sep_docs_balanced(attr_arg_docs(a.args@), text(", "@));
        assert(attribute_docs(attrs)[i] == attribute_doc(a));
    }
    lemma_flat_balanced(attribute_docs(attrs));
}

proof fn lemma_derives_balanced(derives: Seq<Seq<char>>)
    ensures
        balanced(derives_doc(derives)),
{
    lemma_sep_texts_balanced(derives, ", "@);
}

proof fn lemma_generics_balanced(gs: Seq<crate::rustlight_ast::GenericParam>)
    ensures
        balanced(generics_doc(gs)),
        balanced(header_generics_doc(gs)),
{
    lemma_sep_texts_balanced(crate::printed::generic_param_texts(gs), ", "@);
}

proof fn lemma_fields_balanced(fs: Seq<Field>)
    ensures
        balanced(fields_doc(fs)),
{
    assert forall|i: int| 0 <= i < field_docs(fs).len() implies balanced(
        #[trigger] field_docs(fs)[i],
    ) by {
        let f = fs[i];
        lemma_attributes_balanced(f.attrs@);
        lemma_doc_lines_balanced(crate::text::views(f.docs@));
        assert(field_docs(fs)[i] == field_doc(f));
    }
    lemma_flat_balanced(field_docs(fs));
}

proof fn lemma_struct_balanced(s: StructDef)
    ensures
        balanced(struct_doc(s)),
{
    lemma_doc_lines_balanced(crate::text::views(s.docs@));
    lemma_derives_balanced(crate::text::views(s.derives@));
    lemma_generics_balanced(s.generics@);
    lemma_sep_texts_balanced(crate::printed::field_type_texts(s.fields@), ", "@);
    lemma_fields_balanced(s.fields@);
}

proof fn lemma_union_balanced(u: UnionDef)
    ensures
        balanced(union_doc(u)),
{
    lemma_doc_lines_balanced(crate::text::views(u.docs@));
    lemma_derives_balanced(crate::text::views(u.derives@));
    lemma_generics_balanced(u.generics@);
    lemma_fields_balanced(u.fields@);
}

proof fn lemma_enum_balanced(e: EnumDef)
    ensures
        balanced(enum_doc(e)),
{
    lemma_doc_lines_balanced(crate::text::views(e.docs@));
    lemma_derives_balanced(crate::text::views(e.derives@));
    lemma_generics_balanced(e.generics@);
    assert forall|i: int| 0 <= i < variant_docs(e.variants@).len() implies balanced(
        #[trigger] variant_docs(e.variants@)[i],
    ) by {
        let v = e.variants@[i];
        lemma_doc_lines_balanced(crate::text::views(v.docs@));
        if let Some(types) = v.data {
            lemma_sep_texts_balanced(crate::printed::type_texts(types@), ", "@);
        }
        assert(variant_docs(e.variants@)[i] == variant_doc(v));
    }
    lemma_flat_balanced(variant_docs(e.variants@));
}

proof fn lemma_type_alias_balanced(t: TypeAlias)
    ensures
        balanced(type_alias_doc(t)),
{
    lemma_doc_lines_balanced(crate::text::views(t.docs@));
}

proof fn lemma_use_balanced(u: UseStatement)
    ensures
        balanced(use_doc(u)),
{
    lemma_sep_texts_balanced(crate::text::views(u.path@), "::"@);
    if let UseKind::Nested(items) = u.kind {
        lemma_sep_texts_balanced(crate::text::views(items@), ", "@);
    }
}

proof fn lemma_closure_params_balanced(ps: Seq<ClosureParam>)
    ensures
        balanced(closure_params_doc(ps)),
{
    assert forall|i: int| 0 <= i < closure_param_docs(ps).len() implies balanced(
        #[trigger] closure_param_docs(ps)[i],
    ) by {
        assert(closure_param_docs(ps)[i] == closure_param_doc(ps[i]));
    }
    lemma_sep_docs_balanced(closure_param_docs(ps), text(", "@));
}

proof fn lemma_signature_balanced(f: FunctionDef)
    ensures
        balanced(signature_doc(f)),
{
    let b = crate::printed::sort_by_name(crate::printed::bounded(f.generics@));
    let ds = Seq::new(b.len(), |i: int| line(where_line(b[i], i + 1 == b.len())));
    assert forall|i: int| 0 <= i < ds.len() implies balanced(#[trigger] ds[i]) by {
        assert(ds[i] == line(where_line(b[i], i + 1 == b.len())));
    }
    lemma_flat_balanced(ds);
    assert(where_lines(b) == flat(ds));
    assert(balanced(where_doc(f.generics@)));
}

/// What an expression prints as is balanced.
/// What an expression prints as is balanced.
pub proof fn lemma_expr_balanced(e: Expr, ctx: ExprContext)
    ensures
        balanced(expr_doc(e, ctx)),
    decreases e, 2nat,
{
    lemma_expr_root_balanced(e);
    assert(expr_doc(e, ctx) == paren_wrap(
        crate::printed::needs_parens(e, ctx),
        expr_doc(e, ExprContext::Root),
    ));
}

proof fn lemma_expr_root_balanced(e: Expr)
    ensures
        balanced(expr_doc(e, ExprContext::Root)),
    decreases e, 1nat,
{
    match e {
        Expr::If { .. } | Expr::IfLet { .. } => lemma_conditional_balanced(e),
        Expr::Closure(..) | Expr::TypedClosure(..) | Expr::Match { .. } | Expr::BuilderChain(..)
        | Expr::Unsafe(..) => lemma_compound_balanced(e),
        Expr::Block(..) | Expr::Loop(..) | Expr::While { .. } | Expr::For { .. } =>
            lemma_loop_balanced(e),
        Expr::Array(..) | Expr::Tuple(..) | Expr::Call(..) | Expr::MethodCall(..) | Expr::Path(..) =>
            lemma_list_balanced(e),
        _ => lemma_operator_balanced(e),
    }
}

#[verifier::spinoff_prover]
proof fn lemma_conditional_balanced(e: Expr)
    requires
        e is If || e is IfLet,
    ensures
        balanced(expr_doc(e, ExprContext::Root)),
    decreases e, 0nat,
{
    match e {
        Expr::If { condition, then_branch, else_branch } => {
            lemma_expr_balanced(*condition, ExprContext::Root);
            lemma_block_balanced(then_branch);
            if let Some(eb) = else_branch {
                lemma_block_balanced(eb);
                if let Some(nested) = eb.expr {
                    lemma_expr_balanced(*nested, ExprContext::Root);
                }
            }
        },
        Expr::IfLet { value, then_branch, else_branch, .. } => {
            lemma_expr_balanced(*value, ExprContext::Root);
            lemma_block_balanced(then_branch);
            if let Some(eb) = else_branch {
                lemma_block_balanced(eb);
            }
        },
        _ => {},
    }
}

#[verifier::spinoff_prover]
proof fn lemma_compound_balanced(e: Expr)
    requires
        e is Closure || e is TypedClosure || e is Match || e is BuilderChain || e is Unsafe,
    ensures
        balanced(expr_doc(e, ExprContext::Root)),
    decreases e, 0nat,
{
    match e {
        Expr::BuilderChain(methods) => lemma_builder_balanced(methods@),
        Expr::Closure(params, body, _) => {
            lemma_closure_params_balanced(params@);
            lemma_expr_balanced(*body, ExprContext::Root);
        },
        Expr::TypedClosure(params, _, body, _) => {
            lemma_closure_params_balanced(params@);
            lemma_expr_balanced(*body, ExprContext::Root);
        },
        Expr::Match { expr, arms } => {
            lemma_expr_balanced(*expr, ExprContext::Root);
            lemma_arms_balanced(arms@);
        },
        Expr::Unsafe(block) => lemma_block_balanced(*block),
        _ => {},
    }
}

#[verifier::spinoff_prover]
proof fn lemma_loop_balanced(e: Expr)
    requires
        e is Block || e is Loop || e is While || e is For,
    ensures
        balanced(expr_doc(e, ExprContext::Root)),
    decreases e, 0nat,
{
    match e {
        Expr::Block(block) => lemma_block_balanced(block),
        Expr::Loop(block) => lemma_block_balanced(*block),
        Expr::While { condition, body } => {
            lemma_expr_balanced(*condition, ExprContext::Root);
            lemma_block_balanced(body);
        },
        Expr::For { pattern, iter, body } => {
            lemma_expr_balanced(*iter, ExprContext::Root);
            lemma_block_balanced(body);
        },
        _ => {},
    }
}

#[verifier::spinoff_prover]
proof fn lemma_list_balanced(e: Expr)
    requires
        e is Array || e is Tuple || e is Call || e is MethodCall || e is Path,
    ensures
        balanced(expr_doc(e, ExprContext::Root)),
    decreases e, 0nat,
{
    match e {
        Expr::Array(items) => lemma_exprs_balanced(items@),
        Expr::Tuple(items) => lemma_exprs_balanced(items@),
        Expr::Call(callee, args) => {
            lemma_expr_balanced(*callee, ExprContext::Postfix(crate::printed::PostfixKind::Call));
            lemma_exprs_balanced(args@);
        },
        Expr::MethodCall(receiver, _, args) => {
            lemma_expr_balanced(
                *receiver,
                ExprContext::Postfix(crate::printed::PostfixKind::MethodCall),
            );
            lemma_exprs_balanced(args@);
        },
        Expr::Path(path, _) => {
            lemma_sep_texts_balanced(crate::text::views(path@), "::"@);
            lemma_sep_texts_balanced(crate::text::views(path@), "."@);
        },
        _ => {},
    }
}

#[verifier::spinoff_prover]
proof fn lemma_operator_balanced(e: Expr)
    requires
        !(e is If || e is IfLet || e is Closure || e is TypedClosure || e is Match || e is BuilderChain || e is Unsafe || e is Block || e is Loop || e is While || e is For || e is Array || e is Tuple || e is Call || e is MethodCall || e is Path),
    ensures
        balanced(expr_doc(e, ExprContext::Root)),
    decreases e, 0nat,
{
    match e {
        Expr::Await(inner) => lemma_expr_balanced(
            *inner,
            ExprContext::Postfix(crate::printed::PostfixKind::Await),
        ),
        Expr::Reference(inner, _, _) => lemma_expr_balanced(*inner, ExprContext::UnaryOperand),
        Expr::BinaryOp(left, op, right) => {
            lemma_expr_balanced(
                *left,
                ExprContext::BinaryLeft(crate::printed::binary_prec(op@)),
            );
            lemma_expr_balanced(
                *right,
                ExprContext::BinaryRight(crate::printed::binary_prec(op@)),
            );
        },
        Expr::Assign(left, right) => {
            lemma_expr_balanced(*left, ExprContext::AssignLeft);
            lemma_expr_balanced(*right, ExprContext::AssignRight);
        },
        Expr::UnaryOp(_, inner) => lemma_expr_balanced(*inner, ExprContext::UnaryOperand),
        Expr::Index(array, index) => {
            lemma_expr_balanced(*array, ExprContext::Postfix(crate::printed::PostfixKind::Index));
            lemma_expr_balanced(*index, ExprContext::Root);
        },
        Expr::Parenthesized(inner) => lemma_expr_balanced(*inner, ExprContext::Root),
        Expr::Cast(inner, _) => lemma_expr_balanced(*inner, ExprContext::CastOperand),
        _ => {},
    }
}

proof fn lemma_exprs_balanced(es: Seq<Expr>)
    ensures
        balanced(exprs_doc(es)),
    decreases es, 0nat,
{
    if es.len() > 0 {
        lemma_exprs_balanced(es.drop_last());
        lemma_expr_balanced(es.last(), ExprContext::Root);
        lemma_expr_balanced(es[0], ExprContext::Root);
    }
}

proof fn lemma_builder_balanced(ms: Seq<BuilderMethod>)
    ensures
        balanced(builder_doc(ms)),
    decreases ms, 0nat,
{
    if ms.len() > 0 {
        lemma_builder_balanced(ms.drop_last());
        lemma_builder_method_balanced(ms.last());
    }
}

proof fn lemma_builder_method_balanced(m: BuilderMethod)
    ensures
        balanced(builder_method_doc(m)),
    decreases m, 0nat,
{
    if let BuilderMethod::Spawn { closure, .. } = m {
        lemma_expr_balanced(*closure, ExprContext::Root);
    }
}

proof fn lemma_arms_balanced(arms: Seq<MatchArm>)
    ensures
        balanced(arms_doc(arms)),
    decreases arms, 0nat,
{
    if arms.len() > 0 {
        lemma_arms_balanced(arms.drop_last());
        lemma_arm_balanced(arms.last());
    }
}

proof fn lemma_arm_balanced(arm: MatchArm)
    ensures
        balanced(arm_doc(arm)),
    decreases arm, 0nat,
{
    if let Some(guard) = arm.guard {
        lemma_expr_balanced(guard, ExprContext::Root);
    }
    lemma_block_balanced(arm.body);
}

/// What a block prints as is balanced.
pub proof fn lemma_block_balanced(b: Block)
    ensures
        balanced(block_doc(b)),
    decreases b, 0nat,
{
    lemma_stmts_balanced(b.stmts@);
    if let Some(e) = b.expr {
        lemma_expr_balanced(*e, ExprContext::Root);
    }
}

proof fn lemma_stmts_balanced(ss: Seq<Statement>)
    ensures
        balanced(stmts_doc(ss)),
    decreases ss, 0nat,
{
    if ss.len() > 0 {
        lemma_stmts_balanced(ss.drop_last());
        lemma_stmt_balanced(ss.last());
    }
}

#[verifier::spinoff_prover]
#[verifier::rlimit(100)]
proof fn lemma_stmt_balanced(s: Statement)
    ensures
        balanced(stmt_doc(s)),
    decreases s, 0nat,
{
    match s {
        Statement::Let(ls) => {
            if let Some(init) = ls.init {
                lemma_expr_balanced(init, ExprContext::Root);
            }
        },
        Statement::Expr(e) => lemma_expr_balanced(e, ExprContext::Root),
        Statement::Item(item) => lemma_item_balanced(*item),
        Statement::Return(value) => {
            if let Some(v) = value {
                lemma_expr_balanced(v, ExprContext::Root);
            }
        },
        _ => {},
    }
}

proof fn lemma_items_balanced(s: Seq<Item>, next: Option<Item>)
    ensures
        balanced(items_doc(s, next)),
    decreases s, 0nat,
{
    if s.len() > 0 {
        lemma_items_balanced(s.drop_last(), Some(s.last()));
        lemma_item_balanced(s.last());
    }
}

/// What an item prints as is balanced.
pub proof fn lemma_item_balanced(item: Item)
    ensures
        balanced(item_doc(item)),
    decreases item, 0nat,
{
    match item {
        Item::Raw(raw) => lemma_doc_lines_balanced(crate::text::lines(raw@)),
        Item::Struct(s) => lemma_struct_balanced(s),
        Item::Enum(e) => lemma_enum_balanced(e),
        Item::Union(u) => lemma_union_balanced(u),
        Item::Function(f) => lemma_function_balanced(f),
        Item::Impl(i) => lemma_impl_balanced(i),
        Item::Const(c) => lemma_const_balanced(c),
        Item::TypeAlias(t) => lemma_type_alias_balanced(t),
        Item::Use(u) => lemma_use_balanced(u),
        Item::Mod(m) => lemma_nested_module_balanced(*m),
        Item::LazyStatic(l) => lemma_lazy_static_balanced(l),
    }
}

proof fn lemma_nested_module_balanced(m: RustModule)
    ensures
        balanced(nested_module_doc(m)),
    decreases m, 0nat,
{
    lemma_doc_lines_balanced(crate::text::views(m.docs@));
    lemma_attributes_balanced(m.attrs@);
    lemma_items_balanced(m.items@, None);
}

proof fn lemma_const_balanced(c: ConstDef)
    ensures
        balanced(const_doc(c)),
    decreases c, 0nat,
{
    lemma_doc_lines_balanced(crate::text::views(c.docs@));
    lemma_expr_balanced(c.value, ExprContext::Root);
}

proof fn lemma_lazy_static_balanced(l: LazyStaticDef)
    ensures
        balanced(lazy_static_doc(l)),
    decreases l, 0nat,
{
    lemma_doc_lines_balanced(crate::text::views(l.docs@));
    lemma_block_balanced(l.init);
}

proof fn lemma_function_balanced(f: FunctionDef)
    ensures
        balanced(function_doc(f)),
    decreases f, 0nat,
{
    lemma_doc_lines_balanced(crate::text::views(f.docs@));
    lemma_attributes_balanced(f.attrs@);
    lemma_signature_balanced(f);
    lemma_block_balanced(f.body);
}

#[verifier::spinoff_prover]
#[verifier::rlimit(100)]
proof fn lemma_impl_balanced(i: ImplBlock)
    ensures
        balanced(impl_doc(i)),
    decreases i, 0nat,
{
    lemma_generics_balanced(i.generics@);
    lemma_impl_items_balanced(i.items@);
}

proof fn lemma_impl_items_balanced(items: Seq<ImplItem>)
    ensures
        balanced(impl_items_doc(items)),
    decreases items, 0nat,
{
    if items.len() > 0 {
        lemma_impl_items_balanced(items.drop_last());
        lemma_impl_item_balanced(items.last());
    }
}

proof fn lemma_impl_item_balanced(item: ImplItem)
    ensures
        balanced(impl_item_doc(item)),
    decreases item, 0nat,
{
    match item {
        ImplItem::Method(m) => lemma_function_balanced(m),
        ImplItem::AssocConst(_, _, e) => lemma_expr_balanced(e, ExprContext::Root),
        ImplItem::AssocType(_, _) => {},
    }
}

/// What a whole module prints as is balanced.
pub proof fn lemma_module_balanced(m: RustModule)
    ensures
        balanced(module_doc(m)),
{
    lemma_doc_lines_balanced(crate::text::views(m.docs@));
    lemma_attributes_balanced(m.attrs@);
    lemma_items_balanced(m.items@, None);
}

/// Printing a module leaves the indentation level as it found it, unless the
/// nesting of the module would carry the level past `usize::MAX`.
pub proof fn law_module_keeps_indentation(m: RustModule, st: GenView)
    requires
        st.indent + high(module_doc(m)) <= usize::MAX,
    ensures
        render(st, module_doc(m)).indent == st.indent,
{
    lemma_module_balanced(m);
    lemma_render_indent(st, module_doc(m));
}

/// Generating the same module twice with one generator gives the same text both
/// times (the buffer is cleared and the indentation level is restored).
pub proof fn law_generate_twice(m: RustModule, indent: nat)
    requires
        indent + high(module_doc(m)) <= usize::MAX,
    ensures
        ({
            let first = render(GenView { text: seq![], indent }, module_doc(m));
            let second = render(GenView { text: seq![], indent: first.indent }, module_doc(m));
            second == first
        }),
{
    law_module_keeps_indentation(m, GenView { text: seq![], indent });
}

} // verus!
