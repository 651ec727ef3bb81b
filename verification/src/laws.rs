//! Properties of the printer that span its functions.
use vstd::prelude::*;

use crate::printed::{is_member_path, printer_context, expr_prec, needs_parens, rank, ExprContext, Precedence};
use crate::printed::{type_text, expr_doc, insert_by_name, nested_module_doc, sort_by_name, stmt_doc};
use crate::layout::{line, text, Piece};
use crate::rustlight_ast::{ClosureParam, Expr, GenericParam, LetStmt, RustModule, Statement, Type, Visibility};
use crate::text::{join, views};
use crate::text::{bytes_lt, text_lt};
use vstd::utf8::encode_utf8;

verus! {

/// An expression at the root position (a statement, an argument, a condition)
/// is never put in parentheses.
pub proof fn law_root_never_parenthesized(e: Expr)
    ensures
        !needs_parens(e, ExprContext::Root),
{
}

/// An atom (identifier, literal, namespace path, array, tuple, macro call or
/// explicitly parenthesized expression) is never put in parentheses, wherever it
/// stands; in particular explicit parentheses are kept and never doubled.
pub proof fn law_atoms_never_parenthesized(e: Expr, ctx: ExprContext)
    requires
        expr_prec(e) == Precedence::Atom,
        printer_context(ctx),
    ensures
        !needs_parens(e, ctx),
{
    assert(!is_member_path(e)) by {
        if let Expr::Path(_, pt) = e {
            assert(pt is Namespace);
        }
    }
}

/// An expression whose precedence is unknown (an unknown binary operator, a
/// block, a closure, a match, ...) is always put in parentheses when it is nested
/// in another expression.
pub proof fn law_unknown_parenthesized_when_nested(e: Expr, ctx: ExprContext)
    requires
        expr_prec(e) == Precedence::Unknown,
        ctx != ExprContext::Root,
    ensures
        needs_parens(e, ctx),
{
}

/// Binary operators of one known, non-comparison precedence associate to the
/// left: an operand of the same precedence is bare on the left (`a - b - c`) and
/// parenthesized on the right (`a - (b - c)`). Comparisons do not chain: such an
/// operand is parenthesized on both sides.
pub proof fn law_binary_associativity(e: Expr, p: Precedence)
    requires
        expr_prec(e) == p,
        p != Precedence::Unknown,
        e is BinaryOp,
    ensures
        p == Precedence::Compare ==> needs_parens(e, ExprContext::BinaryLeft(p)) && needs_parens(
            e,
            ExprContext::BinaryRight(p),
        ),
        p != Precedence::Compare ==> !needs_parens(e, ExprContext::BinaryLeft(p)) && needs_parens(
            e,
            ExprContext::BinaryRight(p),
        ),
{
}

/// An operand that binds more loosely than its parent binary operator is put in
/// parentheses on either side (`(a + b) * c`), and one that binds more tightly is
/// left bare on either side (`a + b * c`).
pub proof fn law_binary_precedence(e: Expr, p: Precedence)
    requires
        expr_prec(e) != Precedence::Unknown,
        p != Precedence::Unknown,
        !(p == Precedence::Compare && expr_prec(e) == Precedence::Compare),
    ensures
        rank(expr_prec(e)) < rank(p) ==> needs_parens(e, ExprContext::BinaryLeft(p)) && needs_parens(
            e,
            ExprContext::BinaryRight(p),
        ),
        rank(expr_prec(e)) > rank(p) ==> !needs_parens(e, ExprContext::BinaryLeft(p))
            && !needs_parens(e, ExprContext::BinaryRight(p)),
{
}

/// The order of byte strings, one byte at a time.
proof fn lemma_bytes_lt_unfold(a: Seq<u8>, b: Seq<u8>)
    ensures
        bytes_lt(a, b) == if a.len() == 0 {
            b.len() > 0
        } else if b.len() == 0 {
            false
        } else if a[0] != b[0] {
            a[0] < b[0]
        } else {
            bytes_lt(a.drop_first(), b.drop_first())
        },
{
    if a.len() == 0 {
        if b.len() > 0 {
            assert(a.take(0) =~= b.take(0));
        }
    } else if b.len() == 0 {
    } else if a[0] != b[0] {
        if a[0] < b[0] {
            assert(a.take(0) =~= b.take(0));
        } else {
            assert forall|k: int|
                0 <= k <= a.len() && k <= b.len() && #[trigger] a.take(k) == b.take(k) implies !((k
                < a.len() && k < b.len() && a[k] < b[k]) || (k == a.len() && k < b.len())) by {
                if k > 0 {
                    assert(a.take(k)[0] == b.take(k)[0]);
                }
            }
        }
    } else {
        let a1 = a.drop_first();
        let b1 = b.drop_first();
        if bytes_lt(a, b) {
            let k = choose|k: int|
                0 <= k <= a.len() && k <= b.len() && #[trigger] a.take(k) == b.take(k) && ((k
                    < a.len() && k < b.len() && a[k] < b[k]) || (k == a.len() && k < b.len()));
            assert(k > 0);
            assert(a1.take(k - 1) =~= a.take(k).drop_first());
            assert(b1.take(k - 1) =~= b.take(k).drop_first());
            assert(a1.take(k - 1) == b1.take(k - 1));
        }
        if bytes_lt(a1, b1) {
            let k = choose|k: int|
                0 <= k <= a1.len() && k <= b1.len() && #[trigger] a1.take(k) == b1.take(k) && ((k
                    < a1.len() && k < b1.len() && a1[k] < b1[k]) || (k == a1.len() && k
                    < b1.len()));
            assert(a.take(k + 1) =~= seq![a[0]] + a1.take(k));
            assert(b.take(k + 1) =~= seq![b[0]] + b1.take(k));
            assert(a.take(k + 1) == b.take(k + 1));
        }
    }
}

proof fn lemma_bytes_lt_asymmetric(a: Seq<u8>, b: Seq<u8>)
    requires
        bytes_lt(a, b),
    ensures
        !bytes_lt(b, a),
    decreases a.len(),
{
    lemma_bytes_lt_unfold(a, b);
    lemma_bytes_lt_unfold(b, a);
    if a.len() > 0 && b.len() > 0 && a[0] == b[0] {
        lemma_bytes_lt_asymmetric(a.drop_first(), b.drop_first());
    }
}

proof fn lemma_bytes_lt_transitive(a: Seq<u8>, b: Seq<u8>, c: Seq<u8>)
    requires
        bytes_lt(a, b),
        bytes_lt(b, c),
    ensures
        bytes_lt(a, c),
    decreases a.len(),
{
    lemma_bytes_lt_unfold(a, b);
    lemma_bytes_lt_unfold(b, c);
    lemma_bytes_lt_unfold(a, c);
    if a.len() > 0 && a[0] == b[0] && b[0] == c[0] {
        lemma_bytes_lt_transitive(a.drop_first(), b.drop_first(), c.drop_first());
    }
}

proof fn lemma_bytes_lt_total(a: Seq<u8>, b: Seq<u8>)
    requires
        !bytes_lt(a, b),
        !bytes_lt(b, a),
    ensures
        a == b,
    decreases a.len(),
{
    lemma_bytes_lt_unfold(a, b);
    lemma_bytes_lt_unfold(b, a);
    if a.len() > 0 {
        lemma_bytes_lt_total(a.drop_first(), b.drop_first());
        assert(a =~= seq![a[0]] + a.drop_first());
        assert(b =~= seq![b[0]] + b.drop_first());
    } else {
        assert(a =~= b);
    }
}

/// `s` lists its elements in order of name (no element has a smaller name than
/// one before it).
pub open spec fn sorted_by_name(s: Seq<GenericParam>) -> bool {
    forall|i: int, j: int| 0 <= i < j < s.len() ==> !text_lt(s[j].name@, s[i].name@)
}

proof fn lemma_insert_by_name_sorted(s: Seq<GenericParam>, g: GenericParam)
    requires
        sorted_by_name(s),
    ensures
        sorted_by_name(insert_by_name(s, g)),
        insert_by_name(s, g).to_multiset() == s.to_multiset().insert(g),
    decreases s.len(),
{
    broadcast use vstd::multiset::group_multiset_axioms;
    broadcast use vstd::seq_lib::group_to_multiset_ensures;

    if s.len() == 0 {
        assert(seq![g] =~= Seq::<GenericParam>::empty().push(g));
    } else {
        let last = s.last();
        let d = s.drop_last();
        assert(s =~= d.push(last));
        if text_lt(g.name@, last.name@) {
            assert(sorted_by_name(d));
            lemma_insert_by_name_sorted(d, g);
            let r = insert_by_name(d, g);
            lemma_bytes_lt_asymmetric(encode_utf8(g.name@), encode_utf8(last.name@));
            assert forall|k: int| 0 <= k < r.len() implies !text_lt(last.name@, #[trigger] r[k].name@) by {
                assert(r.to_multiset().count(r[k]) > 0);
                if r[k] != g {
                    assert(d.to_multiset().count(r[k]) > 0);
                    let m = choose|m: int| 0 <= m < d.len() && d[m] == r[k];
                    assert(s[m] == d[m]);
                }
            }
            assert(sorted_by_name(r.push(last)));
        } else {
            assert forall|k: int| 0 <= k < s.len() implies !text_lt(g.name@, #[trigger] s[k].name@) by {
                if k < s.len() - 1 {
                    assert(!text_lt(s[s.len() - 1].name@, s[k].name@));
                    let x = encode_utf8(s[k].name@);
                    let y = encode_utf8(last.name@);
                    let z = encode_utf8(g.name@);
                    if bytes_lt(z, x) {
                        if bytes_lt(x, y) {
                            lemma_bytes_lt_transitive(z, x, y);
                        } else {
                            assert(!bytes_lt(y, x));
                            lemma_bytes_lt_total(x, y);
                        }
                    }
                }
            }
            assert(sorted_by_name(s.push(g)));
        }
    }
}

/// The `where` clause lists the bounded generic parameters sorted by name: the
/// stable sort by name orders its result and keeps exactly its input's elements.
pub proof fn law_sort_by_name(s: Seq<GenericParam>)
    ensures
        sorted_by_name(sort_by_name(s)),
        sort_by_name(s).to_multiset() == s.to_multiset(),
    decreases s.len(),
{
    broadcast use vstd::multiset::group_multiset_axioms;
    broadcast use vstd::seq_lib::group_to_multiset_ensures;

    if s.len() > 0 {
        law_sort_by_name(s.drop_last());
        lemma_insert_by_name_sorted(sort_by_name(s.drop_last()), s.last());
        assert(s =~= s.drop_last().push(s.last()));
    }
}

/// A `move` closure prints exactly as the same closure without `move`, with the
/// text `move ` put in front of its parameter list (inside the parentheses, when
/// the position asks for them); a closure without `move` starts with its
/// parameter list. The same holds of closures with a return type.
pub proof fn law_move_closure(
    params: Vec<ClosureParam>,
    return_type: Type,
    body: Box<Expr>,
    ctx: ExprContext,
)
    ensures
        ({
            let with = expr_doc(Expr::Closure(params, body, true), ctx);
            let without = expr_doc(Expr::Closure(params, body, false), ctx);
            let k: int = if needs_parens(Expr::Closure(params, body, false), ctx) {
                1
            } else {
                0
            };
            &&& with == without.take(k) + text("move "@) + without.skip(k)
            &&& without[k] == Piece::Text("|"@)
        }),
        ({
            let with = expr_doc(Expr::TypedClosure(params, return_type, body, true), ctx);
            let without = expr_doc(Expr::TypedClosure(params, return_type, body, false), ctx);
            let k: int = if needs_parens(Expr::TypedClosure(params, return_type, body, false), ctx) {
                1
            } else {
                0
            };
            &&& with == without.take(k) + text("move "@) + without.skip(k)
            &&& without[k] == Piece::Text("|"@)
        }),
{
    let with = expr_doc(Expr::Closure(params, body, true), ctx);
    let without = expr_doc(Expr::Closure(params, body, false), ctx);
    let k: int = if needs_parens(Expr::Closure(params, body, false), ctx) {
        1
    } else {
        0
    };
    assert(with =~= without.take(k) + text("move "@) + without.skip(k));
    let with = expr_doc(Expr::TypedClosure(params, return_type, body, true), ctx);
    let without = expr_doc(Expr::TypedClosure(params, return_type, body, false), ctx);
    let k: int = if needs_parens(Expr::TypedClosure(params, return_type, body, false), ctx) {
        1
    } else {
        0
    };
    assert(with =~= without.take(k) + text("move "@) + without.skip(k));
}

/// A `let` statement with an initializer prints as the same statement without
/// one, with ` = ` and the initializer put before the closing `;`, whether or not
/// it has a type annotation.
pub proof fn law_let_initializer(ifmut: bool, name: String, ty: Option<Type>, init: Expr)
    ensures
        ({
            let with = stmt_doc(Statement::Let(LetStmt { ifmut, name, ty, init: Some(init) }));
            let without = stmt_doc(Statement::Let(LetStmt { ifmut, name, ty, init: None }));
            &&& without.skip(without.len() - 2) == line(";"@)
            &&& with == without.take(without.len() - 2) + text(" = "@) + expr_doc(
                init,
                ExprContext::Root,
            ) + line(";"@)
        }),
{
    let with = stmt_doc(Statement::Let(LetStmt { ifmut, name, ty, init: Some(init) }));
    let without = stmt_doc(Statement::Let(LetStmt { ifmut, name, ty, init: None }));
    assert(without.skip(without.len() - 2) =~= line(";"@));
    assert(with =~= without.take(without.len() - 2) + text(" = "@) + expr_doc(
        init,
        ExprContext::Root,
    ) + line(";"@));
}

/// A `let` statement with a type annotation prints as the same statement without
/// one, with `: T` put right after the name, whether or not it has an
/// initializer.
pub proof fn law_let_annotation(ifmut: bool, name: String, ty: Type, init: Option<Expr>)
    ensures
        ({
            let typed = stmt_doc(Statement::Let(LetStmt { ifmut, name, ty: Some(ty), init }));
            let untyped = stmt_doc(Statement::Let(LetStmt { ifmut, name, ty: None, init }));
            typed == untyped.take(1) + text(": "@ + type_text(ty)) + untyped.skip(1)
        }),
{
    let typed = stmt_doc(Statement::Let(LetStmt { ifmut, name, ty: Some(ty), init }));
    let untyped = stmt_doc(Statement::Let(LetStmt { ifmut, name, ty: None, init }));
    assert(typed =~= untyped.take(1) + text(": "@ + type_text(ty)) + untyped.skip(1));
}

/// A nested module prints as the same module declared private, with its
/// visibility put in front of `mod`: `pub ` for a public module, `pub(in path ) `
/// for a restricted one, nothing for a private one or one that inherits it.
pub proof fn law_nested_module_visibility(
    name: String,
    docs: Vec<String>,
    items: Vec<crate::rustlight_ast::Item>,
    attrs: Vec<crate::rustlight_ast::Attribute>,
    vis: Visibility,
)
    ensures
        ({
            let declared = nested_module_doc(RustModule { name, docs, items, attrs, vis });
            let private = nested_module_doc(
                RustModule { name, docs, items, attrs, vis: Visibility::Private },
            );
            &&& private[0] == Piece::Text("mod "@ + name@ + " {"@)
            &&& match vis {
                Visibility::Public => declared == text("pub "@) + private,
                Visibility::Restricted(path) => declared == text(
                    "pub(in "@ + join(views(path@), "::"@) + " ) "@,
                ) + private,
                _ => declared == private,
            }
        }),
{
    let declared = nested_module_doc(RustModule { name, docs, items, attrs, vis });
    let private = nested_module_doc(RustModule { name, docs, items, attrs, vis: Visibility::Private });
    match vis {
        Visibility::Public => assert(declared =~= text("pub "@) + private),
        Visibility::Restricted(path) => assert(declared =~= text(
            "pub(in "@ + join(views(path@), "::"@) + " ) "@,
        ) + private),
        _ => assert(declared =~= private),
    }
}

} // verus!
