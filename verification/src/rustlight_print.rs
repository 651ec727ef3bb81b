//! The Rust code generator: prints a module of the syntax tree as Rust source.
use vstd::prelude::*;

use crate::nesting::law_module_keeps_indentation;
use crate::layout::{
    high, at_line_start, indentation, lemma_render_concat, lemma_render_line, lemma_render_one, line,
    render, step, text, GenView, Piece,
};
use crate::rustlight_ast::{
    LetStmt, Attribute, AttributeArg, Block, BuilderMethod, CallableTraitQualifier, ClosureParam, ConstDef,
    EnumDef, Expr, Field, FunctionDef, GenericParam, ImplBlock, ImplItem, Item, LazyStaticDef,
    Literal, MatchArm, Param, PathType, RustModule, Statement, StructDef, Type, TypeAlias,
    UnionDef, UseKind, UseStatement, Variant, Visibility,
};
use crate::text::{
    contains, ends_with_newline, i64_to_string, join, join_strings,
    lemma_join_take, lines_of, push_char, starts_with, str_eq, str_lt, usize_to_string, views,
};
use crate::printed::{
    bounded, byte_len, const_doc, fn_head, fn_params_and_return, function_doc, has_bounds, impl_doc,
    impl_item_doc, impl_items_doc, items_doc, lazy_static_doc,
    lemma_insert_by_name_at, module_doc, nested_module_doc, separate_after_use, signature_doc,
    sort_by_name, where_doc, where_line, MAX_FUNCTION_SIGNATURE_WIDTH,
    arm_comment_doc, arm_doc, arms_doc, binary_prec, block_doc, builder_doc, builder_method_doc,
    closure_body_wrap, closure_param_doc, closure_param_docs, closure_params_doc, expr_doc,
    expr_prec, exprs_doc, is_else_if, item_doc, needs_parens, paren_wrap, rank,
    stmt_doc, stmts_doc, ExprContext, PostfixKind, Precedence, attr_arg_doc, attr_arg_docs, attribute_doc, attribute_docs, attributes_doc, derives_doc,
    doc_lines, lemma_doc_lines_take, lemma_flat_take, lemma_sep_docs_take, lemma_sep_texts_take,
    sep_docs, sep_texts, use_doc, type_alias_doc, bounds_text, enum_doc, field_doc, field_docs,
    field_type_texts, fields_doc, generics_doc, header_generics_doc, is_tuple_struct, struct_doc,
    type_texts, union_doc, variant_doc, variant_docs, generic_names, generic_names_text, generic_param_text, generic_param_texts,
    generic_params_text, is_static_bound, literal_text, non_static_bounds, param_text,
    param_texts, params_text, static_bounds, type_text, types_text, vis_text,
};

verus! {

/// Rust code generator
pub struct RustCodeGenerator {
    buffer: String,
    indent_level: usize,
    /// whether `buffer` is empty or ends with a line break
    line_start: bool,
}

impl View for RustCodeGenerator {
    type V = GenView;

    closed spec fn view(&self) -> GenView {
        GenView { text: self.buffer@, indent: self.indent_level as nat }
    }
}

impl Default for RustCodeGenerator {
    fn default() -> (res: Self)
        ensures
            res.wf(),
            res@ == (GenView { text: seq![], indent: 0 }),
    {
        Self::new()
    }
}

impl RustCodeGenerator {
    /// The generator's internal consistency.
    pub closed spec fn wf(&self) -> bool {
        self.line_start == at_line_start(self.buffer@)
    }

    /// A generator with an empty buffer at indentation level zero.
    pub fn new() -> (res: Self)
        ensures
            res.wf(),
            res@ == (GenView { text: seq![], indent: 0 }),
    {
        Self { buffer: String::new(), indent_level: 0, line_start: true }
    }

    /// Writes `s`, preceded by the indentation when the buffer is at the start of a line.
    fn write(&mut self, s: &str)
        requires
            old(self).wf(),
        ensures
            final(self).wf(),
            final(self)@ == render(old(self)@, text(s@)),
    {
        proof {
            lemma_render_one(self@, Piece::Text(s@));
            reveal_strlit("    ");
        }
        let ghost old_text = self.buffer@;
        if self.line_start {
            let mut i: usize = 0;
            while i < self.indent_level
                invariant
                    self.indent_level == old(self).indent_level,
                    self.line_start == old(self).line_start,
                    self.buffer@ == old_text + indentation(i as nat),
                    i <= self.indent_level,
                decreases self.indent_level - i,
            {
                proof {
                    reveal_strlit("    ");
                }
                self.buffer.append("    ");
                i += 1;
            }
        }
        let ghost mid = self.buffer@;
        assert(self.indent_level == 0 ==> mid =~= old_text);
        assert(old(self).line_start && self.indent_level > 0 ==> mid.len() > 0 && mid.last() == ' ');
        self.buffer.append(s);
        if !s.is_empty() {
            self.line_start = ends_with_newline(s);
            assert(self.buffer@.last() == s@.last());
        } else if self.indent_level > 0 {
            self.line_start = false;
            proof {
                if old(self).line_start {
                    assert(mid.last() == ' ');
                }
            }
        }
        assert(self.buffer@ =~= step(old(self)@, Piece::Text(s@)).text);
        assert(s@.len() == 0 ==> self.buffer@ =~= mid);
    }

    /// Writes `s` and ends the line.
    fn writeln(&mut self, s: &str)
        requires
            old(self).wf(),
        ensures
            final(self).wf(),
            final(self)@ == render(old(self)@, line(s@)),
    {
        let ghost st0 = self@;
        self.write(s);
        proof {
            lemma_render_one(st0, Piece::Text(s@));
            lemma_render_line(st0, s@);
            lemma_render_one(self@, Piece::Newline);
        }
        push_char(&mut self.buffer, '\n');
        self.line_start = true;
    }

    /// One more level of indentation.
    fn indent(&mut self)
        requires
            old(self).wf(),
        ensures
            final(self).wf(),
            final(self)@ == render(old(self)@, seq![Piece::Indent]),
    {
        proof {
            lemma_render_one(self@, Piece::Indent);
        }
        if self.indent_level < usize::MAX {
            self.indent_level += 1;
        }
    }

    /// One level less of indentation, never below zero.
    fn dedent(&mut self)
        requires
            old(self).wf(),
        ensures
            final(self).wf(),
            final(self)@ == render(old(self)@, seq![Piece::Dedent]),
    {
        proof {
            lemma_render_one(self@, Piece::Dedent);
        }
        if self.indent_level > 0 {
            self.indent_level -= 1;
        }
    }
}

impl RustCodeGenerator {
    /// The text of a type.
    fn type_to_string(&self, ty: &Type) -> (res: String)
        ensures
            res@ == type_text(*ty),
        decreases ty,
    {
        match ty {
            Type::Path(path) => join_strings(path, "::"),
            Type::Named(name) => name.clone(),
            Type::Generic(name, params) => {
                let mut s = name.clone();
                s.append("<");
                let inner = self.types_to_string(params);
                s.append(inner.as_str());
                s.append(">");
                s
            },
            Type::CallableTrait(callable) => {
                let mut s = String::new();
                match callable.qualifier {
                    CallableTraitQualifier::Dyn => s.append("dyn"),
                    CallableTraitQualifier::Impl => s.append("impl"),
                }
                s.append(" ");
                s.append(callable.trait_name.as_str());
                s.append("(");
                let args = self.types_to_string(&callable.args);
                s.append(args.as_str());
                s.append(") -> ");
                let ret = self.type_to_string(&callable.return_type);
                s.append(ret.as_str());
                s
            },
            Type::Reference(inner, is_reference, mutable) => {
                let mut s = String::new();
                if *is_reference {
                    s.append("&");
                } else {
                    s.append("");
                }
                if *mutable {
                    s.append("mut ");
                } else {
                    s.append("");
                }
                let t = self.type_to_string(inner);
                s.append(t.as_str());
                s
            },
            Type::Tuple(types) => {
                let mut s = String::new();
                s.append("(");
                let inner = self.types_to_string(types);
                s.append(inner.as_str());
                if types.len() == 1 {
                    s.append(",");
                } else {
                    s.append("");
                }
                s.append(")");
                s
            },
            Type::Slice(inner) => {
                let mut s = String::new();
                s.append("[");
                let t = self.type_to_string(inner);
                s.append(t.as_str());
                s.append("]");
                s
            },
            Type::Array(inner, size) => {
                let mut s = String::new();
                s.append("[");
                let t = self.type_to_string(inner);
                s.append(t.as_str());
                s.append("; ");
                let n = usize_to_string(*size);
                s.append(n.as_str());
                s.append("]");
                s
            },
            Type::Unit => {
                let mut s = String::new();
                s.append("()");
                s
            },
            Type::Never => {
                let mut s = String::new();
                s.append("!");
                s
            },
        }
    }

    /// The texts of types separated by `", "`.
    fn types_to_string(&self, ts: &Vec<Type>) -> (res: String)
        ensures
            res@ == types_text(ts@),
        decreases ts,
    {
        let mut s = String::new();
        for i in 0..ts.len()
            invariant
                s@ == types_text(ts@.take(i as int)),
        {
            proof {
                assert(ts@.take(i + 1).drop_last() =~= ts@.take(i as int));
                assert(decreases_to!(ts => ts@[i as int]));
            }
            if i > 0 {
                s.append(", ");
            }
            let t = self.type_to_string(&ts[i]);
            s.append(t.as_str());
        }
        assert(ts@.take(ts@.len() as int) =~= ts@);
        s
    }
}

impl RustCodeGenerator {
    /// The visibility prefix of a declaration.
    fn visibility(&self, vis: &Visibility) -> (res: String)
        ensures
            res@ == vis_text(*vis),
    {
        let mut s = String::new();
        match vis {
            Visibility::Public => s.append("pub "),
            Visibility::Private => s.append(""),
            Visibility::Restricted(path) => {
                s.append("pub(in ");
                let p = join_strings(path, "::");
                s.append(p.as_str());
                s.append(") ");
            },
            Visibility::Inherited => s.append(""),
        }
        s
    }

    /// A generic parameter with its bounds.
    fn generic_param_to_string(&self, generic: &GenericParam) -> (res: String)
        ensures
            res@ == generic_param_text(*generic),
    {
        if generic.bounds.len() == 0 {
            generic.name.clone()
        } else {
            let mut s = generic.name.clone();
            s.append(": ");
            let b = ordered_bounds_to_string(&generic.bounds);
            s.append(b.as_str());
            s
        }
    }

    /// `<T, U>`, the names of the generic parameters, or nothing.
    fn generic_names_to_string(&self, generics: &Vec<GenericParam>) -> (res: String)
        ensures
            res@ == generic_names_text(generics@),
    {
        if generics.len() == 0 {
            return String::new();
        }
        let ghost names = generic_names(generics@);
        let mut out = String::new();
        out.append("<");
        for i in 0..generics.len()
            invariant
                names == generic_names(generics@),
                out@ == "<"@ + join(names.take(i as int), ", "@),
        {
            proof {
                lemma_join_take(names, ", "@, i as int);
            }
            if i > 0 {
                out.append(", ");
            }
            out.append(generics[i].name.as_str());
        }
        out.append(">");
        assert(names.take(names.len() as int) =~= names);
        out
    }

    /// `<T: Clone, U>`, the generic parameters with their bounds, or nothing.
    fn generic_params_to_string(&self, generics: &Vec<GenericParam>) -> (res: String)
        ensures
            res@ == generic_params_text(generics@),
    {
        if generics.len() == 0 {
            return String::new();
        }
        let ghost texts = generic_param_texts(generics@);
        let mut out = String::new();
        out.append("<");
        for i in 0..generics.len()
            invariant
                texts == generic_param_texts(generics@),
                out@ == "<"@ + join(texts.take(i as int), ", "@),
        {
            proof {
                lemma_join_take(texts, ", "@, i as int);
            }
            if i > 0 {
                out.append(", ");
            }
            let g = self.generic_param_to_string(&generics[i]);
            out.append(g.as_str());
        }
        out.append(">");
        assert(texts.take(texts.len() as int) =~= texts);
        out
    }

    /// Function parameters separated by `", "`.
    fn params_to_string(&self, params: &Vec<Param>) -> (res: String)
        ensures
            res@ == params_text(params@),
    {
        let ghost texts = param_texts(params@);
        let mut out = String::new();
        for i in 0..params.len()
            invariant
                texts == param_texts(params@),
                out@ == join(texts.take(i as int), ", "@),
        {
            proof {
                lemma_join_take(texts, ", "@, i as int);
            }
            if i > 0 {
                out.append(", ");
            }
            let p = self.param_to_string(&params[i]);
            out.append(p.as_str());
        }
        assert(texts.take(texts.len() as int) =~= texts);
        out
    }

    /// A function parameter.
    fn param_to_string(&self, param: &Param) -> (res: String)
        ensures
            res@ == param_text(*param),
    {
        if param.name.as_str().is_empty() {
            self.type_to_string(&param.ty)
        } else {
            let mut s = param.name.clone();
            s.append(": ");
            let t = self.type_to_string(&param.ty);
            s.append(t.as_str());
            s
        }
    }

    /// The source text of a literal.
    fn literal_to_string(&self, lit: &Literal) -> (res: String)
        ensures
            res@ == literal_text(*lit),
    {
        match lit {
            Literal::Raw(source) => source.clone(),
            Literal::Int(i) => i64_to_string(*i),
            Literal::Float(f) => f.clone(),
            Literal::Str(s) => {
                let mut out = String::new();
                out.append("\"");
                out.append(s.as_str());
                out.append("\"");
                out
            },
            Literal::Bool(b) => {
                let mut out = String::new();
                if *b {
                    out.append("true");
                } else {
                    out.append("false");
                }
                out
            },
            Literal::Char(c) => {
                let mut out = String::new();
                out.append("'");
                push_char(&mut out, *c);
                out.append("'");
                assert(out@ =~= "'"@ + seq![*c] + "'"@);
                out
            },
        }
    }
}

/// Trait bounds joined by `" + "`, with the `'static` bounds last.
fn ordered_bounds_to_string(bounds: &Vec<String>) -> (res: String)
    ensures
        res@ == bounds_text(views(bounds@)),
{
    let ghost all = views(bounds@);
    let mut ordered: Vec<String> = Vec::new();
    for i in 0..bounds.len()
        invariant
            all == views(bounds@),
            views(ordered@) == non_static_bounds(all.take(i as int)),
    {
        proof {
            reveal(Seq::filter);
            let t1 = all.take(i + 1);
            assert(t1.drop_last() =~= all.take(i as int));
            assert(t1.last() == bounds@[i as int]@);
            assert(non_static_bounds(t1) == if !is_static_bound(t1.last()) {
                non_static_bounds(all.take(i as int)).push(t1.last())
            } else {
                non_static_bounds(all.take(i as int))
            });
        }
        let ghost before = ordered@;
        if !str_eq(bounds[i].as_str(), "'static") {
            ordered.push(bounds[i].clone());
            assert(views(ordered@) =~= views(before).push(bounds@[i as int]@));
        }
    }
    assert(all.take(all.len() as int) =~= all);
    let ghost first = views(ordered@);
    for i in 0..bounds.len()
        invariant
            all == views(bounds@),
            first == non_static_bounds(all),
            views(ordered@) == first + static_bounds(all.take(i as int)),
    {
        proof {
            reveal(Seq::filter);
            let t1 = all.take(i + 1);
            assert(t1.drop_last() =~= all.take(i as int));
            assert(t1.last() == bounds@[i as int]@);
            assert(static_bounds(t1) == if is_static_bound(t1.last()) {
                static_bounds(all.take(i as int)).push(t1.last())
            } else {
                static_bounds(all.take(i as int))
            });
        }
        let ghost before = ordered@;
        if str_eq(bounds[i].as_str(), "'static") {
            ordered.push(bounds[i].clone());
            assert(views(ordered@) =~= views(before).push(bounds@[i as int]@));
            assert(views(ordered@) =~= first + static_bounds(all.take(i as int)).push(bounds@[i as int]@));
        }
    }
    let res = join_strings(&ordered, " + ");
    assert(views(ordered@) =~= non_static_bounds(all) + static_bounds(all));
    res
}

impl RustCodeGenerator {
    /// Writes each string on a line of its own.
    fn write_lines(&mut self, ds: &Vec<String>)
        requires
            old(self).wf(),
        ensures
            final(self).wf(),
            final(self)@ == render(old(self)@, doc_lines(views(ds@))),
    {
        let ghost st0 = self@;
        let ghost all = views(ds@);
        for i in 0..ds.len()
            invariant
                self.wf(),
                all == views(ds@),
                self@ == render(st0, doc_lines(all.take(i as int))),
        {
            proof {
                lemma_doc_lines_take(all, i as int);
            }
            self.writeln(ds[i].as_str());
            proof {
                lemma_render_concat(st0, doc_lines(all.take(i as int)), line(all[i as int]));
            }
        }
        assert(all.take(all.len() as int) =~= all);
    }

    /// Writes each string, with `sep` between each two.
    fn write_separated(&mut self, parts: &Vec<String>, sep: &str)
        requires
            old(self).wf(),
        ensures
            final(self).wf(),
            final(self)@ == render(old(self)@, sep_texts(views(parts@), sep@)),
    {
        let ghost st0 = self@;
        let ghost all = views(parts@);
        for i in 0..parts.len()
            invariant
                self.wf(),
                all == views(parts@),
                self@ == render(st0, sep_texts(all.take(i as int), sep@)),
        {
            proof {
                lemma_sep_texts_take(all, sep@, i as int);
            }
            let ghost acc = sep_texts(all.take(i as int), sep@);
            if i > 0 {
                self.write(sep);
                proof {
                    lemma_render_concat(st0, acc, text(sep@));
                }
            } else {
                assert(acc + seq![] =~= acc);
            }
            let ghost acc2 = acc + (if i > 0 {
                text(sep@)
            } else {
                seq![]
            });
            self.write(parts[i].as_str());
            proof {
                lemma_render_concat(st0, acc2, text(all[i as int]));
            }
        }
        assert(all.take(all.len() as int) =~= all);
    }

    /// Writes an attribute on a line of its own.
    fn generate_attribute(&mut self, attr: &Attribute)
        requires
            old(self).wf(),
        ensures
            final(self).wf(),
            final(self)@ == render(old(self)@, attribute_doc(*attr)),
    {
        let ghost st0 = self@;
        let mut head = String::new();
        head.append("#[");
        head.append(attr.name.as_str());
        self.write(head.as_str());
        let ghost mut acc = text(head@);
        if attr.args.len() > 0 {
            self.write("(");
            proof {
                lemma_render_concat(st0, acc, text("("@));
                acc = acc + text("("@);
            }
            let ghost ds = attr_arg_docs(attr.args@);
            let ghost before = acc;
            for i in 0..attr.args.len()
                invariant
                    self.wf(),
                    ds == attr_arg_docs(attr.args@),
                    self@ == render(st0, before + sep_docs(ds.take(i as int), text(", "@))),
            {
                proof {
                    lemma_sep_docs_take(ds, text(", "@), i as int);
                }
                let ghost acc1 = before + sep_docs(ds.take(i as int), text(", "@));
                if i > 0 {
                    self.write(", ");
                    proof {
                        lemma_render_concat(st0, acc1, text(", "@));
                    }
                }
                let ghost acc2 = acc1 + (if i > 0 {
                    text(", "@)
                } else {
                    seq![]
                });
                assert(i == 0 ==> acc2 =~= acc1);
                self.generate_attribute_arg(&attr.args[i]);
                proof {
                    lemma_render_concat(st0, acc2, ds[i as int]);
                    assert(acc2 + ds[i as int] =~= before + sep_docs(ds.take(i + 1), text(", "@)));
                }
            }
            assert(ds.take(ds.len() as int) =~= ds);
            self.write(")");
            proof {
                acc = before + sep_docs(ds, text(", "@));
                lemma_render_concat(st0, acc, text(")"@));
                acc = acc + text(")"@);
            }
        }
        self.writeln("]");
        proof {
            lemma_render_concat(st0, acc, line("]"@));
            assert(acc + line("]"@) =~= attribute_doc(*attr));
        }
    }

    /// Writes one attribute argument.
    fn generate_attribute_arg(&mut self, arg: &AttributeArg)
        requires
            old(self).wf(),
        ensures
            final(self).wf(),
            final(self)@ == render(old(self)@, attr_arg_doc(*arg)),
    {
        match arg {
            AttributeArg::Ident(id) => self.write(id.as_str()),
            AttributeArg::Literal(lit) => self.generate_literal(lit),
            AttributeArg::KeyValue(k, v) => {
                let ghost st0 = self@;
                let mut key = k.clone();
                key.append(" = ");
                self.write(key.as_str());
                self.generate_literal(v);
                proof {
                    lemma_render_concat(st0, text(key@), text(literal_text(*v)));
                }
            },
        }
    }

    /// Writes a literal.
    fn generate_literal(&mut self, lit: &Literal)
        requires
            old(self).wf(),
        ensures
            final(self).wf(),
            final(self)@ == render(old(self)@, text(literal_text(*lit))),
    {
        let s = self.literal_to_string(lit);
        self.write(s.as_str());
    }

    /// Writes attributes, each on a line of its own.
    fn generate_attributes(&mut self, attrs: &Vec<Attribute>)
        requires
            old(self).wf(),
        ensures
            final(self).wf(),
            final(self)@ == render(old(self)@, attributes_doc(attrs@)),
    {
        let ghost st0 = self@;
        let ghost ds = attribute_docs(attrs@);
        for i in 0..attrs.len()
            invariant
                self.wf(),
                ds == attribute_docs(attrs@),
                self@ == render(st0, crate::printed::flat(ds.take(i as int))),
        {
            proof {
                lemma_flat_take(ds, i as int);
            }
            self.generate_attribute(&attrs[i]);
            proof {
                lemma_render_concat(st0, crate::printed::flat(ds.take(i as int)), ds[i as int]);
            }
        }
        assert(ds.take(ds.len() as int) =~= ds);
    }

    /// Writes `#[derive(...)]` on a line of its own, when there are derives.
    fn generate_derives(&mut self, derives: &Vec<String>)
        requires
            old(self).wf(),
        ensures
            final(self).wf(),
            final(self)@ == render(old(self)@, derives_doc(views(derives@))),
    {
        if derives.len() > 0 {
            let ghost st0 = self@;
            self.write("#[derive(");
            self.write_separated(derives, ", ");
            proof {
                lemma_render_concat(st0, text("#[derive("@), sep_texts(views(derives@), ", "@));
            }
            self.writeln(")]");
            proof {
                lemma_render_concat(
                    st0,
                    text("#[derive("@) + sep_texts(views(derives@), ", "@),
                    line(")]"@),
                );
            }
        }
    }

    /// Writes a `use` declaration.
    fn generate_use(&mut self, u: &UseStatement)
        requires
            old(self).wf(),
        ensures
            final(self).wf(),
            final(self)@ == render(old(self)@, use_doc(*u)),
    {
        let ghost st0 = self@;
        self.write("use ");
        self.write_separated(&u.path, "::");
        let ghost acc = text("use "@) + sep_texts(views(u.path@), "::"@);
        proof {
            lemma_render_concat(st0, text("use "@), sep_texts(views(u.path@), "::"@));
        }
        match &u.kind {
            UseKind::Simple => {
                self.writeln(";");
                proof {
                    lemma_render_concat(st0, acc, line(";"@));
                }
            },
            UseKind::Glob => {
                self.writeln("::*;");
                proof {
                    lemma_render_concat(st0, acc, line("::*;"@));
                }
            },
            UseKind::Nested(items) => {
                self.write("::{");
                proof {
                    lemma_render_concat(st0, acc, text("::{"@));
                }
                self.write_separated(items, ", ");
                proof {
                    lemma_render_concat(st0, acc + text("::{"@), sep_texts(views(items@), ", "@));
                }
                self.writeln("};");
                proof {
                    lemma_render_concat(
                        st0,
                        acc + text("::{"@) + sep_texts(views(items@), ", "@),
                        line("};"@),
                    );
                    assert(acc + text("::{"@) + sep_texts(views(items@), ", "@) + line("};"@)
                        =~= acc + (text("::{"@) + sep_texts(views(items@), ", "@) + line("};"@)));
                }
            },
        }
    }

    /// Writes a type alias.
    fn generate_type_alias(&mut self, t: &TypeAlias)
        requires
            old(self).wf(),
        ensures
            final(self).wf(),
            final(self)@ == render(old(self)@, type_alias_doc(*t)),
    {
        let ghost st0 = self@;
        self.write_lines(&t.docs);
        let mut s = self.visibility(&t.vis);
        s.append("type ");
        s.append(t.name.as_str());
        let g = self.generic_params_to_string(&t.generics);
        s.append(g.as_str());
        s.append(" = ");
        let ty = self.type_to_string(&t.target);
        s.append(ty.as_str());
        s.append(";");
        self.writeln(s.as_str());
        proof {
            lemma_render_concat(st0, doc_lines(views(t.docs@)), line(s@));
        }
        self.writeln("");
        proof {
            lemma_render_concat(st0, doc_lines(views(t.docs@)) + line(s@), line(""@));
        }
    }
}

impl RustCodeGenerator {
    /// The text of each generic parameter with its bounds.
    fn generic_param_strings(&self, gs: &Vec<GenericParam>) -> (res: Vec<String>)
        ensures
            views(res@) == generic_param_texts(gs@),
    {
        let mut res: Vec<String> = Vec::new();
        for i in 0..gs.len()
            invariant
                views(res@) == generic_param_texts(gs@).take(i as int),
        {
            let ghost before = res@;
            let g = self.generic_param_to_string(&gs[i]);
            res.push(g);
            assert(generic_param_texts(gs@)[i as int] == generic_param_text(gs@[i as int]));
            assert(views(res@) =~= views(before).push(res@[i as int]@));
            assert(views(res@) =~= generic_param_texts(gs@).take(i + 1));
        }
        assert(generic_param_texts(gs@).take(gs@.len() as int) =~= generic_param_texts(gs@));
        res
    }

    /// The text of each type.
    fn type_strings(&self, ts: &Vec<Type>) -> (res: Vec<String>)
        ensures
            views(res@) == type_texts(ts@),
    {
        let mut res: Vec<String> = Vec::new();
        for i in 0..ts.len()
            invariant
                views(res@) == type_texts(ts@).take(i as int),
        {
            let ghost before = res@;
            let t = self.type_to_string(&ts[i]);
            res.push(t);
            assert(type_texts(ts@)[i as int] == type_text(ts@[i as int]));
            assert(views(res@) =~= views(before).push(res@[i as int]@));
            assert(views(res@) =~= type_texts(ts@).take(i + 1));
        }
        assert(type_texts(ts@).take(ts@.len() as int) =~= type_texts(ts@));
        res
    }

    /// The type text of each field.
    fn field_type_strings(&self, fields: &Vec<Field>) -> (res: Vec<String>)
        ensures
            views(res@) == field_type_texts(fields@),
    {
        let mut res: Vec<String> = Vec::new();
        for i in 0..fields.len()
            invariant
                views(res@) == field_type_texts(fields@).take(i as int),
        {
            let ghost before = res@;
            let t = self.type_to_string(&fields[i].ty);
            res.push(t);
            assert(field_type_texts(fields@)[i as int] == type_text(fields@[i as int].ty));
            assert(views(res@) =~= views(before).push(res@[i as int]@));
            assert(views(res@) =~= field_type_texts(fields@).take(i + 1));
        }
        assert(field_type_texts(fields@).take(fields@.len() as int) =~= field_type_texts(fields@));
        res
    }

    /// Writes the generic parameters between `<` and `>`, when there are any.
    fn generate_generics(&mut self, generics: &Vec<GenericParam>)
        requires
            old(self).wf(),
        ensures
            final(self).wf(),
            final(self)@ == render(old(self)@, generics_doc(generics@)),
    {
        if generics.len() > 0 {
            let ghost st0 = self@;
            self.write("<");
            let texts = self.generic_param_strings(generics);
            self.write_separated(&texts, ", ");
            proof {
                lemma_render_concat(st0, text("<"@), sep_texts(views(texts@), ", "@));
            }
            self.write(">");
            proof {
                lemma_render_concat(
                    st0,
                    text("<"@) + sep_texts(views(texts@), ", "@),
                    text(">"@),
                );
            }
        }
    }

    /// Writes the generic parameters of an enum or union header and ends its first line.
    fn generate_header_generics(&mut self, generics: &Vec<GenericParam>)
        requires
            old(self).wf(),
        ensures
            final(self).wf(),
            final(self)@ == render(old(self)@, header_generics_doc(generics@)),
    {
        if generics.len() == 0 {
            self.writeln("{");
        } else {
            let ghost st0 = self@;
            self.write("<");
            let texts = self.generic_param_strings(generics);
            self.write_separated(&texts, ", ");
            proof {
                lemma_render_concat(st0, text("<"@), sep_texts(views(texts@), ", "@));
            }
            self.writeln("> {");
            proof {
                lemma_render_concat(
                    st0,
                    text("<"@) + sep_texts(views(texts@), ", "@),
                    line("> {"@),
                );
            }
        }
    }

    /// Writes a named field.
    fn generate_field(&mut self, field: &Field)
        requires
            old(self).wf(),
        ensures
            final(self).wf(),
            final(self)@ == render(old(self)@, field_doc(*field)),
    {
        let ghost st0 = self@;
        self.generate_attributes(&field.attrs);
        let mut s = String::new();
        s.append("pub ");
        s.append(field.name.as_str());
        s.append(": ");
        let t = self.type_to_string(&field.ty);
        s.append(t.as_str());
        s.append(",");
        self.write(s.as_str());
        proof {
            lemma_render_concat(st0, attributes_doc(field.attrs@), text(s@));
        }
        self.write_lines(&field.docs);
        proof {
            lemma_render_concat(
                st0,
                attributes_doc(field.attrs@) + text(s@),
                doc_lines(views(field.docs@)),
            );
        }
    }

    /// Writes named fields in order.
    fn generate_fields(&mut self, fields: &Vec<Field>)
        requires
            old(self).wf(),
        ensures
            final(self).wf(),
            final(self)@ == render(old(self)@, fields_doc(fields@)),
    {
        let ghost st0 = self@;
        let ghost ds = field_docs(fields@);
        for i in 0..fields.len()
            invariant
                self.wf(),
                ds == field_docs(fields@),
                self@ == render(st0, crate::printed::flat(ds.take(i as int))),
        {
            proof {
                lemma_flat_take(ds, i as int);
            }
            self.generate_field(&fields[i]);
            proof {
                lemma_render_concat(st0, crate::printed::flat(ds.take(i as int)), ds[i as int]);
            }
        }
        assert(ds.take(ds.len() as int) =~= ds);
    }

    /// Writes a struct definition.
    fn generate_struct(&mut self, s: &StructDef)
        requires
            old(self).wf(),
        ensures
            final(self).wf(),
            final(self)@ == render(old(self)@, struct_doc(*s)),
    {
        let ghost st0 = self@;
        self.write_lines(&s.docs);
        let ghost mut acc = doc_lines(views(s.docs@));
        self.generate_derives(&s.derives);
        proof {
            lemma_render_concat(st0, acc, derives_doc(views(s.derives@)));
            acc = acc + derives_doc(views(s.derives@));
        }
        let tuple_struct = is_tuple(&s.fields);
        let mut head = self.visibility(&s.vis);
        head.append("struct ");
        head.append(s.name.as_str());
        head.append(" ");
        self.write(head.as_str());
        proof {
            lemma_render_concat(st0, acc, text(head@));
            acc = acc + text(head@);
        }
        self.generate_generics(&s.generics);
        proof {
            lemma_render_concat(st0, acc, generics_doc(s.generics@));
            acc = acc + generics_doc(s.generics@);
        }
        if tuple_struct {
            self.write("(");
            let types = self.field_type_strings(&s.fields);
            self.write_separated(&types, ", ");
            self.writeln(");");
            self.writeln("");
            proof {
                let d1 = text("("@);
                let d2 = sep_texts(field_type_texts(s.fields@), ", "@);
                lemma_render_concat(st0, acc, d1);
                lemma_render_concat(st0, acc + d1, d2);
                lemma_render_concat(st0, acc + d1 + d2, line(");"@));
                lemma_render_concat(st0, acc + d1 + d2 + line(");"@), line(""@));
                assert(acc + d1 + d2 + line(");"@) + line(""@) =~= struct_doc(*s));
            }
            return ;
        }
        self.writeln(" {");
        self.indent();
        self.generate_fields(&s.fields);
        self.dedent();
        self.writeln("}");
        self.writeln("");
        proof {
            let d1 = line(" {"@);
            let d2 = seq![Piece::Indent];
            let d3 = fields_doc(s.fields@);
            let d4 = seq![Piece::Dedent];
            lemma_render_concat(st0, acc, d1);
            lemma_render_concat(st0, acc + d1, d2);
            lemma_render_concat(st0, acc + d1 + d2, d3);
            lemma_render_concat(st0, acc + d1 + d2 + d3, d4);
            lemma_render_concat(st0, acc + d1 + d2 + d3 + d4, line("}"@));
            lemma_render_concat(st0, acc + d1 + d2 + d3 + d4 + line("}"@), line(""@));
            assert(acc + d1 + d2 + d3 + d4 + line("}"@) + line(""@) =~= struct_doc(*s));
        }
    }

    /// Writes a union definition.
    fn generate_union(&mut self, u: &UnionDef)
        requires
            old(self).wf(),
        ensures
            final(self).wf(),
            final(self)@ == render(old(self)@, union_doc(*u)),
    {
        let ghost st0 = self@;
        self.write_lines(&u.docs);
        let ghost mut acc = doc_lines(views(u.docs@));
        self.generate_derives(&u.derives);
        proof {
            lemma_render_concat(st0, acc, derives_doc(views(u.derives@)));
            acc = acc + derives_doc(views(u.derives@));
        }
        let mut head = self.visibility(&u.vis);
        head.append("union ");
        head.append(u.name.as_str());
        head.append(" ");
        self.write(head.as_str());
        proof {
            lemma_render_concat(st0, acc, text(head@));
            acc = acc + text(head@);
        }
        self.generate_header_generics(&u.generics);
        self.indent();
        self.generate_fields(&u.fields);
        self.dedent();
        self.writeln("}");
        self.writeln("");
        proof {
            let d1 = header_generics_doc(u.generics@);
            let d2 = seq![Piece::Indent];
            let d3 = fields_doc(u.fields@);
            let d4 = seq![Piece::Dedent];
            lemma_render_concat(st0, acc, d1);
            lemma_render_concat(st0, acc + d1, d2);
            lemma_render_concat(st0, acc + d1 + d2, d3);
            lemma_render_concat(st0, acc + d1 + d2 + d3, d4);
            lemma_render_concat(st0, acc + d1 + d2 + d3 + d4, line("}"@));
            lemma_render_concat(st0, acc + d1 + d2 + d3 + d4 + line("}"@), line(""@));
            assert(acc + d1 + d2 + d3 + d4 + line("}"@) + line(""@) =~= union_doc(*u));
        }
    }

    /// Writes an enum variant.
    fn generate_variant(&mut self, v: &Variant)
        requires
            old(self).wf(),
        ensures
            final(self).wf(),
            final(self)@ == render(old(self)@, variant_doc(*v)),
    {
        let ghost st0 = self@;
        self.write_lines(&v.docs);
        let ghost mut acc = doc_lines(views(v.docs@));
        self.write(v.name.as_str());
        proof {
            lemma_render_concat(st0, acc, text(v.name@));
            acc = acc + text(v.name@);
        }
        if let Some(types) = &v.data {
            self.write("(");
            let texts = self.type_strings(types);
            self.write_separated(&texts, ", ");
            self.write(")");
            proof {
                let d1 = text("("@);
                let d2 = sep_texts(type_texts(types@), ", "@);
                lemma_render_concat(st0, acc, d1);
                lemma_render_concat(st0, acc + d1, d2);
                lemma_render_concat(st0, acc + d1 + d2, text(")"@));
                assert(acc + d1 + d2 + text(")"@) =~= acc + (d1 + d2 + text(")"@)));
                acc = acc + (d1 + d2 + text(")"@));
            }
        } else {
            assert(acc + seq![] =~= acc);
        }
        self.writeln(",");
        proof {
            lemma_render_concat(st0, acc, line(","@));
            assert(acc + line(","@) =~= variant_doc(*v));
        }
    }

    /// Writes an enum definition.
    fn generate_enum(&mut self, e: &EnumDef)
        requires
            old(self).wf(),
        ensures
            final(self).wf(),
            final(self)@ == render(old(self)@, enum_doc(*e)),
    {
        let ghost st0 = self@;
        self.write_lines(&e.docs);
        let ghost mut acc = doc_lines(views(e.docs@));
        self.generate_derives(&e.derives);
        proof {
            lemma_render_concat(st0, acc, derives_doc(views(e.derives@)));
            acc = acc + derives_doc(views(e.derives@));
        }
        let mut head = self.visibility(&e.vis);
        head.append("enum ");
        head.append(e.name.as_str());
        head.append(" ");
        self.write(head.as_str());
        proof {
            lemma_render_concat(st0, acc, text(head@));
            acc = acc + text(head@);
        }
        self.generate_header_generics(&e.generics);
        proof {
            lemma_render_concat(st0, acc, header_generics_doc(e.generics@));
            acc = acc + header_generics_doc(e.generics@);
        }
        self.indent();
        proof {
            lemma_render_concat(st0, acc, seq![Piece::Indent]);
            acc = acc + seq![Piece::Indent];
        }
        let ghost ds = variant_docs(e.variants@);
        let ghost before = acc;
        for i in 0..e.variants.len()
            invariant
                self.wf(),
                ds == variant_docs(e.variants@),
                self@ == render(st0, before + crate::printed::flat(ds.take(i as int))),
        {
            proof {
                lemma_flat_take(ds, i as int);
            }
            self.generate_variant(&e.variants[i]);
            proof {
                lemma_render_concat(st0, before + crate::printed::flat(ds.take(i as int)), ds[i as int]);
                assert(before + crate::printed::flat(ds.take(i as int)) + ds[i as int] =~= before
                    + crate::printed::flat(ds.take(i + 1)));
            }
        }
        assert(ds.take(ds.len() as int) =~= ds);
        self.dedent();
        self.writeln("}");
        self.writeln("");
        proof {
            let a = before + crate::printed::flat(ds);
            lemma_render_concat(st0, a, seq![Piece::Dedent]);
            lemma_render_concat(st0, a + seq![Piece::Dedent], line("}"@));
            lemma_render_concat(st0, a + seq![Piece::Dedent] + line("}"@), line(""@));
            assert(a + seq![Piece::Dedent] + line("}"@) + line(""@) =~= enum_doc(*e));
        }
    }
}

/// The single nested `if` expression an `else` branch is made of, if it is one.
fn else_if_expr(eb: &Block) -> (res: Option<&Expr>)
    ensures
        res is Some <==> is_else_if(*eb),
        res matches Some(inner) ==> eb.expr == Some(Box::new(*inner)),
{
    if eb.stmts.len() == 0 {
        match &eb.expr {
            Some(inner) => match &**inner {
                Expr::If { .. } => Some(&**inner),
                _ => None,
            },
            None => None,
        }
    } else {
        None
    }
}

/// The position of a precedence level from loosest to tightest.
fn level(p: Precedence) -> (res: u8)
    ensures
        res == rank(p),
{
    match p {
        Precedence::Unknown => 0,
        Precedence::Assign => 1,
        Precedence::LogicalOr => 2,
        Precedence::LogicalAnd => 3,
        Precedence::Compare => 4,
        Precedence::BitOr => 5,
        Precedence::BitXor => 6,
        Precedence::BitAnd => 7,
        Precedence::Shift => 8,
        Precedence::Add => 9,
        Precedence::Multiply => 10,
        Precedence::Cast => 11,
        Precedence::Unary => 12,
        Precedence::Postfix => 13,
        Precedence::Atom => 14,
    }
}

/// The precedence of a binary operator.
fn binary_precedence(op: &str) -> (res: Precedence)
    ensures
        res == binary_prec(op@),
{
    if str_eq(op, "||") {
        Precedence::LogicalOr
    } else if str_eq(op, "&&") {
        Precedence::LogicalAnd
    } else if str_eq(op, "==") || str_eq(op, "!=") || str_eq(op, "<") || str_eq(op, "<=")
        || str_eq(op, ">") || str_eq(op, ">=") {
        Precedence::Compare
    } else if str_eq(op, "|") {
        Precedence::BitOr
    } else if str_eq(op, "^") {
        Precedence::BitXor
    } else if str_eq(op, "&") {
        Precedence::BitAnd
    } else if str_eq(op, "<<") || str_eq(op, ">>") {
        Precedence::Shift
    } else if str_eq(op, "+") || str_eq(op, "-") {
        Precedence::Add
    } else if str_eq(op, "*") || str_eq(op, "/") || str_eq(op, "%") {
        Precedence::Multiply
    } else {
        Precedence::Unknown
    }
}

/// The precedence of an expression as a whole.
fn expr_precedence(expr: &Expr) -> (res: Precedence)
    ensures
        res == expr_prec(*expr),
{
    match expr {
        Expr::BinaryOp(_, op, _) => binary_precedence(op.as_str()),
        Expr::Assign(_, _) => Precedence::Assign,
        Expr::Cast(_, _) => Precedence::Cast,
        Expr::UnaryOp(_, _) | Expr::Reference(_, _, _) => Precedence::Unary,
        Expr::Call(_, _) | Expr::MethodCall(_, _, _) | Expr::Index(_, _) | Expr::Await(_) =>
            Precedence::Postfix,
        Expr::Path(_, PathType::Member) => Precedence::Postfix,
        Expr::Ident(_) | Expr::Literal(_) | Expr::Path(_, PathType::Namespace) | Expr::Array(_)
        | Expr::Tuple(_) | Expr::Macro(_) | Expr::Parenthesized(_) => Precedence::Atom,
        _ => Precedence::Unknown,
    }
}

/// Whether the fields make a tuple struct: there are some and none is named.
fn is_tuple(fields: &Vec<Field>) -> (res: bool)
    ensures
        res == is_tuple_struct(fields@),
{
    if fields.len() == 0 {
        return false;
    }
    for i in 0..fields.len()
        invariant
            forall|j: int| 0 <= j < i ==> #[trigger] fields@[j].name@.len() == 0,
    {
        if !fields[i].name.as_str().is_empty() {
            return false;
        }
    }
    true
}

impl RustCodeGenerator {
    /// Whether `expr`, standing in `context`, is printed inside parentheses.
    fn needs_parentheses(&self, expr: &Expr, context: ExprContext) -> (res: bool)
        ensures
            res == needs_parens(*expr, context),
    {
        if context == ExprContext::Root {
            return false;
        }
        let child_prec = expr_precedence(expr);
        if child_prec == Precedence::Unknown {
            return true;
        }
        match context {
            ExprContext::Root => false,
            ExprContext::BinaryLeft(parent_prec) => {
                if parent_prec == Precedence::Unknown {
                    return child_prec != Precedence::Atom;
                }
                if parent_prec == Precedence::Compare && child_prec == Precedence::Compare {
                    return true;
                }
                level(child_prec) < level(parent_prec)
            },
            ExprContext::BinaryRight(parent_prec) => {
                if parent_prec == Precedence::Unknown {
                    return child_prec != Precedence::Atom;
                }
                if parent_prec == Precedence::Compare && child_prec == Precedence::Compare {
                    return true;
                }
                level(child_prec) <= level(parent_prec)
            },
            ExprContext::AssignLeft => level(child_prec) <= level(Precedence::Assign),
            ExprContext::AssignRight => level(child_prec) < level(Precedence::Assign),
            ExprContext::UnaryOperand => level(child_prec) < level(Precedence::Unary),
            ExprContext::CastOperand => level(child_prec) < level(Precedence::Cast),
            ExprContext::Postfix(kind) => {
                // `a.f()` is always parsed as a method call in Rust.
                // If the tree says "call the value stored in field `f`",
                // the field expression must be grouped as `(a.f)()`.
                if kind == PostfixKind::Call {
                    if let Expr::Path(path, PathType::Member) = expr {
                        if path.len() > 1 {
                            return true;
                        }
                    }
                }
                level(child_prec) < level(Precedence::Postfix)
            },
        }
    }
}

impl RustCodeGenerator {
    /// Writes a closure parameter.
    fn generate_closure_param(&mut self, param: &ClosureParam)
        requires
            old(self).wf(),
        ensures
            final(self).wf(),
            final(self)@ == render(old(self)@, closure_param_doc(*param)),
    {
        let ghost st0 = self@;
        self.write(param.pattern.as_str());
        if let Some(ty) = &param.ty {
            self.write(": ");
            proof {
                lemma_render_concat(st0, text(param.pattern@), text(": "@));
            }
            let t = self.type_to_string(ty);
            self.write(t.as_str());
            proof {
                lemma_render_concat(st0, text(param.pattern@) + text(": "@), text(t@));
                assert(text(param.pattern@) + text(": "@) + text(t@) =~= closure_param_doc(*param));
            }
        } else {
            assert(text(param.pattern@) =~= closure_param_doc(*param));
        }
    }

    /// Writes closure parameters separated by `", "`.
    fn generate_closure_params(&mut self, params: &Vec<ClosureParam>)
        requires
            old(self).wf(),
        ensures
            final(self).wf(),
            final(self)@ == render(old(self)@, closure_params_doc(params@)),
    {
        let ghost st0 = self@;
        let ghost ds = closure_param_docs(params@);
        for i in 0..params.len()
            invariant
                self.wf(),
                ds == closure_param_docs(params@),
                self@ == render(st0, sep_docs(ds.take(i as int), text(", "@))),
        {
            proof {
                lemma_sep_docs_take(ds, text(", "@), i as int);
            }
            let ghost acc1 = sep_docs(ds.take(i as int), text(", "@));
            if i > 0 {
                self.write(", ");
                proof {
                    lemma_render_concat(st0, acc1, text(", "@));
                }
            }
            let ghost acc2 = acc1 + (if i > 0 {
                text(", "@)
            } else {
                seq![]
            });
            assert(i == 0 ==> acc2 =~= acc1);
            self.generate_closure_param(&params[i]);
            proof {
                lemma_render_concat(st0, acc2, ds[i as int]);
            }
        }
        assert(ds.take(ds.len() as int) =~= ds);
    }

    /// Writes the comment line that starts a match arm with the given pattern, if any.
    fn generate_arm_comment(&mut self, pattern: &String)
        requires
            old(self).wf(),
        ensures
            final(self).wf(),
            final(self)@ == render(old(self)@, arm_comment_doc(pattern@)),
    {
        if starts_with(pattern.as_str(), "Ok(") {
            self.writeln("// Message received \u{2192} call handler function");
        } else if contains(pattern.as_str(), "TryRecvError::Empty") {
            self.writeln("// No message; do not block, skip directly");
        } else if contains(pattern.as_str(), "TryRecvError::Disconnected") {
            self.writeln("// Channel has been closed");
        }
    }

    /// Writes an expression standing in `context`, in parentheses when it needs them.
    fn generate_expr_in(&mut self, expr: &Expr, context: ExprContext)
        requires
            old(self).wf(),
        ensures
            final(self).wf(),
            final(self)@ == render(old(self)@, expr_doc(*expr, context)),
        decreases expr, 2nat,
    {
        let ghost st0 = self@;
        let parenthesized = self.needs_parentheses(expr, context);
        proof {
            assert(expr_doc(*expr, context) == paren_wrap(
                needs_parens(*expr, context),
                expr_doc(*expr, ExprContext::Root),
            ));
        }
        if parenthesized {
            self.write("(");
        }
        let ghost mid = self@;
        self.generate_expr_body(expr);
        if parenthesized {
            self.write(")");
            proof {
                let inner = expr_doc(*expr, ExprContext::Root);
                lemma_render_concat(st0, text("("@), inner);
                lemma_render_concat(st0, text("("@) + inner, text(")"@));
            }
        }
    }

    /// Writes an expression without the parentheses its position may call for.
    #[verifier::rlimit(50)]
    fn generate_expr_body(&mut self, expr: &Expr)
        requires
            old(self).wf(),
        ensures
            final(self).wf(),
            final(self)@ == render(old(self)@, expr_doc(*expr, ExprContext::Root)),
        decreases expr, 1nat,
    {
        let ghost st0 = self@;
        let ghost whole = expr_doc(*expr, ExprContext::Root);
        match expr {
            Expr::Ident(id) => self.write(id.as_str()),
            Expr::Macro(source) => self.write(source.as_str()),
            Expr::Path(path, path_type) => {
                let separator: &str = match path_type {
                    PathType::Namespace => "::",
                    PathType::Member => ".",
                };
                self.write_separated(path, separator);
            },
            Expr::Literal(lit) => self.generate_literal(lit),
            Expr::Array(items) => {
                self.write("[");
                self.generate_exprs(items);
                self.write("]");
                proof {
                    let d1 = text("["@);
                    let d2 = exprs_doc(items@);
                    lemma_render_concat(st0, d1, d2);
                    lemma_render_concat(st0, d1 + d2, text("]"@));
                }
            },
            Expr::Tuple(items) => {
                self.write("(");
                self.generate_exprs(items);
                let ghost mut acc = text("("@) + exprs_doc(items@);
                proof {
                    lemma_render_concat(st0, text("("@), exprs_doc(items@));
                }
                if items.len() == 1 {
                    self.write(",");
                    proof {
                        lemma_render_concat(st0, acc, text(","@));
                        acc = acc + text(","@);
                    }
                }
                self.write(")");
                proof {
                    lemma_render_concat(st0, acc, text(")"@));
                    assert(acc + text(")"@) =~= whole);
                }
            },
            Expr::Call(callee, args) => {
                self.generate_expr_in(callee, ExprContext::Postfix(PostfixKind::Call));
                self.write("(");
                self.generate_exprs(args);
                self.write(")");
                proof {
                    let d1 = expr_doc(**callee, ExprContext::Postfix(PostfixKind::Call));
                    let d2 = text("("@);
                    let d3 = exprs_doc(args@);
                    lemma_render_concat(st0, d1, d2);
                    lemma_render_concat(st0, d1 + d2, d3);
                    lemma_render_concat(st0, d1 + d2 + d3, text(")"@));
                }
            },
            Expr::MethodCall(receiver, method, args) => {
                self.generate_expr_in(receiver, ExprContext::Postfix(PostfixKind::MethodCall));
                let ghost mut acc = expr_doc(**receiver, ExprContext::Postfix(PostfixKind::MethodCall));
                if !method.as_str().is_empty() {
                    let mut m = String::new();
                    m.append(".");
                    m.append(method.as_str());
                    self.write(m.as_str());
                    proof {
                        lemma_render_concat(st0, acc, text(m@));
                        acc = acc + text(m@);
                    }
                }
                self.write("(");
                proof {
                    lemma_render_concat(st0, acc, text("("@));
                    acc = acc + text("("@);
                }
                self.generate_exprs(args);
                proof {
                    lemma_render_concat(st0, acc, exprs_doc(args@));
                    acc = acc + exprs_doc(args@);
                }
                self.write(")");
                proof {
                    lemma_render_concat(st0, acc, text(")"@));
                    assert(acc + text(")"@) =~= whole);
                }
            },
            Expr::Block(block) => self.generate_braced("{", block),
            Expr::Loop(block) => self.generate_braced("loop {", block),
            Expr::While { condition, body } => {
                self.write("while ");
                self.generate_expr(condition);
                self.generate_braced(" {", body);
                proof {
                    let d1 = text("while "@);
                    let d2 = expr_doc(**condition, ExprContext::Root);
                    lemma_render_concat(st0, d1, d2);
                    lemma_render_concat(st0, d1 + d2, crate::printed::braced(" {"@, block_doc(*body)));
                }
            },
            Expr::For { pattern, iter, body } => {
                self.write("for ");
                self.write(pattern.as_str());
                self.write(" in ");
                self.generate_expr(iter);
                self.generate_braced(" {", body);
                proof {
                    let d1 = text("for "@);
                    let d2 = text(pattern@);
                    let d3 = text(" in "@);
                    let d4 = expr_doc(**iter, ExprContext::Root);
                    lemma_render_concat(st0, d1, d2);
                    lemma_render_concat(st0, d1 + d2, d3);
                    lemma_render_concat(st0, d1 + d2 + d3, d4);
                    lemma_render_concat(st0, d1 + d2 + d3 + d4, crate::printed::braced(" {"@, block_doc(*body)));
                }
            },
            Expr::Await(inner) => {
                self.generate_expr_in(inner, ExprContext::Postfix(PostfixKind::Await));
                self.write(".await");
                proof {
                    lemma_render_concat(st0, expr_doc(**inner, ExprContext::Postfix(PostfixKind::Await)), text(".await"@));
                }
            },
            Expr::BuilderChain(methods) => {
                self.writeln("thread::Builder::new()");
                let ghost head = line("thread::Builder::new()"@);
                for i in 0..methods.len()
                    invariant
                        self.wf(),
                        *expr == Expr::BuilderChain(*methods),
                        head == line("thread::Builder::new()"@),
                        self@ == render(st0, head + builder_doc(methods@.take(i as int))),
                {
                    proof {
                        assert(methods@.take(i + 1).drop_last() =~= methods@.take(i as int));
                        assert(decreases_to!(*expr => (*expr)->BuilderChain_0));
                        assert(decreases_to!(*methods => methods@));
                        assert(decreases_to!(methods@ => methods@[i as int]));
                        lemma_render_concat(st0, head + builder_doc(methods@.take(i as int)), builder_method_doc(methods@[i as int]));
                        assert(head + builder_doc(methods@.take(i as int)) + builder_method_doc(methods@[i as int])
                            =~= head + builder_doc(methods@.take(i + 1)));
                    }
                    self.generate_builder_method(&methods[i]);
                }
                assert(methods@.take(methods@.len() as int) =~= methods@);
            },
            Expr::Closure(params, body, is_move) => {
                let ghost mut acc = seq![];
                if *is_move {
                    self.write("move ");
                    proof {
                        acc = text("move "@);
                    }
                }
                self.write("|");
                proof {
                    lemma_render_concat(st0, acc, text("|"@));
                    acc = acc + text("|"@);
                }
                self.generate_closure_params(params);
                proof {
                    lemma_render_concat(st0, acc, closure_params_doc(params@));
                    acc = acc + closure_params_doc(params@);
                }
                self.write("| ");
                proof {
                    lemma_render_concat(st0, acc, text("| "@));
                    acc = acc + text("| "@);
                }
                self.generate_closure_body(body);
                proof {
                    let d = closure_body_wrap(**body is Block, expr_doc(**body, ExprContext::Root));
                    lemma_render_concat(st0, acc, d);
                    assert(acc + d =~= whole);
                }
            },
            Expr::TypedClosure(params, return_type, body, is_move) => {
                let ghost mut acc = seq![];
                if *is_move {
                    self.write("move ");
                    proof {
                        acc = text("move "@);
                    }
                }
                self.write("|");
                proof {
                    lemma_render_concat(st0, acc, text("|"@));
                    acc = acc + text("|"@);
                }
                self.generate_closure_params(params);
                proof {
                    lemma_render_concat(st0, acc, closure_params_doc(params@));
                    acc = acc + closure_params_doc(params@);
                }
                self.write("| -> ");
                proof {
                    lemma_render_concat(st0, acc, text("| -> "@));
                    acc = acc + text("| -> "@);
                }
                let t = self.type_to_string(return_type);
                self.write(t.as_str());
                proof {
                    lemma_render_concat(st0, acc, text(t@));
                    acc = acc + text(t@);
                }
                self.write(" ");
                proof {
                    lemma_render_concat(st0, acc, text(" "@));
                    acc = acc + text(" "@);
                }
                self.generate_closure_body(body);
                proof {
                    let d = closure_body_wrap(**body is Block, expr_doc(**body, ExprContext::Root));
                    lemma_render_concat(st0, acc, d);
                    assert(acc + d =~= whole);
                }
            },
            Expr::Match { expr: scrutinee, arms } => {
                self.write("match ");
                self.generate_expr(scrutinee);
                self.writeln(" {");
                self.indent();
                let ghost before = text("match "@) + expr_doc(**scrutinee, ExprContext::Root)
                    + line(" {"@) + seq![Piece::Indent];
                proof {
                    let d1 = text("match "@);
                    let d2 = expr_doc(**scrutinee, ExprContext::Root);
                    lemma_render_concat(st0, d1, d2);
                    lemma_render_concat(st0, d1 + d2, line(" {"@));
                    lemma_render_concat(st0, d1 + d2 + line(" {"@), seq![Piece::Indent]);
                }
                for i in 0..arms.len()
                    invariant
                        self.wf(),
                        *expr == (Expr::Match { expr: *scrutinee, arms: *arms }),
                        self@ == render(st0, before + arms_doc(arms@.take(i as int))),
                {
                    proof {
                        assert(arms@.take(i + 1).drop_last() =~= arms@.take(i as int));
                        assert(decreases_to!(*expr => (*expr)->arms));
                        assert(decreases_to!(*arms => arms@));
                        assert(decreases_to!(arms@ => arms@[i as int]));
                        lemma_render_concat(st0, before + arms_doc(arms@.take(i as int)), arm_doc(arms@[i as int]));
                        assert(before + arms_doc(arms@.take(i as int)) + arm_doc(arms@[i as int])
                            =~= before + arms_doc(arms@.take(i + 1)));
                    }
                    self.generate_match_arm(&arms[i]);
                }
                assert(arms@.take(arms@.len() as int) =~= arms@);
                self.dedent();
                self.write("}");
                proof {
                    let a = before + arms_doc(arms@);
                    lemma_render_concat(st0, a, seq![Piece::Dedent]);
                    lemma_render_concat(st0, a + seq![Piece::Dedent], text("}"@));
                    assert(a + seq![Piece::Dedent] + text("}"@) =~= whole);
                }
            },
            Expr::Unsafe(block) => {
                self.write("unsafe ");
                if block.stmts.len() == 1 && block.expr.is_none() {
                    self.write("{ ");
                    self.generate_block(block);
                    self.write(" }");
                    proof {
                        let d1 = text("unsafe "@);
                        let d2 = text("{ "@);
                        let d3 = block_doc(**block);
                        lemma_render_concat(st0, d1, d2);
                        lemma_render_concat(st0, d1 + d2, d3);
                        lemma_render_concat(st0, d1 + d2 + d3, text(" }"@));
                        assert(d1 + d2 + d3 + text(" }"@) =~= whole);
                    }
                } else {
                    self.generate_braced("{", block);
                    proof {
                        lemma_render_concat(st0, text("unsafe "@), crate::printed::braced("{"@, block_doc(**block)));
                    }
                }
            },
            Expr::If { condition, then_branch, else_branch } => {
                self.write("if ");
                self.generate_expr(condition);
                self.write(" ");
                self.generate_braced("{", then_branch);
                let ghost acc = text("if "@) + expr_doc(**condition, ExprContext::Root) + text(" "@)
                    + crate::printed::braced("{"@, block_doc(*then_branch));
                proof {
                    let d1 = text("if "@);
                    let d2 = expr_doc(**condition, ExprContext::Root);
                    lemma_render_concat(st0, d1, d2);
                    lemma_render_concat(st0, d1 + d2, text(" "@));
                    lemma_render_concat(st0, d1 + d2 + text(" "@), crate::printed::braced("{"@, block_doc(*then_branch)));
                }
                match else_branch {
                    None => {
                        assert(acc =~= whole);
                    },
                    Some(eb) => {
                        self.write(" else ");
                        proof {
                            lemma_render_concat(st0, acc, text(" else "@));
                        }
                        let ghost acc2 = acc + text(" else "@);
                        let nested = else_if_expr(eb);
                        match nested {
                            Some(inner) => {
                                proof {
                                    assert(decreases_to!(expr => *inner));
                                }
                                self.generate_expr(inner);
                                proof {
                                    lemma_render_concat(st0, acc2, expr_doc(*inner, ExprContext::Root));
                                    assert(acc2 + expr_doc(*inner, ExprContext::Root) =~= whole);
                                }
                            },
                            None => {
                                self.generate_braced("{", eb);
                                proof {
                                    lemma_render_concat(st0, acc2, crate::printed::braced("{"@, block_doc(*eb)));
                                    assert(acc2 + crate::printed::braced("{"@, block_doc(*eb)) =~= whole);
                                }
                            },
                        }
                    },
                }
            },
            Expr::IfLet { pattern, value, then_branch, else_branch } => {
                self.write("if let ");
                self.write(pattern.as_str());
                self.write(" = ");
                self.generate_expr(value);
                self.write(" {\n");
                self.indent();
                self.generate_block(then_branch);
                self.dedent();
                self.write("}");
                let ghost acc = text("if let "@) + text(pattern@) + text(" = "@) + expr_doc(**value, ExprContext::Root)
                    + text(" {\n"@) + seq![Piece::Indent] + block_doc(*then_branch) + seq![Piece::Dedent] + text("}"@);
                proof {
                    let d1 = text("if let "@);
                    let d2 = text(pattern@);
                    let d3 = text(" = "@);
                    let d4 = expr_doc(**value, ExprContext::Root);
                    let d5 = text(" {\n"@);
                    let d6 = seq![Piece::Indent];
                    let d7 = block_doc(*then_branch);
                    let d8 = seq![Piece::Dedent];
                    lemma_render_concat(st0, d1, d2);
                    lemma_render_concat(st0, d1 + d2, d3);
                    lemma_render_concat(st0, d1 + d2 + d3, d4);
                    lemma_render_concat(st0, d1 + d2 + d3 + d4, d5);
                    lemma_render_concat(st0, d1 + d2 + d3 + d4 + d5, d6);
                    lemma_render_concat(st0, d1 + d2 + d3 + d4 + d5 + d6, d7);
                    lemma_render_concat(st0, d1 + d2 + d3 + d4 + d5 + d6 + d7, d8);
                    lemma_render_concat(st0, d1 + d2 + d3 + d4 + d5 + d6 + d7 + d8, text("}"@));
                }
                match else_branch {
                    None => {
                        assert(acc =~= whole);
                    },
                    Some(eb) => {
                        self.write(" else {\n");
                        self.indent();
                        self.generate_block(eb);
                        self.dedent();
                        self.write("}");
                        proof {
                            let e1 = text(" else {\n"@);
                            let e2 = seq![Piece::Indent];
                            let e3 = block_doc(*eb);
                            let e4 = seq![Piece::Dedent];
                            lemma_render_concat(st0, acc, e1);
                            lemma_render_concat(st0, acc + e1, e2);
                            lemma_render_concat(st0, acc + e1 + e2, e3);
                            lemma_render_concat(st0, acc + e1 + e2 + e3, e4);
                            lemma_render_concat(st0, acc + e1 + e2 + e3 + e4, text("}"@));
                            assert(acc + e1 + e2 + e3 + e4 + text("}"@) =~= whole);
                        }
                    },
                }
            },
            Expr::Reference(inner, is_reference, mutable) => {
                let ghost mut acc = seq![];
                if *is_reference {
                    self.write("&");
                    proof {
                        acc = text("&"@);
                    }
                }
                if *mutable {
                    self.write("mut ");
                    proof {
                        lemma_render_concat(st0, acc, text("mut "@));
                        acc = acc + text("mut "@);
                    }
                }
                self.generate_expr_in(inner, ExprContext::UnaryOperand);
                proof {
                    lemma_render_concat(st0, acc, expr_doc(**inner, ExprContext::UnaryOperand));
                    assert(acc + expr_doc(**inner, ExprContext::UnaryOperand) =~= whole);
                }
            },
            Expr::BinaryOp(left, op, right) => {
                let prec = binary_precedence(op.as_str());
                self.generate_expr_in(left, ExprContext::BinaryLeft(prec));
                self.write(" ");
                self.write(op.as_str());
                self.write(" ");
                self.generate_expr_in(right, ExprContext::BinaryRight(prec));
                proof {
                    let d1 = expr_doc(**left, ExprContext::BinaryLeft(prec));
                    let d5 = expr_doc(**right, ExprContext::BinaryRight(prec));
                    lemma_render_concat(st0, d1, text(" "@));
                    lemma_render_concat(st0, d1 + text(" "@), text(op@));
                    lemma_render_concat(st0, d1 + text(" "@) + text(op@), text(" "@));
                    lemma_render_concat(st0, d1 + text(" "@) + text(op@) + text(" "@), d5);
                }
            },
            Expr::Assign(left, right) => {
                self.generate_expr_in(left, ExprContext::AssignLeft);
                self.write(" = ");
                self.generate_expr_in(right, ExprContext::AssignRight);
                proof {
                    let d1 = expr_doc(**left, ExprContext::AssignLeft);
                    lemma_render_concat(st0, d1, text(" = "@));
                    lemma_render_concat(st0, d1 + text(" = "@), expr_doc(**right, ExprContext::AssignRight));
                }
            },
            Expr::UnaryOp(op, inner) => {
                self.write(op.as_str());
                self.generate_expr_in(inner, ExprContext::UnaryOperand);
                proof {
                    lemma_render_concat(st0, text(op@), expr_doc(**inner, ExprContext::UnaryOperand));
                }
            },
            Expr::Index(array, index) => {
                self.generate_expr_in(array, ExprContext::Postfix(PostfixKind::Index));
                self.write("[");
                self.generate_expr(index);
                self.write("]");
                proof {
                    let d1 = expr_doc(**array, ExprContext::Postfix(PostfixKind::Index));
                    let d3 = expr_doc(**index, ExprContext::Root);
                    lemma_render_concat(st0, d1, text("["@));
                    lemma_render_concat(st0, d1 + text("["@), d3);
                    lemma_render_concat(st0, d1 + text("["@) + d3, text("]"@));
                }
            },
            Expr::Parenthesized(inner) => {
                self.write("(");
                self.generate_expr(inner);
                self.write(")");
                proof {
                    let d2 = expr_doc(**inner, ExprContext::Root);
                    lemma_render_concat(st0, text("("@), d2);
                    lemma_render_concat(st0, text("("@) + d2, text(")"@));
                }
            },
            Expr::Cast(inner, ty) => {
                self.generate_expr_in(inner, ExprContext::CastOperand);
                self.write(" as ");
                let t = self.type_to_string(ty);
                self.write(t.as_str());
                proof {
                    let d1 = expr_doc(**inner, ExprContext::CastOperand);
                    lemma_render_concat(st0, d1, text(" as "@));
                    lemma_render_concat(st0, d1 + text(" as "@), text(t@));
                }
            },
        }
    }

    /// Writes a closure body: a block as it is, any other expression inside `{ ` and ` }`.
    fn generate_closure_body(&mut self, body: &Expr)
        requires
            old(self).wf(),
        ensures
            final(self).wf(),
            final(self)@ == render(old(self)@, closure_body_wrap(*body is Block, expr_doc(*body, ExprContext::Root))),
        decreases body, 4nat,
    {
        match body {
            Expr::Block(_) => self.generate_expr(body),
            _ => {
                let ghost st0 = self@;
                self.write("{ ");
                self.generate_expr(body);
                self.write(" }");
                proof {
                    let d2 = expr_doc(*body, ExprContext::Root);
                    lemma_render_concat(st0, text("{ "@), d2);
                    lemma_render_concat(st0, text("{ "@) + d2, text(" }"@));
                }
            },
        }
    }

    /// Writes an expression at the root position.
    fn generate_expr(&mut self, expr: &Expr)
        requires
            old(self).wf(),
        ensures
            final(self).wf(),
            final(self)@ == render(old(self)@, expr_doc(*expr, ExprContext::Root)),
        decreases expr, 3nat,
    {
        self.generate_expr_in(expr, ExprContext::Root);
    }

    /// Writes expressions at the root position separated by `", "`.
    fn generate_exprs(&mut self, es: &Vec<Expr>)
        requires
            old(self).wf(),
        ensures
            final(self).wf(),
            final(self)@ == render(old(self)@, exprs_doc(es@)),
        decreases es, 0nat,
    {
        let ghost st0 = self@;
        for i in 0..es.len()
            invariant
                self.wf(),
                self@ == render(st0, exprs_doc(es@.take(i as int))),
        {
            proof {
                assert(es@.take(i + 1).drop_last() =~= es@.take(i as int));
                assert(decreases_to!(es => es@[i as int]));
            }
            let ghost acc1 = exprs_doc(es@.take(i as int));
            if i > 0 {
                self.write(", ");
                proof {
                    lemma_render_concat(st0, acc1, text(", "@));
                }
            }
            let ghost acc2 = if i > 0 {
                acc1 + text(", "@)
            } else {
                acc1
            };
            self.generate_expr_in(&es[i], ExprContext::Root);
            proof {
                lemma_render_concat(st0, acc2, expr_doc(es@[i as int], ExprContext::Root));
                if i == 0 {
                    assert(exprs_doc(es@.take(1)) == expr_doc(es@[0], ExprContext::Root));
                    assert(acc2 =~= seq![]);
                    assert(acc2 + expr_doc(es@[0], ExprContext::Root) =~= exprs_doc(es@.take(1)));
                }
            }
        }
        assert(es@.take(es@.len() as int) =~= es@);
    }

    /// Writes a block body: its statements, then its final expression on a line of its own.
    fn generate_block(&mut self, block: &Block)
        requires
            old(self).wf(),
        ensures
            final(self).wf(),
            final(self)@ == render(old(self)@, block_doc(*block)),
        decreases block, 0nat,
    {
        let ghost st0 = self@;
        for i in 0..block.stmts.len()
            invariant
                self.wf(),
                self@ == render(st0, stmts_doc(block.stmts@.take(i as int))),
        {
            proof {
                assert(block.stmts@.take(i + 1).drop_last() =~= block.stmts@.take(i as int));
                assert(decreases_to!(block => block.stmts@[i as int]));
                lemma_render_concat(st0, stmts_doc(block.stmts@.take(i as int)), stmt_doc(block.stmts@[i as int]));
            }
            self.generate_statement(&block.stmts[i]);
        }
        assert(block.stmts@.take(block.stmts@.len() as int) =~= block.stmts@);
        let ghost acc = stmts_doc(block.stmts@);
        if let Some(expr) = &block.expr {
            self.generate_expr(expr);
            proof {
                lemma_render_concat(st0, acc, expr_doc(**expr, ExprContext::Root));
            }
            self.writeln("");
            proof {
                lemma_render_concat(st0, acc + expr_doc(**expr, ExprContext::Root), line(""@));
                assert(acc + expr_doc(**expr, ExprContext::Root) + line(""@) =~= block_doc(*block));
            }
        } else {
            assert(acc =~= block_doc(*block));
        }
    }

    /// Writes a braced block: `open` ends the line, the body is indented, `}` closes it.
    fn generate_braced(&mut self, open: &str, block: &Block)
        requires
            old(self).wf(),
        ensures
            final(self).wf(),
            final(self)@ == render(old(self)@, crate::printed::braced(open@, block_doc(*block))),
        decreases block, 1nat,
    {
        let ghost st0 = self@;
        self.writeln(open);
        self.indent();
        self.generate_block(block);
        self.dedent();
        self.write("}");
        proof {
            let d1 = line(open@);
            let d2 = seq![Piece::Indent];
            let d3 = block_doc(*block);
            let d4 = seq![Piece::Dedent];
            lemma_render_concat(st0, d1, d2);
            lemma_render_concat(st0, d1 + d2, d3);
            lemma_render_concat(st0, d1 + d2 + d3, d4);
            lemma_render_concat(st0, d1 + d2 + d3 + d4, text("}"@));
        }
    }

    /// Writes a `let` binding.
    fn generate_let(&mut self, ls: &LetStmt)
        requires
            old(self).wf(),
        ensures
            final(self).wf(),
            final(self)@ == render(old(self)@, stmt_doc(Statement::Let(*ls))),
        decreases ls, 0nat,
    {
        let ghost st0 = self@;
        let mut head = String::new();
        if ls.ifmut {
            head.append("let mut");
        } else {
            head.append("let");
        }
        head.append(" ");
        head.append(ls.name.as_str());
        self.write(head.as_str());
        let ghost mut acc = text(head@);
        if let Some(ty) = &ls.ty {
            let mut t = String::new();
            t.append(": ");
            let ts = self.type_to_string(ty);
            t.append(ts.as_str());
            self.write(t.as_str());
            proof {
                lemma_render_concat(st0, acc, text(t@));
                acc = acc + text(t@);
            }
        }
        if let Some(init) = &ls.init {
            self.write(" = ");
            proof {
                lemma_render_concat(st0, acc, text(" = "@));
                acc = acc + text(" = "@);
            }
            self.generate_expr(init);
            proof {
                lemma_render_concat(st0, acc, expr_doc(*init, ExprContext::Root));
                acc = acc + expr_doc(*init, ExprContext::Root);
            }
        }
        self.writeln(";");
        proof {
            lemma_render_concat(st0, acc, line(";"@));
            assert(acc + line(";"@) =~= stmt_doc(Statement::Let(*ls)));
        }
    }

    /// Writes a `return` statement.
    fn generate_return(&mut self, value: &Option<Expr>)
        requires
            old(self).wf(),
        ensures
            final(self).wf(),
            final(self)@ == render(old(self)@, stmt_doc(Statement::Return(*value))),
        decreases value, 0nat,
    {
        let ghost st0 = self@;
        self.write("return");
        let ghost mut acc = text("return"@);
        if let Some(expr) = value {
            self.write(" ");
            proof {
                lemma_render_concat(st0, acc, text(" "@));
                acc = acc + text(" "@);
            }
            self.generate_expr(expr);
            proof {
                lemma_render_concat(st0, acc, expr_doc(*expr, ExprContext::Root));
                acc = acc + expr_doc(*expr, ExprContext::Root);
            }
        }
        self.writeln(";");
        proof {
            lemma_render_concat(st0, acc, line(";"@));
            assert(acc + line(";"@) =~= stmt_doc(Statement::Return(*value)));
        }
    }

    /// Writes one statement.
    fn generate_statement(&mut self, stmt: &Statement)
        requires
            old(self).wf(),
        ensures
            final(self).wf(),
            final(self)@ == render(old(self)@, stmt_doc(*stmt)),
        decreases stmt, 0nat,
    {
        let ghost st0 = self@;
        match stmt {
            Statement::Let(ls) => self.generate_let(ls),
            Statement::Expr(expr) => {
                self.generate_expr(expr);
                self.writeln(";");
                proof {
                    lemma_render_concat(st0, expr_doc(*expr, ExprContext::Root), line(";"@));
                }
            },
            Statement::Item(item) => self.generate_item(item),
            Statement::Return(value) => self.generate_return(value),
            Statement::Continue => self.writeln("continue;"),
            Statement::Break => self.writeln("break;"),
            Statement::Comment(comment) => {
                let mut c = String::new();
                c.append("// ");
                c.append(comment.as_str());
                self.writeln(c.as_str());
            },
        }
    }

    /// Writes one method of a thread builder chain.
    fn generate_builder_method(&mut self, method: &BuilderMethod)
        requires
            old(self).wf(),
        ensures
            final(self).wf(),
            final(self)@ == render(old(self)@, builder_method_doc(*method)),
        decreases method, 0nat,
    {
        let ghost st0 = self@;
        match method {
            BuilderMethod::Named(name) => {
                let mut l = String::new();
                l.append("    .name(");
                l.append(name.as_str());
                l.append(")");
                self.writeln(l.as_str());
            },
            BuilderMethod::Spawn { closure, move_kw } => {
                self.write("    .spawn(");
                let ghost mut acc = text("    .spawn("@);
                if *move_kw {
                    self.write("move ");
                    proof {
                        lemma_render_concat(st0, acc, text("move "@));
                        acc = acc + text("move "@);
                    }
                }
                self.generate_expr(closure);
                proof {
                    lemma_render_concat(st0, acc, expr_doc(**closure, ExprContext::Root));
                    acc = acc + expr_doc(**closure, ExprContext::Root);
                }
                self.write(")");
                proof {
                    lemma_render_concat(st0, acc, text(")"@));
                    assert(acc + text(")"@) =~= builder_method_doc(*method));
                }
            },
        }
    }

    /// Writes one match arm.
    fn generate_match_arm(&mut self, arm: &MatchArm)
        requires
            old(self).wf(),
        ensures
            final(self).wf(),
            final(self)@ == render(old(self)@, arm_doc(*arm)),
        decreases arm, 0nat,
    {
        let ghost st0 = self@;
        self.write(arm.pattern.as_str());
        let ghost mut acc = text(arm.pattern@);
        if let Some(guard) = &arm.guard {
            self.write(" if ");
            proof {
                lemma_render_concat(st0, acc, text(" if "@));
                acc = acc + text(" if "@);
            }
            self.generate_expr(guard);
            proof {
                lemma_render_concat(st0, acc, expr_doc(*guard, ExprContext::Root));
                acc = acc + expr_doc(*guard, ExprContext::Root);
            }
        }
        self.writeln(" => {");
        proof {
            lemma_render_concat(st0, acc, line(" => {"@));
            acc = acc + line(" => {"@);
        }
        self.indent();
        proof {
            lemma_render_concat(st0, acc, seq![Piece::Indent]);
            acc = acc + seq![Piece::Indent];
        }
        self.generate_arm_comment(&arm.pattern);
        proof {
            lemma_render_concat(st0, acc, arm_comment_doc(arm.pattern@));
            acc = acc + arm_comment_doc(arm.pattern@);
        }
        self.generate_match_arm_body(&arm.body);
        proof {
            lemma_render_concat(st0, acc, block_doc(arm.body));
            acc = acc + block_doc(arm.body);
        }
        self.dedent();
        proof {
            lemma_render_concat(st0, acc, seq![Piece::Dedent]);
            acc = acc + seq![Piece::Dedent];
        }
        self.writeln("},");
        proof {
            lemma_render_concat(st0, acc, line("},"@));
            assert(acc + line("},"@) =~= arm_doc(*arm));
        }
    }

    /// Writes the body of a match arm; its final expression takes no semicolon.
    fn generate_match_arm_body(&mut self, block: &Block)
        requires
            old(self).wf(),
        ensures
            final(self).wf(),
            final(self)@ == render(old(self)@, block_doc(*block)),
        decreases block, 1nat,
    {
        self.generate_block(block);
    }
}

impl RustCodeGenerator {
    /// Writes one item.
    fn generate_item(&mut self, item: &Item)
        requires
            old(self).wf(),
        ensures
            final(self).wf(),
            final(self)@ == render(old(self)@, item_doc(*item)),
        decreases item, 0nat,
    {
        match item {
            Item::Raw(raw) => self.generate_raw(raw.as_str()),
            Item::Struct(s) => self.generate_struct(s),
            Item::Enum(e) => self.generate_enum(e),
            Item::Union(u) => self.generate_union(u),
            Item::Function(f) => self.generate_function(f),
            Item::Impl(i) => self.generate_impl(i),
            Item::Const(c) => self.generate_const(c),
            Item::TypeAlias(t) => self.generate_type_alias(t),
            Item::Use(u) => self.generate_use(u),
            Item::Mod(m) => self.generate_nested_module(m),
            Item::LazyStatic(l) => self.generate_lazy_static(l),
        }
    }

    /// Writes raw source text line by line.
    fn generate_raw(&mut self, raw: &str)
        requires
            old(self).wf(),
        ensures
            final(self).wf(),
            final(self)@ == render(old(self)@, doc_lines(crate::text::lines(raw@))),
    {
        let ls = lines_of(raw);
        self.write_lines(&ls);
    }

    /// Writes items in order, with a blank line after a group of `use` declarations.
    fn generate_items(&mut self, items: &Vec<Item>)
        requires
            old(self).wf(),
        ensures
            final(self).wf(),
            final(self)@ == render(old(self)@, items_doc(items@, None)),
        decreases items, 0nat,
    {
        let ghost st0 = self@;
        for idx in 0..items.len()
            invariant
                self.wf(),
                self@ == render(
                    st0,
                    items_doc(
                        items@.take(idx as int),
                        if idx < items@.len() {
                            Some(items@[idx as int])
                        } else {
                            None
                        },
                    ),
                ),
        {
            let ghost next: Option<Item> = if idx + 1 < items@.len() {
                Some(items@[idx + 1])
            } else {
                None
            };
            proof {
                assert(items@.take(idx + 1).drop_last() =~= items@.take(idx as int));
                assert(decreases_to!(items => items@[idx as int]));
            }
            let ghost acc = items_doc(items@.take(idx as int), Some(items@[idx as int]));
            self.generate_item(&items[idx]);
            proof {
                lemma_render_concat(st0, acc, item_doc(items@[idx as int]));
            }
            let next_item = if idx + 1 < items.len() {
                Some(&items[idx + 1])
            } else {
                None
            };
            if should_separate_after_use(&items[idx], next_item) {
                self.writeln("");
                proof {
                    lemma_render_concat(st0, acc + item_doc(items@[idx as int]), line(""@));
                }
            }
            proof {
                assert(items_doc(items@.take(idx + 1), next) =~= acc + item_doc(items@[idx as int])
                    + if separate_after_use(items@[idx as int], next) {
                    line(""@)
                } else {
                    seq![]
                });
            }
        }
        assert(items@.take(items@.len() as int) =~= items@);
    }

    /// Writes a module declared inside another.
    fn generate_nested_module(&mut self, m: &RustModule)
        requires
            old(self).wf(),
        ensures
            final(self).wf(),
            final(self)@ == render(old(self)@, nested_module_doc(*m)),
        decreases m, 0nat,
    {
        let ghost st0 = self@;
        let ghost mut acc: Seq<Piece> = seq![];
        match &m.vis {
            Visibility::Public => {
                self.write("pub ");
                proof {
                    acc = text("pub "@);
                }
            },
            Visibility::Private => (),
            Visibility::Restricted(paths) => {
                let mut v = String::new();
                v.append("pub(in ");
                let p = join_strings(paths, "::");
                v.append(p.as_str());
                v.append(" ) ");
                self.write(v.as_str());
                proof {
                    acc = text(v@);
                }
            },
            Visibility::Inherited => (),
        }
        let mut head = String::new();
        head.append("mod ");
        head.append(m.name.as_str());
        head.append(" {");
        self.writeln(head.as_str());
        proof {
            lemma_render_concat(st0, acc, line(head@));
            acc = acc + line(head@);
        }
        self.indent();
        proof {
            lemma_render_concat(st0, acc, seq![Piece::Indent]);
            acc = acc + seq![Piece::Indent];
        }
        self.write_lines(&m.docs);
        proof {
            lemma_render_concat(st0, acc, doc_lines(views(m.docs@)));
            acc = acc + doc_lines(views(m.docs@));
        }
        self.generate_attributes(&m.attrs);
        proof {
            lemma_render_concat(st0, acc, attributes_doc(m.attrs@));
            acc = acc + attributes_doc(m.attrs@);
        }
        self.generate_items(&m.items);
        proof {
            lemma_render_concat(st0, acc, items_doc(m.items@, None));
            acc = acc + items_doc(m.items@, None);
        }
        self.dedent();
        proof {
            lemma_render_concat(st0, acc, seq![Piece::Dedent]);
            acc = acc + seq![Piece::Dedent];
        }
        self.writeln("}");
        proof {
            lemma_render_concat(st0, acc, line("}"@));
            acc = acc + line("}"@);
        }
        self.writeln("");
        proof {
            lemma_render_concat(st0, acc, line(""@));
            assert(acc + line(""@) =~= nested_module_doc(*m));
        }
    }

    /// Writes a constant definition.
    fn generate_const(&mut self, c: &ConstDef)
        requires
            old(self).wf(),
        ensures
            final(self).wf(),
            final(self)@ == render(old(self)@, const_doc(*c)),
        decreases c, 0nat,
    {
        let ghost st0 = self@;
        self.write_lines(&c.docs);
        let mut head = self.visibility(&c.vis);
        head.append("const ");
        head.append(c.name.as_str());
        head.append(": ");
        let t = self.type_to_string(&c.ty);
        head.append(t.as_str());
        head.append(" = ");
        self.write(head.as_str());
        self.generate_expr(&c.value);
        self.writeln(";");
        self.writeln("");
        proof {
            let d1 = doc_lines(views(c.docs@));
            let d2 = text(head@);
            let d3 = expr_doc(c.value, ExprContext::Root);
            lemma_render_concat(st0, d1, d2);
            lemma_render_concat(st0, d1 + d2, d3);
            lemma_render_concat(st0, d1 + d2 + d3, line(";"@));
            lemma_render_concat(st0, d1 + d2 + d3 + line(";"@), line(""@));
        }
    }

    /// Writes a `lazy_static!` definition.
    fn generate_lazy_static(&mut self, l: &LazyStaticDef)
        requires
            old(self).wf(),
        ensures
            final(self).wf(),
            final(self)@ == render(old(self)@, lazy_static_doc(*l)),
        decreases l, 0nat,
    {
        let ghost st0 = self@;
        self.write_lines(&l.docs);
        let ghost mut acc = doc_lines(views(l.docs@));
        self.writeln("lazy_static! {");
        proof {
            lemma_render_concat(st0, acc, line("lazy_static! {"@));
            acc = acc + line("lazy_static! {"@);
        }
        self.indent();
        proof {
            lemma_render_concat(st0, acc, seq![Piece::Indent]);
            acc = acc + seq![Piece::Indent];
        }
        self.write("static ref ");
        proof {
            lemma_render_concat(st0, acc, text("static ref "@));
            acc = acc + text("static ref "@);
        }
        self.write(l.name.as_str());
        proof {
            lemma_render_concat(st0, acc, text(l.name@));
            acc = acc + text(l.name@);
        }
        self.write(": ");
        proof {
            lemma_render_concat(st0, acc, text(": "@));
            acc = acc + text(": "@);
        }
        let t = self.type_to_string(&l.ty);
        self.write(t.as_str());
        proof {
            lemma_render_concat(st0, acc, text(t@));
            acc = acc + text(t@);
        }
        self.write(" = ");
        proof {
            lemma_render_concat(st0, acc, text(" = "@));
            acc = acc + text(" = "@);
        }
        self.writeln("{");
        proof {
            lemma_render_concat(st0, acc, line("{"@));
            acc = acc + line("{"@);
        }
        self.indent();
        proof {
            lemma_render_concat(st0, acc, seq![Piece::Indent]);
            acc = acc + seq![Piece::Indent];
        }
        self.generate_block(&l.init);
        proof {
            lemma_render_concat(st0, acc, block_doc(l.init));
            acc = acc + block_doc(l.init);
        }
        self.dedent();
        proof {
            lemma_render_concat(st0, acc, seq![Piece::Dedent]);
            acc = acc + seq![Piece::Dedent];
        }
        self.write("}");
        proof {
            lemma_render_concat(st0, acc, text("}"@));
            acc = acc + text("}"@);
        }
        self.write(";");
        proof {
            lemma_render_concat(st0, acc, text(";"@));
            acc = acc + text(";"@);
        }
        self.writeln("");
        proof {
            lemma_render_concat(st0, acc, line(""@));
            acc = acc + line(""@);
        }
        self.dedent();
        proof {
            lemma_render_concat(st0, acc, seq![Piece::Dedent]);
            acc = acc + seq![Piece::Dedent];
        }
        self.writeln("}");
        proof {
            lemma_render_concat(st0, acc, line("}"@));
            acc = acc + line("}"@);
        }
        self.writeln("");
        proof {
            lemma_render_concat(st0, acc, line(""@));
            assert(acc + line(""@) =~= lazy_static_doc(*l));
        }
    }

    /// Writes an implementation block.
    #[verifier::spinoff_prover]
    #[verifier::rlimit(50)]
    fn generate_impl(&mut self, i: &ImplBlock)
        requires
            old(self).wf(),
        ensures
            final(self).wf(),
            final(self)@ == render(old(self)@, impl_doc(*i)),
        decreases i, 0nat,
    {
        let ghost st0 = self@;
        self.write("impl");
        let ghost mut acc = text("impl"@);
        self.generate_generics(&i.generics);
        proof {
            lemma_render_concat(st0, acc, generics_doc(i.generics@));
            acc = acc + generics_doc(i.generics@);
        }
        if let Some(trait_ty) = &i.trait_impl {
            let mut t = String::new();
            t.append(" ");
            let ts = self.type_to_string(trait_ty);
            t.append(ts.as_str());
            t.append(" for");
            self.write(t.as_str());
            proof {
                lemma_render_concat(st0, acc, text(t@));
                acc = acc + text(t@);
            }
        }
        let mut target = String::new();
        target.append(" ");
        let ts = self.type_to_string(&i.target);
        target.append(ts.as_str());
        target.append(" ");
        self.write(target.as_str());
        proof {
            lemma_render_concat(st0, acc, text(target@));
            acc = acc + text(target@);
        }
        self.writeln("{");
        proof {
            lemma_render_concat(st0, acc, line("{"@));
            acc = acc + line("{"@);
        }
        self.indent();
        proof {
            lemma_render_concat(st0, acc, seq![Piece::Indent]);
            acc = acc + seq![Piece::Indent];
        }
        let ghost before = acc;
        for k in 0..i.items.len()
            invariant
                self.wf(),
                self@ == render(st0, before + impl_items_doc(i.items@.take(k as int))),
        {
            proof {
                assert(i.items@.take(k + 1).drop_last() =~= i.items@.take(k as int));
                assert(decreases_to!(*i => i.items));
                assert(decreases_to!(i.items => i.items@));
                assert(decreases_to!(i.items@ => i.items@[k as int]));
                lemma_render_concat(st0, before + impl_items_doc(i.items@.take(k as int)), impl_item_doc(i.items@[k as int]));
                assert(before + impl_items_doc(i.items@.take(k as int)) + impl_item_doc(i.items@[k as int])
                    =~= before + impl_items_doc(i.items@.take(k + 1)));
            }
            self.generate_impl_item(&i.items[k]);
        }
        assert(i.items@.take(i.items@.len() as int) =~= i.items@);
        self.dedent();
        self.writeln("}");
        self.writeln("");
        proof {
            let a = before + impl_items_doc(i.items@);
            lemma_render_concat(st0, a, seq![Piece::Dedent]);
            lemma_render_concat(st0, a + seq![Piece::Dedent], line("}"@));
            lemma_render_concat(st0, a + seq![Piece::Dedent] + line("}"@), line(""@));
            assert(a + seq![Piece::Dedent] + line("}"@) + line(""@) =~= impl_doc(*i));
        }
    }

    /// Writes one item of an implementation block.
    fn generate_impl_item(&mut self, item: &ImplItem)
        requires
            old(self).wf(),
        ensures
            final(self).wf(),
            final(self)@ == render(old(self)@, impl_item_doc(*item)),
        decreases item, 0nat,
    {
        match item {
            ImplItem::Method(m) => self.generate_function(m),
            ImplItem::AssocConst(name, ty, expr) => {
                let ghost st0 = self@;
                let mut head = String::new();
                head.append("const ");
                head.append(name.as_str());
                head.append(": ");
                let t = self.type_to_string(ty);
                head.append(t.as_str());
                head.append(" = ");
                self.writeln(head.as_str());
                self.generate_expr(expr);
                self.writeln(";");
                proof {
                    let d2 = expr_doc(*expr, ExprContext::Root);
                    lemma_render_concat(st0, line(head@), d2);
                    lemma_render_concat(st0, line(head@) + d2, line(";"@));
                }
            },
            ImplItem::AssocType(name, ty) => {
                let mut l = String::new();
                l.append("type ");
                l.append(name.as_str());
                l.append(" = ");
                let t = self.type_to_string(ty);
                l.append(t.as_str());
                l.append(";");
                self.writeln(l.as_str());
            },
        }
    }

    /// Writes a function definition.
    fn generate_function(&mut self, f: &FunctionDef)
        requires
            old(self).wf(),
        ensures
            final(self).wf(),
            final(self)@ == render(old(self)@, function_doc(*f)),
        decreases f, 0nat,
    {
        let ghost st0 = self@;
        self.write_lines(&f.docs);
        self.generate_attributes(&f.attrs);
        let ghost pre = doc_lines(views(f.docs@)) + attributes_doc(f.attrs@);
        proof {
            lemma_render_concat(st0, doc_lines(views(f.docs@)), attributes_doc(f.attrs@));
        }
        self.generate_signature(f);
        proof {
            lemma_render_concat(st0, pre, signature_doc(*f));
        }
        self.indent();
        self.generate_block(&f.body);
        self.dedent();
        self.writeln("}");
        self.writeln("");
        proof {
            let a = pre + signature_doc(*f);
            lemma_render_concat(st0, a, seq![Piece::Indent]);
            lemma_render_concat(st0, a + seq![Piece::Indent], block_doc(f.body));
            lemma_render_concat(st0, a + seq![Piece::Indent] + block_doc(f.body), seq![Piece::Dedent]);
            lemma_render_concat(st0, a + seq![Piece::Indent] + block_doc(f.body) + seq![Piece::Dedent], line("}"@));
            lemma_render_concat(st0, a + seq![Piece::Indent] + block_doc(f.body) + seq![Piece::Dedent] + line("}"@), line(""@));
        }
    }
}

impl RustCodeGenerator {
    /// Writes a function signature up to its opening brace.
    fn generate_signature(&mut self, f: &FunctionDef)
        requires
            old(self).wf(),
        ensures
            final(self).wf(),
            final(self)@ == render(old(self)@, signature_doc(*f)),
    {
        let ghost st0 = self@;
        let mut head = self.visibility(&f.vis);
        if f.asyncness {
            head.append("async ");
        } else {
            head.append("");
        }
        head.append("fn ");
        head.append(f.name.as_str());
        let g = self.generic_names_to_string(&f.generics);
        head.append(g.as_str());
        assert(head@ == fn_head(*f));
        let mut params_and_return = String::new();
        params_and_return.append("(");
        let ps = self.params_to_string(&f.params);
        params_and_return.append(ps.as_str());
        params_and_return.append(") -> ");
        let r = self.type_to_string(&f.return_type);
        params_and_return.append(r.as_str());
        assert(params_and_return@ == fn_params_and_return(*f));
        let mut signature = head.clone();
        signature.append(params_and_return.as_str());
        let has_where_clause = any_bounded(&f.generics);
        let fits = signature.as_str().as_bytes().len() <= MAX_FUNCTION_SIGNATURE_WIDTH;
        assert(fits == (byte_len(signature@) <= MAX_FUNCTION_SIGNATURE_WIDTH));
        if has_where_clause {
            let ghost mut acc: Seq<Piece> = seq![];
            if fits {
                self.writeln(signature.as_str());
                proof {
                    acc = line(signature@);
                }
            } else {
                self.writeln(head.as_str());
                self.indent();
                self.writeln(params_and_return.as_str());
                self.dedent();
                proof {
                    let d1 = line(head@);
                    let d2 = seq![Piece::Indent];
                    let d3 = line(params_and_return@);
                    lemma_render_concat(st0, d1, d2);
                    lemma_render_concat(st0, d1 + d2, d3);
                    lemma_render_concat(st0, d1 + d2 + d3, seq![Piece::Dedent]);
                    acc = d1 + d2 + d3 + seq![Piece::Dedent];
                }
            }
            self.generate_where_clause(&f.generics);
            self.writeln("{");
            proof {
                lemma_render_concat(st0, acc, where_doc(f.generics@));
                lemma_render_concat(st0, acc + where_doc(f.generics@), line("{"@));
            }
        } else if fits {
            let mut l = signature.clone();
            l.append(" {");
            self.writeln(l.as_str());
        } else {
            self.writeln(head.as_str());
            self.indent();
            let mut l = params_and_return.clone();
            l.append(" {");
            self.writeln(l.as_str());
            self.dedent();
            proof {
                let d1 = line(head@);
                let d2 = seq![Piece::Indent];
                let d3 = line(l@);
                lemma_render_concat(st0, d1, d2);
                lemma_render_concat(st0, d1 + d2, d3);
                lemma_render_concat(st0, d1 + d2 + d3, seq![Piece::Dedent]);
            }
        }
    }

    /// Writes the `where` clause of a function: its bounded generic parameters sorted by name.
    fn generate_where_clause(&mut self, generics: &Vec<GenericParam>)
        requires
            old(self).wf(),
        ensures
            final(self).wf(),
            final(self)@ == render(old(self)@, where_doc(generics@)),
    {
        let order = sorted_bounded_indices(generics);
        let ghost b = sort_by_name(bounded(generics@));
        assert(b == pick(generics@, order@));
        if order.len() == 0 {
            return ;
        }
        let ghost st0 = self@;
        self.writeln("where");
        self.indent();
        let ghost before = line("where"@) + seq![Piece::Indent];
        proof {
            lemma_render_concat(st0, line("where"@), seq![Piece::Indent]);
        }
        let n = order.len();
        let ghost ds = Seq::new(b.len(), |i: int| line(where_line(b[i], i + 1 == b.len())));
        for i in 0..n
            invariant
                self.wf(),
                n == order@.len(),
                b == pick(generics@, order@),
                forall|k: int| 0 <= k < order@.len() ==> #[trigger] order@[k] < generics@.len(),
                ds == Seq::new(b.len(), |i: int| line(where_line(b[i], i + 1 == b.len()))),
                self@ == render(st0, before + crate::printed::flat(ds.take(i as int))),
        {
            let g = &generics[order[i]];
            let mut l = g.name.clone();
            l.append(": ");
            let bs = ordered_bounds_to_string(&g.bounds);
            l.append(bs.as_str());
            if i + 1 < n {
                l.append(",");
            } else {
                l.append("");
            }
            assert(l@ == where_line(b[i as int], i + 1 == b.len()));
            self.writeln(l.as_str());
            proof {
                lemma_flat_take(ds, i as int);
                lemma_render_concat(st0, before + crate::printed::flat(ds.take(i as int)), line(l@));
                assert(before + crate::printed::flat(ds.take(i as int)) + line(l@) =~= before
                    + crate::printed::flat(ds.take(i + 1)));
            }
        }
        assert(ds.take(n as int) =~= ds);
        self.dedent();
        proof {
            lemma_render_concat(st0, before + crate::printed::flat(ds), seq![Piece::Dedent]);
            assert(before + crate::printed::flat(ds) + seq![Piece::Dedent] =~= where_doc(generics@));
        }
    }
}

/// The elements of `gs` at the positions `order`, in that order.
pub open spec fn pick(gs: Seq<GenericParam>, order: Seq<usize>) -> Seq<GenericParam> {
    order.map_values(|k: usize| gs[k as int])
}

/// The positions of the bounded generic parameters, ordered as a stable sort by name orders them.
fn sorted_bounded_indices(generics: &Vec<GenericParam>) -> (res: Vec<usize>)
    ensures
        pick(generics@, res@) == sort_by_name(bounded(generics@)),
        forall|k: int| 0 <= k < res@.len() ==> #[trigger] res@[k] < generics@.len(),
{
    let mut sorted: Vec<usize> = Vec::new();
    for i in 0..generics.len()
        invariant
            forall|k: int| 0 <= k < sorted@.len() ==> #[trigger] sorted@[k] < i,
            pick(generics@, sorted@) == sort_by_name(
                bounded(generics@.take(i as int)),
            ),
    {
        proof {
            reveal(Seq::filter);
            assert(generics@.take(i + 1).drop_last() =~= generics@.take(i as int));
        }
        let ghost filtered = bounded(generics@.take(i as int));
        if generics[i].bounds.len() > 0 {
            let ghost s = pick(generics@, sorted@);
            let g = &generics[i];
            let mut j = sorted.len();
            while j > 0 && str_lt(g.name.as_str(), generics[sorted[j - 1]].name.as_str())
                invariant
                    j <= sorted@.len(),
                    s == pick(generics@, sorted@),
                    forall|k: int| 0 <= k < sorted@.len() ==> #[trigger] sorted@[k] < i,
                    i < generics@.len(),
                    *g == generics@[i as int],
                    forall|k: int| j <= k < s.len() ==> crate::text::text_lt(g.name@, #[trigger] s[k].name@),
                decreases j,
            {
                j -= 1;
            }
            proof {
                lemma_insert_by_name_at(s, *g, j as int);
                assert(bounded(generics@.take(i + 1)) == filtered.push(*g));
                assert(filtered.push(*g).drop_last() =~= filtered);
            }
            sorted.insert(j, i);
            proof {
                assert(pick(generics@, sorted@) =~= s.take(j as int).push(*g) + s.skip(j as int));
            }
        } else {
            proof {
                assert(bounded(generics@.take(i + 1)) == filtered);
            }
        }
    }
    assert(generics@.take(generics@.len() as int) =~= generics@);
    sorted
}

/// Whether some generic parameter has bounds.
fn any_bounded(generics: &Vec<GenericParam>) -> (res: bool)
    ensures
        res == exists|i: int| 0 <= i < generics@.len() && has_bounds(#[trigger] generics@[i]),
{
    for i in 0..generics.len()
        invariant
            forall|k: int| 0 <= k < i ==> !has_bounds(#[trigger] generics@[k]),
    {
        if generics[i].bounds.len() > 0 {
            return true;
        }
    }
    false
}

/// The first segment of a `use` path.
fn use_root(use_stmt: &UseStatement) -> (res: Option<&str>)
    ensures
        res is Some <==> use_stmt.path@.len() > 0,
        res matches Some(r) ==> r@ == use_stmt.path@[0]@,
{
    if use_stmt.path.len() > 0 {
        Some(use_stmt.path[0].as_str())
    } else {
        None
    }
}

/// Whether a blank line follows `item` when `next` comes after it.
fn should_separate_after_use(item: &Item, next: Option<&Item>) -> (res: bool)
    ensures
        res == separate_after_use(
            *item,
            match next {
                Some(n) => Some(*n),
                None => None,
            },
        ),
{
    match (item, next) {
        (Item::Use(current), Some(Item::Use(next))) => {
            let a = use_root(current);
            let b = use_root(next);
            match (a, b) {
                (Some(x), Some(y)) => !str_eq(x, y),
                (None, None) => false,
                _ => true,
            }
        },
        (Item::Use(_), Some(_)) => true,
        _ => false,
    }
}

impl RustCodeGenerator {
    /// Prints a whole module: its docs and attributes, a blank line if it has
    /// either, then its items. The buffer is cleared first; the indentation level
    /// is kept.
    pub fn generate_module_code(&mut self, module: &RustModule) -> (res: String)
        requires
            old(self).wf(),
        ensures
            final(self).wf(),
            final(self)@ == render(
                GenView { text: seq![], indent: old(self)@.indent },
                module_doc(*module),
            ),
            res@ == final(self)@.text,
            old(self)@.indent + high(module_doc(*module)) <= usize::MAX ==> final(self)@.indent
                == old(self)@.indent,
    {
        self.buffer = String::new();
        self.line_start = true;
        let ghost st0 = self@;
        self.write_lines(&module.docs);
        self.generate_attributes(&module.attrs);
        let ghost mut acc = doc_lines(views(module.docs@)) + attributes_doc(module.attrs@);
        proof {
            lemma_render_concat(st0, doc_lines(views(module.docs@)), attributes_doc(module.attrs@));
        }
        if module.docs.len() > 0 || module.attrs.len() > 0 {
            self.writeln("");
            proof {
                lemma_render_concat(st0, acc, line(""@));
                acc = acc + line(""@);
            }
        }
        self.generate_items(&module.items);
        proof {
            lemma_render_concat(st0, acc, items_doc(module.items@, None));
            assert(acc + items_doc(module.items@, None) =~= module_doc(*module));
            if st0.indent + high(module_doc(*module)) <= usize::MAX {
                law_module_keeps_indentation(*module, st0);
            }
        }
        self.buffer.clone()
    }
}

} // verus!
