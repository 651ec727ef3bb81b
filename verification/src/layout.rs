//! The layout model of the code generator: printing a node emits a sequence of
//! pieces (text, line breaks, indentation changes), and rendering those pieces
//! into the output buffer follows the generator's indentation rule.
use vstd::prelude::*;

verus! {

/// One unit of output emitted by the printer.
pub enum Piece {
    /// Text written at the current position; at the start of a line it is
    /// preceded by the current indentation.
    Text(Seq<char>),
    /// A line break.
    Newline,
    /// One more level of indentation for the lines that follow (the level saturates at `usize::MAX`).
    Indent,
    /// One level less of indentation (never below zero).
    Dedent,
}

/// The observable state of a generator: the text produced so far and the
/// current indentation level.
pub struct GenView {
    pub text: Seq<char>,
    pub indent: nat,
}

/// Four spaces per indentation level.
pub open spec fn indentation(level: nat) -> Seq<char>
    decreases level,
{
    if level == 0 {
        seq![]
    } else {
        indentation((level - 1) as nat) + seq![' ', ' ', ' ', ' ']
    }
}

/// A buffer is at the start of a line when it is empty or ends with a line break.
pub open spec fn at_line_start(text: Seq<char>) -> bool {
    text.len() == 0 || text.last() == '\n'
}

/// The effect of one piece on the generator state.
pub open spec fn step(st: GenView, p: Piece) -> GenView {
    match p {
        Piece::Text(s) => GenView {
            text: if at_line_start(st.text) {
                st.text + indentation(st.indent) + s
            } else {
                st.text + s
            },
            indent: st.indent,
        },
        Piece::Newline => GenView { text: st.text.push('\n'), indent: st.indent },
        Piece::Indent => GenView {
            text: st.text,
            indent: if st.indent < usize::MAX {
                st.indent + 1
            } else {
                st.indent
            },
        },
        Piece::Dedent => GenView {
            text: st.text,
            indent: if st.indent > 0 {
                (st.indent - 1) as nat
            } else {
                0
            },
        },
    }
}

/// The state reached from `st` by emitting `ps` in order.
pub open spec fn render(st: GenView, ps: Seq<Piece>) -> GenView
    decreases ps.len(),
{
    if ps.len() == 0 {
        st
    } else {
        render(step(st, ps[0]), ps.drop_first())
    }
}

/// A single piece of text.
pub open spec fn text(s: Seq<char>) -> Seq<Piece> {
    seq![Piece::Text(s)]
}

/// A piece of text followed by a line break.
pub open spec fn line(s: Seq<char>) -> Seq<Piece> {
    seq![Piece::Text(s), Piece::Newline]
}

/// Emitting two sequences of pieces one after the other is emitting their concatenation.
pub proof fn lemma_render_concat(st: GenView, a: Seq<Piece>, b: Seq<Piece>)
    ensures
        render(st, a + b) == render(render(st, a), b),
    decreases a.len(),
{
    if a.len() == 0 {
        assert(a + b =~= b);
    } else {
        assert((a + b).drop_first() =~= a.drop_first() + b);
        lemma_render_concat(step(st, a[0]), a.drop_first(), b);
    }
}

/// Emitting one piece is one step.
pub proof fn lemma_render_one(st: GenView, p: Piece)
    ensures
        render(st, seq![p]) == step(st, p),
{
    assert(seq![p].drop_first() =~= Seq::<Piece>::empty());
    assert(render(step(st, p), Seq::<Piece>::empty()) == step(st, p));
    assert(seq![p][0] == p);
}

/// Emitting a text followed by a line break.
pub proof fn lemma_render_line(st: GenView, s: Seq<char>)
    ensures
        render(st, line(s)) == step(step(st, Piece::Text(s)), Piece::Newline),
{
    lemma_render_concat(st, seq![Piece::Text(s)], seq![Piece::Newline]);
    assert(seq![Piece::Text(s)] + seq![Piece::Newline] =~= line(s));
    lemma_render_one(st, Piece::Text(s));
    lemma_render_one(step(st, Piece::Text(s)), Piece::Newline);
}

/// The change of indentation level a piece asks for.
pub open spec fn delta(p: Piece) -> int {
    match p {
        Piece::Indent => 1,
        Piece::Dedent => -1,
        _ => 0,
    }
}

/// The net change of indentation level asked for by `ps`.
pub open spec fn net(ps: Seq<Piece>) -> int
    decreases ps.len(),
{
    if ps.len() == 0 {
        0
    } else {
        delta(ps[0]) + net(ps.drop_first())
    }
}

/// The lowest change of indentation level reached while emitting `ps` (at most 0).
pub open spec fn low(ps: Seq<Piece>) -> int
    decreases ps.len(),
{
    if ps.len() == 0 {
        0
    } else {
        let r = delta(ps[0]) + low(ps.drop_first());
        if r < 0 {
            r
        } else {
            0
        }
    }
}

/// The highest change of indentation level reached while emitting `ps` (at least 0).
pub open spec fn high(ps: Seq<Piece>) -> int
    decreases ps.len(),
{
    if ps.len() == 0 {
        0
    } else {
        let r = delta(ps[0]) + high(ps.drop_first());
        if r > 0 {
            r
        } else {
            0
        }
    }
}

/// Every `Dedent` of `ps` closes an earlier `Indent` of `ps`, and every `Indent` is closed.
pub open spec fn balanced(ps: Seq<Piece>) -> bool {
    net(ps) == 0 && low(ps) == 0
}

/// How the indentation changes of a concatenation follow from those of its parts.
pub broadcast proof fn lemma_nesting_concat(a: Seq<Piece>, b: Seq<Piece>)
    ensures
        #![trigger net(a + b)]
        #![trigger low(a + b)]
        #![trigger high(a + b)]
        net(a + b) == net(a) + net(b),
        low(a + b) == if low(a) < net(a) + low(b) {
            low(a)
        } else {
            net(a) + low(b)
        },
        high(a + b) == if high(a) > net(a) + high(b) {
            high(a)
        } else {
            net(a) + high(b)
        },
    decreases a.len(),
{
    if a.len() == 0 {
        assert(a + b =~= b);
    } else {
        assert((a + b).drop_first() =~= a.drop_first() + b);
        assert((a + b)[0] == a[0]);
        lemma_nesting_concat(a.drop_first(), b);
    }
}

/// A single piece.
pub broadcast proof fn lemma_nesting_one(p: Piece)
    ensures
        #![trigger net(seq![p])]
        #![trigger low(seq![p])]
        #![trigger high(seq![p])]
        net(seq![p]) == delta(p),
        low(seq![p]) == if delta(p) < 0 {
            delta(p)
        } else {
            0
        },
        high(seq![p]) == if delta(p) > 0 {
            delta(p)
        } else {
            0
        },
{
    let e = Seq::<Piece>::empty();
    assert(seq![p].drop_first() =~= e);
    assert(seq![p][0] == p);
    assert(net(e) == 0 && low(e) == 0 && high(e) == 0);
}

/// A text leaves the indentation alone.
pub broadcast proof fn lemma_text_balanced(s: Seq<char>)
    ensures
        #![trigger text(s)]
        net(text(s)) == 0,
        low(text(s)) == 0,
        high(text(s)) == 0,
{
    lemma_nesting_one(Piece::Text(s));
}

/// A line leaves the indentation alone.
pub broadcast proof fn lemma_line_balanced(s: Seq<char>)
    ensures
        #![trigger line(s)]
        net(line(s)) == 0,
        low(line(s)) == 0,
        high(line(s)) == 0,
{
    lemma_nesting_one(Piece::Text(s));
    lemma_nesting_one(Piece::Newline);
    lemma_nesting_concat(seq![Piece::Text(s)], seq![Piece::Newline]);
    assert(seq![Piece::Text(s)] + seq![Piece::Newline] =~= line(s));
}

/// Nothing leaves the indentation alone.
pub broadcast proof fn lemma_empty_balanced()
    ensures
        net(Seq::<Piece>::empty()) == 0,
        low(Seq::<Piece>::empty()) == 0,
        high(Seq::<Piece>::empty()) == 0,
{
}

/// Emitting `ps` from a level where it neither drops below zero nor rises above
/// `usize::MAX` changes the level by exactly its net change.
pub proof fn lemma_render_indent(st: GenView, ps: Seq<Piece>)
    requires
        st.indent + low(ps) >= 0,
        st.indent + high(ps) <= usize::MAX,
    ensures
        render(st, ps).indent == st.indent + net(ps),
    decreases ps.len(),
{
    if ps.len() > 0 {
        lemma_render_indent(step(st, ps[0]), ps.drop_first());
    }
}

} // verus!
