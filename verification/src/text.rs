//! Text utilities used by the code generator, each with its meaning on
//! sequences of characters.
use vstd::prelude::*;
use vstd::utf8::encode_utf8;

verus! {

/// The text of each string in `v`.
pub open spec fn views(v: Seq<String>) -> Seq<Seq<char>> {
    v.map_values(|s: String| s@)
}

/// `parts` joined by `sep`, as `[T]::join` does.
pub open spec fn join(parts: Seq<Seq<char>>, sep: Seq<char>) -> Seq<char>
    decreases parts.len(),
{
    if parts.len() == 0 {
        seq![]
    } else if parts.len() == 1 {
        parts[0]
    } else {
        join(parts.drop_last(), sep) + sep + parts.last()
    }
}

/// `s` starts with `prefix`.
pub open spec fn has_prefix(s: Seq<char>, prefix: Seq<char>) -> bool {
    prefix.len() <= s.len() && s.take(prefix.len() as int) == prefix
}

/// `needle` occurs somewhere in `s`.
pub open spec fn has_infix(s: Seq<char>, needle: Seq<char>) -> bool {
    exists|i: int|
        0 <= i && i + needle.len() <= s.len() && #[trigger] s.subrange(i, i + needle.len())
            == needle
}

/// The digit character for `d < 10`.
pub open spec fn digit_char(d: nat) -> char {
    (d + 48) as char
}

/// The decimal numeral of `n`, without leading zeros.
pub open spec fn decimal(n: nat) -> Seq<char>
    decreases n,
{
    if n < 10 {
        seq![digit_char(n)]
    } else {
        decimal(n / 10).push(digit_char(n % 10))
    }
}

/// The decimal numeral of `i`, with a leading `-` when it is negative.
pub open spec fn int_text(i: int) -> Seq<char> {
    if i < 0 {
        seq!['-'] + decimal((-i) as nat)
    } else {
        decimal(i as nat)
    }
}

/// Strict lexicographic order on byte strings: the order of `str` and `String`.
pub open spec fn bytes_lt(a: Seq<u8>, b: Seq<u8>) -> bool {
    exists|k: int|
        0 <= k <= a.len() && k <= b.len() && #[trigger] a.take(k) == b.take(k) && ((k < a.len()
            && k < b.len() && a[k] < b[k]) || (k == a.len() && k < b.len()))
}

/// The strict order of two strings, by their UTF-8 bytes.
pub open spec fn text_lt(a: Seq<char>, b: Seq<char>) -> bool {
    bytes_lt(encode_utf8(a), encode_utf8(b))
}

/// `s` split at its line breaks: always one more part than `s` has line breaks.
pub open spec fn segments(s: Seq<char>) -> Seq<Seq<char>>
    decreases s.len(),
{
    if s.len() == 0 {
        seq![seq![]]
    } else {
        let r = segments(s.drop_last());
        if s.last() == '\n' {
            r.push(seq![])
        } else {
            r.update(r.len() - 1, r.last().push(s.last()))
        }
    }
}

/// A line without the carriage return that ends it, if any.
pub open spec fn strip_cr(l: Seq<char>) -> Seq<char> {
    if l.len() > 0 && l.last() == '\r' {
        l.drop_last()
    } else {
        l
    }
}

/// The lines of `s`, as `str::lines` gives them: split at `\n`, a `\r` just
/// before a `\n` dropped, and no empty last line after a final `\n`.
pub open spec fn lines(s: Seq<char>) -> Seq<Seq<char>> {
    let segs = segments(s);
    Seq::new((segs.len() - 1) as nat, |i: int| strip_cr(segs[i])) + if segs.last().len() == 0 {
        Seq::<Seq<char>>::empty()
    } else {
        seq![segs.last()]
    }
}

proof fn lemma_segments_nonempty(s: Seq<char>)
    ensures
        segments(s).len() >= 1,
    decreases s.len(),
{
    if s.len() > 0 {
        lemma_segments_nonempty(s.drop_last());
    }
}

/// The characters of `s`, in order.
pub fn chars_of(s: &str) -> (res: Vec<char>)
    ensures
        res@ == s@,
{
    let mut res: Vec<char> = Vec::new();
    for c in it: s.chars()
        invariant
            res@ == it.seq().take(it.index() as int),
    {
        res.push(c);
    }
    res
}

/// Appends one character: `String::push`.
#[verifier::external_body]
pub fn push_char(s: &mut String, c: char)
    ensures
        final(s)@ == old(s)@.push(c),
{
    s.push(c);
}

/// A string holding exactly the characters `cs`.
pub fn string_from_chars(cs: &[char]) -> (res: String)
    ensures
        res@ == cs@,
{
    let mut res = String::new();
    for i in 0..cs.len()
        invariant
            res@ == cs@.take(i as int),
    {
        push_char(&mut res, cs[i]);
        assert(cs@.take(i + 1) =~= cs@.take(i as int).push(cs@[i as int]));
    }
    assert(cs@.take(cs@.len() as int) =~= cs@);
    res
}

/// Whether two strings hold the same text.
pub fn str_eq(a: &str, b: &str) -> (res: bool)
    ensures
        res == (a@ == b@),
{
    let ca = chars_of(a);
    let cb = chars_of(b);
    if ca.len() != cb.len() {
        return false;
    }
    for i in 0..ca.len()
        invariant
            ca@ == a@,
            cb@ == b@,
            ca@.len() == cb@.len(),
            forall|j: int| 0 <= j < i ==> ca@[j] == cb@[j],
    {
        if ca[i] != cb[i] {
            return false;
        }
    }
    assert(ca@ =~= cb@);
    true
}

/// Whether the last character of `s` is a line break.
pub fn ends_with_newline(s: &str) -> (res: bool)
    ensures
        res == (s@.len() > 0 && s@.last() == '\n'),
{
    let cs = chars_of(s);
    cs.len() > 0 && cs[cs.len() - 1] == '\n'
}

/// Whether `s` starts with `prefix`.
pub fn starts_with(s: &str, prefix: &str) -> (res: bool)
    ensures
        res == has_prefix(s@, prefix@),
{
    let cs = chars_of(s);
    let cp = chars_of(prefix);
    if cp.len() > cs.len() {
        return false;
    }
    for i in 0..cp.len()
        invariant
            cs@ == s@,
            cp@ == prefix@,
            cp@.len() <= cs@.len(),
            forall|j: int| 0 <= j < i ==> cs@[j] == cp@[j],
    {
        if cs[i] != cp[i] {
            assert(s@.take(prefix@.len() as int)[i as int] != prefix@[i as int]);
            return false;
        }
    }
    assert(s@.take(prefix@.len() as int) =~= prefix@);
    true
}

/// Whether `needle` occurs in `s`.
pub fn contains(s: &str, needle: &str) -> (res: bool)
    ensures
        res == has_infix(s@, needle@),
{
    let cs = chars_of(s);
    let cn = chars_of(needle);
    if cn.len() > cs.len() {
        return false;
    }
    if cn.len() == 0 {
        assert(s@.subrange(0int, 0int + needle@.len()) =~= needle@);
        return true;
    }
    let n = cs.len();
    let m = cn.len();
    let last = n - m;
    let mut i: usize = 0;
    while i <= last
        invariant
            n == cs@.len(),
            m == cn@.len(),
            cs@ == s@,
            cn@ == needle@,
            0 < cn@.len() <= cs@.len(),
            last == cs@.len() - cn@.len(),
            i <= last + 1,
            forall|k: int| 0 <= k < i ==> #[trigger] s@.subrange(k, k + needle@.len()) != needle@,
        decreases last + 1 - i,
    {
        let mut matched = true;
        let mut j: usize = 0;
        while j < m
            invariant
                n == cs@.len(),
                m == cn@.len(),
                cs@ == s@,
                cn@ == needle@,
                0 < cn@.len() <= cs@.len(),
                i + cn@.len() <= cs@.len(),
                i <= last,
                last == cs@.len() - cn@.len(),
                j <= cn@.len(),
                matched ==> forall|m: int| 0 <= m < j ==> cs@[i + m] == cn@[m],
                !matched ==> s@.subrange(i as int, i + needle@.len()) != needle@,
            decreases cn@.len() - j,
        {
            if cs[i + j] != cn[j] {
                assert(s@.subrange(i as int, i + needle@.len())[j as int] != needle@[j as int]);
                matched = false;
            }
            j += 1;
        }
        if matched {
            assert(s@.subrange(i as int, i + needle@.len()) =~= needle@);
            return true;
        }
        i += 1;
    }
    false
}

/// Appends the decimal numeral of `n`.
pub fn push_decimal(s: &mut String, n: u64)
    ensures
        final(s)@ == old(s)@ + decimal(n as nat),
    decreases n,
{
    if n >= 10 {
        push_decimal(s, n / 10);
    }
    let d = (n % 10) as u8;
    let c = (d + 48) as char;
    assert(c == digit_char((n % 10) as nat));
    push_char(s, c);
    assert(old(s)@ + decimal(n as nat) =~= if n >= 10 {
        old(s)@ + decimal((n / 10) as nat) + seq![c]
    } else {
        old(s)@ + seq![c]
    });
}

/// The decimal numeral of an `i64`, as `i64::to_string` gives it.
pub fn i64_to_string(i: i64) -> (res: String)
    ensures
        res@ == int_text(i as int),
{
    let mut res = String::new();
    if i < 0 {
        push_char(&mut res, '-');
        let m: u64 = (-(i as i128)) as u64;
        push_decimal(&mut res, m);
    } else {
        push_decimal(&mut res, i as u64);
    }
    assert(res@ =~= int_text(i as int));
    res
}

/// The decimal numeral of a `usize`, as `usize::to_string` gives it.
pub fn usize_to_string(n: usize) -> (res: String)
    ensures
        res@ == decimal(n as nat),
{
    let mut res = String::new();
    push_decimal(&mut res, n as u64);
    assert(res@ =~= decimal(n as nat));
    res
}

/// `parts` joined by `sep`.
pub fn join_strings(parts: &Vec<String>, sep: &str) -> (res: String)
    ensures
        res@ == join(views(parts@), sep@),
{
    let mut res = String::new();
    for i in 0..parts.len()
        invariant
            res@ == join(views(parts@.take(i as int)), sep@),
    {
        let ghost before = parts@.take(i as int);
        let ghost after = parts@.take(i + 1);
        assert(views(after).drop_last() =~= views(before));
        if i > 0 {
            res.append(sep);
        }
        res.append(parts[i].as_str());
        assert(views(after).last() == parts@[i as int]@);
        if i == 0 {
            assert(res@ =~= join(views(after), sep@));
        }
    }
    assert(parts@.take(parts@.len() as int) =~= parts@);
    res
}

/// Joining one more part.
pub proof fn lemma_join_take(parts: Seq<Seq<char>>, sep: Seq<char>, i: int)
    requires
        0 <= i < parts.len(),
    ensures
        join(parts.take(i + 1), sep) == join(parts.take(i), sep) + (if i > 0 {
            sep
        } else {
            seq![]
        }) + parts[i],
{
    assert(parts.take(i + 1).drop_last() =~= parts.take(i));
    if i == 0 {
        assert(join(parts.take(0), sep) =~= seq![]);
        assert(seq![] + seq![] + parts[0] =~= parts[0]);
    }
}

/// Whether `a` comes strictly before `b` in the order of `str`.
pub fn str_lt(a: &str, b: &str) -> (res: bool)
    ensures
        res == text_lt(a@, b@),
{
    let x = a.as_bytes();
    let y = b.as_bytes();
    let ghost xs = encode_utf8(a@);
    let ghost ys = encode_utf8(b@);
    assert(x@ == xs);
    assert(y@ == ys);
    let mut i: usize = 0;
    while i < x.len() && i < y.len()
        invariant
            xs == encode_utf8(a@),
            ys == encode_utf8(b@),
            x@ == xs,
            y@ == ys,
            i <= x@.len(),
            i <= y@.len(),
            xs.take(i as int) == ys.take(i as int),
        decreases x@.len() - i,
    {
        if x[i] != y[i] {
            let r = x[i] < y[i];
            if r {
                assert(xs[i as int] == x@[i as int]);
                assert(ys[i as int] == y@[i as int]);
                assert(xs.take(i as int) == ys.take(i as int));
                assert(bytes_lt(xs, ys));
            } else {
                assert forall|k: int|
                    0 <= k <= xs.len() && k <= ys.len() && #[trigger] xs.take(k) == ys.take(
                        k,
                    ) implies !((k < xs.len() && k < ys.len() && xs[k] < ys[k]) || (k == xs.len()
                    && k < ys.len())) by {
                    if k > i {
                        assert(xs.take(k)[i as int] == ys.take(k)[i as int]);
                    } else if k < i {
                        assert(xs.take(i as int)[k] == ys.take(i as int)[k]);
                    } else {
                        assert(xs[i as int] == x@[i as int]);
                        assert(ys[i as int] == y@[i as int]);
                    }
                }
                assert(!bytes_lt(xs, ys));
            }
            return r;
        }
        assert(xs.take(i + 1) =~= xs.take(i as int).push(xs[i as int]));
        assert(ys.take(i + 1) =~= ys.take(i as int).push(ys[i as int]));
        i += 1;
    }
    let r = x.len() < y.len();
    if !r {
        assert forall|k: int|
            0 <= k <= xs.len() && k <= ys.len() && #[trigger] xs.take(k) == ys.take(
                k,
            ) implies !((k < xs.len() && k < ys.len() && xs[k] < ys[k]) || (k == xs.len() && k
            < ys.len())) by {
            if k < i {
                assert(xs.take(i as int)[k] == ys.take(i as int)[k]);
            }
        }
    }
    r
}

/// The lines of `s`, as `str::lines` gives them.
pub fn lines_of(s: &str) -> (res: Vec<String>)
    ensures
        views(res@) == lines(s@),
{
    let cs = chars_of(s);
    let mut done: Vec<String> = Vec::new();
    let mut cur: Vec<char> = Vec::new();
    for i in 0..cs.len()
        invariant
            cs@ == s@,
            segments(s@.take(i as int)).len() == done@.len() + 1,
            forall|k: int|
                0 <= k < done@.len() ==> #[trigger] done@[k]@ == strip_cr(
                    segments(s@.take(i as int))[k],
                ),
            cur@ == segments(s@.take(i as int)).last(),
    {
        let ghost pre = s@.take(i as int);
        let ghost now = s@.take(i + 1);
        assert(now.drop_last() =~= pre);
        proof { lemma_segments_nonempty(pre); }
        let c = cs[i];
        if c == '\n' {
            let n = cur.len();
            let line = if n > 0 && cur[n - 1] == '\r' {
                let ghost cv = cur@;
                assert(cur@.subrange(0, (n - 1) as int) =~= cv.drop_last());
                string_from_chars(&cur.as_slice()[0..n - 1])
            } else {
                string_from_chars(cur.as_slice())
            };
            done.push(line);
            cur = Vec::new();
        } else {
            cur.push(c);
        }
    }
    let ghost segs = segments(s@);
    assert(s@.take(cs@.len() as int) =~= s@);
    if cur.len() > 0 {
        let last = string_from_chars(cur.as_slice());
        done.push(last);
    }
    assert(views(done@) =~= lines(s@));
    done
}

} // verus!
