use vstd::prelude::*;

verus! {

/// Whether `c` has the Unicode `White_Space` property, which is what
/// `char::is_whitespace` tests.
pub open spec fn is_space(c: char) -> bool {
    ('\t' <= c && c <= '\r') || c == ' ' || c == '\u{85}' || c == '\u{a0}' || c == '\u{1680}'
        || ('\u{2000}' <= c && c <= '\u{200a}') || c == '\u{2028}' || c == '\u{2029}'
        || c == '\u{202f}' || c == '\u{205f}' || c == '\u{3000}'
}

/// The tokens of `s`: its maximal runs of characters that are not whitespace,
/// left to right.
pub open spec fn tokens(s: Seq<char>) -> Seq<Seq<char>>
    decreases s.len(),
{
    if s.len() == 0 {
        Seq::empty()
    } else {
        let init = s.drop_last();
        let before = tokens(init);
        let c = s.last();
        if is_space(c) {
            before
        } else if init.len() > 0 && !is_space(init.last()) {
            before.drop_last().push(before.last().push(c))
        } else {
            before.push(seq![c])
        }
    }
}

/// The character sequences that a list of strings holds.
pub open spec fn views(v: Seq<String>) -> Seq<Seq<char>> {
    v.map_values(|s: String| s@)
}

/// Whether every character of `s` is whitespace.
pub open spec fn all_space(s: Seq<char>) -> bool {
    forall|i: int| 0 <= i < s.len() ==> is_space(#[trigger] s[i])
}

/// Whether `w` can stand as one token: not empty, and free of whitespace.
pub open spec fn is_word(w: Seq<char>) -> bool {
    w.len() > 0 && forall|i: int| 0 <= i < w.len() ==> !is_space(#[trigger] w[i])
}

/// The words of `ws` written one after another, a single space between each two.
pub open spec fn joined(ws: Seq<Seq<char>>) -> Seq<char>
    decreases ws.len(),
{
    if ws.len() == 0 {
        Seq::empty()
    } else if ws.len() == 1 {
        ws[0]
    } else {
        joined(ws.drop_last()) + seq![' '] + ws.last()
    }
}

proof fn lemma_tokens_nonempty(s: Seq<char>)
    requires
        s.len() > 0,
        !is_space(s.last()),
    ensures
        tokens(s).len() > 0,
    decreases s.len(),
{
    let init = s.drop_last();
    if init.len() > 0 && !is_space(init.last()) {
        lemma_tokens_nonempty(init);
    }
}

/// Where `x` ends, or `y` starts, with whitespace (or either is empty), the
/// tokens of `x + y` are those of `x` followed by those of `y`.
pub proof fn lemma_tokens_concat(x: Seq<char>, y: Seq<char>)
    requires
        x.len() == 0 || is_space(x.last()) || y.len() == 0 || is_space(y[0]),
    ensures
        tokens(x + y) == tokens(x) + tokens(y),
    decreases y.len(),
{
    if y.len() == 0 {
        assert(x + y =~= x);
        assert(tokens(x) + tokens(y) =~= tokens(x));
    } else {
        let y0 = y.drop_last();
        let c = y.last();
        lemma_tokens_concat(x, y0);
        assert((x + y).drop_last() =~= x + y0);
        assert((x + y).last() == c);
        let init = x + y0;
        if is_space(c) {
        } else if init.len() > 0 && !is_space(init.last()) {
            assert(y0.len() > 0);
            assert(init.last() == y0.last());
            lemma_tokens_nonempty(y0);
            assert((tokens(x) + tokens(y0)).drop_last().push((tokens(x) + tokens(y0)).last().push(c))
                =~= tokens(x) + tokens(y0).drop_last().push(tokens(y0).last().push(c)));
        } else {
            if y0.len() > 0 {
                assert(init.last() == y0.last());
            } else {
                assert(tokens(y0) =~= Seq::<Seq<char>>::empty());
            }
            assert((tokens(x) + tokens(y0)).push(seq![c]) =~= tokens(x) + tokens(y0).push(seq![c]));
        }
    }
}

/// A line of whitespace alone, the empty line included, has no tokens.
pub proof fn lemma_tokens_all_space(w: Seq<char>)
    requires
        all_space(w),
    ensures
        tokens(w) == Seq::<Seq<char>>::empty(),
    decreases w.len(),
{
    if w.len() > 0 {
        let init = w.drop_last();
        assert(all_space(init)) by {
            assert forall|i: int| 0 <= i < init.len() implies is_space(#[trigger] init[i]) by {
                assert(init[i] == w[i]);
            }
        }
        lemma_tokens_all_space(init);
        assert(is_space(w[w.len() - 1]));
    }
}

/// Every token is a word: not empty, and without whitespace.
pub proof fn lemma_tokens_are_words(s: Seq<char>)
    ensures
        forall|i: int| 0 <= i < tokens(s).len() ==> is_word(#[trigger] tokens(s)[i]),
    decreases s.len(),
{
    if s.len() > 0 {
        let init = s.drop_last();
        lemma_tokens_are_words(init);
        let before = tokens(init);
        let c = s.last();
        if !is_space(c) && init.len() > 0 && !is_space(init.last()) {
            lemma_tokens_nonempty(init);
            let w = before.last().push(c);
            assert(is_word(before[before.len() - 1]));
            assert(is_word(w)) by {
                assert forall|j: int| 0 <= j < w.len() implies !is_space(#[trigger] w[j]) by {
                    if j < w.len() - 1 {
                        assert(w[j] == before.last()[j]);
                    }
                }
            }
            assert forall|i: int| 0 <= i < tokens(s).len() implies is_word(#[trigger] tokens(s)[i]) by {
                if i < before.len() - 1 {
                    assert(tokens(s)[i] == before[i]);
                }
            }
        } else if !is_space(c) {
            assert(is_word(seq![c]));
            assert forall|i: int| 0 <= i < tokens(s).len() implies is_word(#[trigger] tokens(s)[i]) by {
                if i < before.len() {
                    assert(tokens(s)[i] == before[i]);
                }
            }
        }
    }
}

/// The characters of the sequences of `ts`, one after another.
pub open spec fn concat_all(ts: Seq<Seq<char>>) -> Seq<char>
    decreases ts.len(),
{
    if ts.len() == 0 {
        Seq::empty()
    } else {
        concat_all(ts.drop_last()) + ts.last()
    }
}

/// The tokens of a line hold, in order, exactly its characters that are not
/// whitespace: each such character stands in one token.
pub proof fn lemma_tokens_cover(s: Seq<char>)
    ensures
        concat_all(tokens(s)) == s.filter(|c: char| !is_space(c)),
    decreases s.len(),
{
    reveal(Seq::filter);
    if s.len() > 0 {
        let init = s.drop_last();
        lemma_tokens_cover(init);
        let before = tokens(init);
        let c = s.last();
        if !is_space(c) && init.len() > 0 && !is_space(init.last()) {
            lemma_tokens_nonempty(init);
            let after = before.drop_last().push(before.last().push(c));
            assert(after.drop_last() =~= before.drop_last());
            assert(concat_all(before) == concat_all(before.drop_last()) + before.last());
            assert(concat_all(after) =~= concat_all(before).push(c));
        } else if !is_space(c) {
            let after = before.push(seq![c]);
            assert(after.drop_last() =~= before);
            assert(concat_all(after) =~= concat_all(before).push(c));
        }
    }
}

/// Whitespace added before and after a line changes none of its tokens.
pub proof fn lemma_tokens_ignore_outer_space(before: Seq<char>, s: Seq<char>, after: Seq<char>)
    requires
        all_space(before),
        all_space(after),
    ensures
        tokens(before + s + after) == tokens(s),
{
    lemma_tokens_all_space(before);
    lemma_tokens_all_space(after);
    if after.len() > 0 {
        assert(is_space(after[0]));
    }
    lemma_tokens_concat(before + s, after);
    if before.len() > 0 {
        assert(is_space(before[before.len() - 1]));
    }
    lemma_tokens_concat(before, s);
    assert(tokens(before + s) + tokens(after) =~= tokens(s));
}

/// Any run of whitespace between two parts of a line separates them as a
/// single space does.
pub proof fn lemma_tokens_space_run(a: Seq<char>, w: Seq<char>, b: Seq<char>)
    requires
        w.len() > 0,
        all_space(w),
    ensures
        tokens(a + w + b) == tokens(a + seq![' '] + b),
        tokens(a + w + b) == tokens(a) + tokens(b),
{
    assert forall|v: Seq<char>| v.len() > 0 && all_space(v) implies tokens(a + v + b) == tokens(a)
        + tokens(b) by {
        assert(is_space(v[0]));
        assert(is_space(v[v.len() - 1]));
        lemma_tokens_concat(a, v);
        lemma_tokens_concat(a + v, b);
        lemma_tokens_all_space(v);
        assert(tokens(a) + tokens(v) =~= tokens(a));
    }
    assert(all_space(seq![' ']));
}

proof fn lemma_tokens_word(w: Seq<char>)
    requires
        is_word(w),
    ensures
        tokens(w) == seq![w],
    decreases w.len(),
{
    let init = w.drop_last();
    if init.len() > 0 {
        assert(is_word(init)) by {
            assert forall|i: int| 0 <= i < init.len() implies !is_space(#[trigger] init[i]) by {
                assert(init[i] == w[i]);
            }
        }
        lemma_tokens_word(init);
        assert(!is_space(init[init.len() - 1]));
        assert(!is_space(w[w.len() - 1]));
        assert(init.push(w.last()) =~= w);
        assert(seq![init].drop_last().push(seq![init].last().push(w.last())) =~= seq![w]);
        assert(tokens(w) == tokens(init).drop_last().push(tokens(init).last().push(w.last())));
    } else {
        assert(!is_space(w[w.len() - 1]));
        assert(seq![w.last()] =~= w);
        assert(Seq::<Seq<char>>::empty().push(seq![w.last()]) =~= seq![w]);
        assert(tokens(init) == Seq::<Seq<char>>::empty());
        assert(tokens(w) == tokens(init).push(seq![w.last()]));
    }
}

/// Words written with single spaces between them tokenize back into those words.
pub proof fn lemma_tokens_of_joined(ws: Seq<Seq<char>>)
    requires
        forall|i: int| 0 <= i < ws.len() ==> is_word(#[trigger] ws[i]),
    ensures
        tokens(joined(ws)) == ws,
    decreases ws.len(),
{
    if ws.len() == 1 {
        lemma_tokens_word(ws[0]);
        assert(seq![ws[0]] =~= ws);
    } else if ws.len() > 1 {
        let init = ws.drop_last();
        assert forall|i: int| 0 <= i < init.len() implies is_word(#[trigger] init[i]) by {
            assert(init[i] == ws[i]);
        }
        lemma_tokens_of_joined(init);
        let x = joined(init) + seq![' '];
        assert(is_word(ws[ws.len() - 1]));
        lemma_tokens_word(ws.last());
        assert(x.last() == ' ');
        lemma_tokens_concat(x, ws.last());
        lemma_tokens_concat(joined(init), seq![' ']);
        assert(all_space(seq![' ']));
        lemma_tokens_all_space(seq![' ']);
        assert(tokens(joined(init)) + tokens(seq![' ']) + seq![ws.last()] =~= ws);
    } else {
        assert(ws =~= Seq::<Seq<char>>::empty());
    }
}

/// Writing the tokens of a line with single spaces between them gives a line
/// with the same tokens.
pub proof fn lemma_tokens_idempotent(s: Seq<char>)
    ensures
        tokens(joined(tokens(s))) == tokens(s),
{
    lemma_tokens_are_words(s);
    lemma_tokens_of_joined(tokens(s));
}

/// Tests the `White_Space` property.
pub fn is_space_char(c: char) -> (r: bool)
    ensures
        r == is_space(c),
{
    ('\t' <= c && c <= '\r') || c == ' ' || c == '\u{85}' || c == '\u{a0}' || c == '\u{1680}'
        || ('\u{2000}' <= c && c <= '\u{200a}') || c == '\u{2028}' || c == '\u{2029}'
        || c == '\u{202f}' || c == '\u{205f}' || c == '\u{3000}'
}

/// Relies on `String::push`: appends one character.
#[verifier::external_body]
fn push_char(s: &mut String, c: char)
    ensures
        final(s)@ == old(s)@.push(c),
{
    s.push(c)
}

/// Splits `line` into its tokens.
pub fn split_tokens(line: &str) -> (r: Vec<String>)
    ensures
        views(r@) == tokens(line@),
{
    let mut out: Vec<String> = Vec::new();
    let mut cur = String::new();
    let mut in_token = false;
    for c in it: line.chars()
        invariant
            it.seq() == line@,
            0 <= it.index() <= line@.len(),
            tokens(line@.take(it.index() as int)) == (if cur@.len() > 0 {
                views(out@).push(cur@)
            } else {
                views(out@)
            }),
            in_token == (cur@.len() > 0),
            cur@.len() > 0 <==> (it.index() > 0 && !is_space(line@[it.index() - 1])),
    {
        let ghost i = it.index() as int;
        let ghost p = line@.take(i);
        assert(line@.take(i + 1).drop_last() =~= p);
        assert(line@.take(i + 1).last() == c);
        if is_space_char(c) {
            if in_token {
                let ghost before = views(out@);
                out.push(cur);
                assert(views(out@) =~= before.push(cur@));
                cur = String::new();
                in_token = false;
            }
        } else {
            let ghost old_cur = cur@;
            push_char(&mut cur, c);
            in_token = true;
            proof {
                if old_cur.len() > 0 {
                    assert(views(out@).push(cur@) =~= views(out@).push(old_cur).drop_last().push(
                        views(out@).push(old_cur).last().push(c),
                    ));
                } else {
                    assert(cur@ =~= seq![c]);
                }
            }
        }
    }
    assert(line@.take(line@.len() as int) =~= line@);
    if in_token {
        let ghost before = views(out@);
        out.push(cur);
        assert(views(out@) =~= before.push(cur@));
    }
    out
}

} // verus!
