//! Splitting a command line into words.

use vstd::prelude::*;

verus! {

broadcast use vstd::string::group_string_axioms;

/// The characters that separate words on a command line: space, tab,
/// carriage return, line feed and the bell control character.
pub open spec fn is_delim(c: char) -> bool {
    c == ' ' || c == '\t' || c == '\r' || c == '\n' || c == '\x07'
}

/// The sequence of words a line splits into: maximal runs of
/// non-delimiter characters, in order, with empty fragments dropped.
pub open spec fn tokenize_spec(s: Seq<char>) -> Seq<Seq<char>>
    decreases s.len(),
{
    if s.len() == 0 {
        Seq::empty()
    } else if is_delim(s[0]) {
        tokenize_spec(s.drop_first())
    } else {
        let rest = tokenize_spec(s.drop_first());
        if s.len() > 1 && !is_delim(s[1]) {
            seq![seq![s[0]] + rest[0]] + rest.drop_first()
        } else {
            seq![seq![s[0]]] + rest
        }
    }
}

/// No token is the empty string, and no token contains a delimiter.
pub proof fn lemma_tokens_nonempty(s: Seq<char>)
    ensures
        forall|i: int|
            0 <= i < tokenize_spec(s).len() ==> (#[trigger] tokenize_spec(s)[i]).len() > 0,
        forall|i: int, j: int|
            0 <= i < tokenize_spec(s).len() && 0 <= j < tokenize_spec(s)[i].len() ==> !is_delim(
                #[trigger] tokenize_spec(s)[i][j],
            ),
    decreases s.len(),
{
    if s.len() == 0 {
    } else if is_delim(s[0]) {
        lemma_tokens_nonempty(s.drop_first());
    } else {
        lemma_tokens_nonempty(s.drop_first());
        let rest = tokenize_spec(s.drop_first());
        let toks = tokenize_spec(s);
        if s.len() > 1 && !is_delim(s[1]) {
            assert(s.drop_first().len() > 0 && !is_delim(s.drop_first()[0]));
            assert(rest.len() > 0);
            assert forall|i: int| 0 <= i < toks.len() implies (#[trigger] toks[i]).len() > 0 by {
                if i == 0 {
                    assert(toks[0] == seq![s[0]] + rest[0]);
                } else {
                    assert(toks[i] == rest.drop_first()[i - 1]);
                    assert(rest.drop_first()[i - 1] == rest[i]);
                }
            }
            assert forall|i: int, j: int|
                0 <= i < toks.len() && 0 <= j < toks[i].len() implies !is_delim(
                #[trigger] toks[i][j],
            ) by {
                if i == 0 {
                    assert(toks[0] == seq![s[0]] + rest[0]);
                    if j == 0 {
                        assert(toks[0][0] == s[0]);
                    } else {
                        assert(toks[0][j] == rest[0][j - 1]);
                    }
                } else {
                    assert(toks[i] == rest.drop_first()[i - 1]);
                    assert(rest.drop_first()[i - 1] == rest[i]);
                }
            }
        } else {
            assert forall|i: int| 0 <= i < toks.len() implies (#[trigger] toks[i]).len() > 0 by {
                if i == 0 {
                    assert(toks[0] == seq![s[0]]);
                } else {
                    assert(toks[i] == rest[i - 1]);
                }
            }
            assert forall|i: int, j: int|
                0 <= i < toks.len() && 0 <= j < toks[i].len() implies !is_delim(
                #[trigger] toks[i][j],
            ) by {
                if i == 0 {
                    assert(toks[0] == seq![s[0]]);
                    assert(toks[0][0] == s[0]);
                } else {
                    assert(toks[i] == rest[i - 1]);
                }
            }
        }
    }
}

/// A maximal word followed by a delimiter (or by nothing) is one whole
/// token, and tokenizing continues after it.
proof fn lemma_word_boundary(w: Seq<char>, r: Seq<char>)
    requires
        w.len() > 0,
        forall|i: int| 0 <= i < w.len() ==> !is_delim(#[trigger] w[i]),
        r.len() == 0 || is_delim(r[0]),
    ensures
        tokenize_spec(w + r) == seq![w] + tokenize_spec(r),
    decreases w.len(),
{
    let s = w + r;
    assert(s[0] == w[0]);
    if w.len() == 1 {
        assert(s.drop_first() =~= r);
        if s.len() > 1 {
            assert(s[1] == r[0]);
        }
        assert(seq![s[0]] =~= w);
        assert(tokenize_spec(s) == seq![w] + tokenize_spec(r));
    } else {
        lemma_word_boundary(w.drop_first(), r);
        assert(s.drop_first() =~= w.drop_first() + r);
        let rest = tokenize_spec(s.drop_first());
        assert(rest == seq![w.drop_first()] + tokenize_spec(r));
        assert(s.len() > 1 && s[1] == w[1] && !is_delim(s[1]));
        assert(rest[0] == w.drop_first());
        assert(seq![s[0]] + w.drop_first() =~= w);
        assert(rest.drop_first() =~= tokenize_spec(r));
        assert(tokenize_spec(s) == seq![w] + tokenize_spec(r));
    }
}

/// Relies on `String::push`: appends one character at the end.
pub assume_specification[ String::push ](s: &mut String, ch: char)
    ensures
        final(s)@ == old(s)@.push(ch),
;

/// Splits a line into words on whitespace (space, tab, carriage return,
/// line feed) and the bell character, dropping empty fragments and
/// keeping the words in order.
pub fn rshell_tokenize(line: &str) -> (tokens: Vec<String>)
    ensures
        tokens.deep_view() == tokenize_spec(line@),
{
    let mut tokens: Vec<String> = Vec::new();
    let mut cur: String = String::new();
    proof {
        assert(cur@ + line@.skip(0) =~= line@);
        assert(tokens.deep_view() =~~= Seq::<Seq<char>>::empty());
        assert(tokens.deep_view() + tokenize_spec(line@) =~= tokenize_spec(line@));
    }
    for c in it: line.chars()
        invariant
            it.seq() == line@,
            forall|i: int| 0 <= i < cur@.len() ==> !is_delim(#[trigger] cur@[i]),
            tokenize_spec(line@) == tokens.deep_view() + tokenize_spec(
                cur@ + line@.skip(it.index() as int),
            ),
    {
        let ghost k = it.index() as int;
        let ghost pre_tokens = tokens.deep_view();
        let ghost pre_cur = cur@;
        assert(line@.skip(k)[0] == c);
        assert(line@.skip(k).drop_first() =~= line@.skip(k + 1));
        if c == ' ' || c == '\t' || c == '\r' || c == '\n' || c == '\x07' {
            if !cur.as_str().is_empty() {
                proof {
                    lemma_word_boundary(pre_cur, line@.skip(k));
                }
                tokens.push(cur);
                cur = String::new();
                proof {
                    assert(tokens.deep_view() =~~= pre_tokens.push(pre_cur));
                    assert(cur@ + line@.skip(k + 1) =~= line@.skip(k + 1));
                    assert(tokenize_spec(line@) == tokens.deep_view() + tokenize_spec(
                        cur@ + line@.skip(k + 1),
                    ));
                }
            } else {
                proof {
                    assert(pre_cur + line@.skip(k) =~= line@.skip(k));
                    assert(cur@ + line@.skip(k + 1) =~= line@.skip(k + 1));
                }
            }
        } else {
            cur.push(c);
            proof {
                assert(cur@ + line@.skip(k + 1) =~= pre_cur + line@.skip(k));
            }
        }
    }
    proof {
        assert(line@.skip(line@.len() as int) =~= Seq::<char>::empty());
    }
    if !cur.as_str().is_empty() {
        let ghost pre_tokens = tokens.deep_view();
        let ghost pre_cur = cur@;
        proof {
            assert(pre_cur + line@.skip(line@.len() as int) =~= pre_cur);
            assert(tokenize_spec(pre_cur) == seq![pre_cur]) by {
                lemma_word_boundary(pre_cur, Seq::<char>::empty());
                assert(pre_cur + Seq::<char>::empty() =~= pre_cur);
            }
        }
        tokens.push(cur);
        proof {
            assert(tokens.deep_view() =~~= pre_tokens.push(pre_cur));
            assert(tokens.deep_view() =~~= tokenize_spec(line@));
        }
    } else {
        proof {
            assert(cur@ + line@.skip(line@.len() as int) =~= Seq::<char>::empty());
            assert(tokens.deep_view() =~~= tokenize_spec(line@));
        }
    }
    tokens
}

} // verus!
