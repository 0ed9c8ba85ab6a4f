//! The lexer: splits a raw input line into shell-style words.
//!
//! Splitting happens on blanks, tabs and newlines outside quotes. Single
//! quotes protect every character up to the closing quote. Double quotes
//! protect their contents too, but a backslash inside them escapes `$`,
//! a backtick, `"` and `\`, drops an escaped newline, and is otherwise kept
//! together with the character behind it. Outside quotes a backslash makes
//! the next character literal, except an escaped newline, which is dropped.
//! A line that ends inside a quotation or right after an unescaped backslash
//! does not lex.
//!
//! The whole grammar is the spec-level character machine [`lex_step`]; the
//! executable [`lex`] returns exactly what folding that machine over the
//! line yields.

use vstd::prelude::*;

use crate::chars::is_word_sep;
use crate::chars::push_char;
use crate::chars::word_sep;

verus! {

/// Where the character machine stands: between words, inside a bare word,
/// inside single or double quotes, or right after a backslash (in a bare
/// word or inside double quotes).
#[derive(Debug, Clone, Copy, PartialEq, Eq)]
pub enum LexMode {
    Between,
    Word,
    Single,
    Double,
    EscWord,
    EscDouble,
}

/// The full state of the character machine: the words already finished, the
/// word being built, and the mode.
pub struct LexState {
    pub tokens: Seq<Seq<char>>,
    pub cur: Seq<char>,
    pub mode: LexMode,
}

/// The state before any character is read.
pub open spec fn lex_init() -> LexState {
    LexState { tokens: Seq::empty(), cur: Seq::empty(), mode: LexMode::Between }
}

/// One character of input, applied to the machine.
pub open spec fn lex_step(st: LexState, c: char) -> LexState {
    match st.mode {
        LexMode::Between => {
            if is_word_sep(c) {
                st
            } else if c == '\'' {
                LexState { mode: LexMode::Single, ..st }
            } else if c == '"' {
                LexState { mode: LexMode::Double, ..st }
            } else if c == '\\' {
                LexState { mode: LexMode::EscWord, ..st }
            } else {
                LexState { cur: st.cur.push(c), mode: LexMode::Word, ..st }
            }
        },
        LexMode::Word => {
            if is_word_sep(c) {
                LexState {
                    tokens: st.tokens.push(st.cur),
                    cur: Seq::empty(),
                    mode: LexMode::Between,
                }
            } else if c == '\'' {
                LexState { mode: LexMode::Single, ..st }
            } else if c == '"' {
                LexState { mode: LexMode::Double, ..st }
            } else if c == '\\' {
                LexState { mode: LexMode::EscWord, ..st }
            } else {
                LexState { cur: st.cur.push(c), ..st }
            }
        },
        LexMode::Single => {
            if c == '\'' {
                LexState { mode: LexMode::Word, ..st }
            } else {
                LexState { cur: st.cur.push(c), ..st }
            }
        },
        LexMode::Double => {
            if c == '"' {
                LexState { mode: LexMode::Word, ..st }
            } else if c == '\\' {
                LexState { mode: LexMode::EscDouble, ..st }
            } else {
                LexState { cur: st.cur.push(c), ..st }
            }
        },
        LexMode::EscWord => {
            if c == '\n' {
                LexState { mode: LexMode::Word, ..st }
            } else {
                LexState { cur: st.cur.push(c), mode: LexMode::Word, ..st }
            }
        },
        LexMode::EscDouble => {
            if c == '$' || c == '`' || c == '"' || c == '\\' {
                LexState { cur: st.cur.push(c), mode: LexMode::Double, ..st }
            } else if c == '\n' {
                LexState { mode: LexMode::Double, ..st }
            } else {
                LexState { cur: st.cur.push('\\').push(c), mode: LexMode::Double, ..st }
            }
        },
    }
}

/// The machine folded over `s`, starting from `st`.
pub open spec fn lex_from(st: LexState, s: Seq<char>) -> LexState
    decreases s.len(),
{
    if s.len() == 0 {
        st
    } else {
        lex_from(lex_step(st, s[0]), s.drop_first())
    }
}

/// The machine folded over `s` from the initial state.
pub open spec fn lex_fold(s: Seq<char>) -> LexState {
    lex_from(lex_init(), s)
}

/// What lexing a line yields: its words, or nothing when the line ends
/// inside a quotation or right after a backslash.
pub open spec fn lex_spec(s: Seq<char>) -> Option<Seq<Seq<char>>> {
    let st = lex_fold(s);
    match st.mode {
        LexMode::Between => Some(st.tokens),
        LexMode::Word => Some(st.tokens.push(st.cur)),
        _ => None,
    }
}

/// The view of a token list: the sequence of the tokens' character
/// sequences.
pub open spec fn tokens_view(v: Seq<String>) -> Seq<Seq<char>> {
    v.map_values(|s: String| s@)
}

pub(crate) proof fn lemma_tokens_view_push(v: Seq<String>, s: String)
    ensures
        tokens_view(v.push(s)) == tokens_view(v).push(s@),
{
    assert(tokens_view(v.push(s)) =~= tokens_view(v).push(s@));
}

/// Folding one more character is one more step.
proof fn lemma_lex_from_snoc(st: LexState, s: Seq<char>, c: char)
    ensures
        lex_from(st, s.push(c)) == lex_step(lex_from(st, s), c),
    decreases s.len(),
{
    if s.len() == 0 {
        assert(s.push(c)[0] == c);
        assert(s.push(c).drop_first() =~= Seq::<char>::empty());
        assert(lex_from(st, s.push(c)) == lex_from(lex_step(st, c), s.push(c).drop_first()));
        assert(lex_from(lex_step(st, c), Seq::<char>::empty()) == lex_step(st, c));
        assert(lex_from(st, s) == st);
    } else {
        assert(s.push(c)[0] == s[0]);
        assert(s.push(c).drop_first() =~= s.drop_first().push(c));
        lemma_lex_from_snoc(lex_step(st, s[0]), s.drop_first(), c);
        assert(lex_from(st, s.push(c)) == lex_from(lex_step(st, s[0]), s.drop_first().push(c)));
        assert(lex_from(st, s) == lex_from(lex_step(st, s[0]), s.drop_first()));
    }
}

/// Folding a concatenation folds its parts in turn.
proof fn lemma_lex_from_append(st: LexState, a: Seq<char>, b: Seq<char>)
    ensures
        lex_from(st, a + b) == lex_from(lex_from(st, a), b),
    decreases a.len(),
{
    if a.len() == 0 {
        assert(a + b =~= b);
    } else {
        assert((a + b)[0] == a[0]);
        assert((a + b).drop_first() =~= a.drop_first() + b);
        lemma_lex_from_append(lex_step(st, a[0]), a.drop_first(), b);
    }
}

/// A character without lexical meaning: not a separator, not a quote, not a
/// backslash.
pub open spec fn plain_char(c: char) -> bool {
    !is_word_sep(c) && c != '\'' && c != '"' && c != '\\'
}

/// A word the lexer passes through unchanged: nonempty and made of plain
/// characters only.
pub open spec fn plain_word(w: Seq<char>) -> bool {
    w.len() > 0 && forall|i: int| 0 <= i < w.len() ==> plain_char(w[i])
}

/// The tokens rejoined into one line with single blanks.
pub open spec fn join_spaces(toks: Seq<Seq<char>>) -> Seq<char>
    decreases toks.len(),
{
    if toks.len() == 0 {
        Seq::empty()
    } else if toks.len() == 1 {
        toks[0]
    } else {
        toks[0] + seq![' '] + join_spaces(toks.drop_first())
    }
}

/// In word mode, plain characters are simply appended.
proof fn lemma_fold_plain_chars(st: LexState, w: Seq<char>)
    requires
        st.mode == LexMode::Word,
        forall|i: int| 0 <= i < w.len() ==> plain_char(#[trigger] w[i]),
    ensures
        lex_from(st, w) == (LexState { tokens: st.tokens, cur: st.cur + w, mode: LexMode::Word }),
    decreases w.len(),
{
    if w.len() == 0 {
        assert(st.cur + w =~= st.cur);
        assert(st == (LexState { tokens: st.tokens, cur: st.cur, mode: LexMode::Word }));
    } else {
        let c = w[0];
        let st2 = lex_step(st, c);
        assert(st2 == (LexState { tokens: st.tokens, cur: st.cur.push(c), mode: LexMode::Word }));
        lemma_fold_plain_chars(st2, w.drop_first());
        assert(st.cur.push(c) + w.drop_first() =~= st.cur + w);
        assert(lex_from(st, w) == lex_from(st2, w.drop_first()));
    }
}

/// Between words, a plain word is read as one whole token in progress.
proof fn lemma_fold_plain_word(st: LexState, w: Seq<char>)
    requires
        st.mode == LexMode::Between,
        st.cur == Seq::<char>::empty(),
        plain_word(w),
    ensures
        lex_from(st, w) == (LexState { tokens: st.tokens, cur: w, mode: LexMode::Word }),
{
    let c = w[0];
    let st2 = lex_step(st, c);
    assert(st2 == (LexState { tokens: st.tokens, cur: st.cur.push(c), mode: LexMode::Word }));
    lemma_fold_plain_chars(st2, w.drop_first());
    assert(lex_from(st, w) == lex_from(st2, w.drop_first()));
    assert(st.cur.push(c) + w.drop_first() =~= w);
}

/// Reading rejoined plain words accumulates exactly those words.
proof fn lemma_fold_join(acc: Seq<Seq<char>>, toks: Seq<Seq<char>>)
    requires
        toks.len() > 0,
        forall|i: int| 0 <= i < toks.len() ==> plain_word(#[trigger] toks[i]),
    ensures
        lex_from(
            LexState { tokens: acc, cur: Seq::empty(), mode: LexMode::Between },
            join_spaces(toks),
        ) == (LexState { tokens: acc + toks.drop_last(), cur: toks.last(), mode: LexMode::Word }),
    decreases toks.len(),
{
    let st0 = LexState { tokens: acc, cur: Seq::empty(), mode: LexMode::Between };
    if toks.len() == 1 {
        lemma_fold_plain_word(st0, toks[0]);
        assert(acc + toks.drop_last() =~= acc);
    } else {
        let rest = toks.drop_first();
        assert(join_spaces(toks) == (toks[0] + seq![' ']) + join_spaces(rest));
        lemma_lex_from_append(st0, toks[0] + seq![' '], join_spaces(rest));
        lemma_lex_from_append(st0, toks[0], seq![' ']);
        lemma_fold_plain_word(st0, toks[0]);
        let st1 = LexState { tokens: acc, cur: toks[0], mode: LexMode::Word };
        assert(seq![' '][0] == ' ');
        assert(seq![' '].drop_first() =~= Seq::<char>::empty());
        assert(lex_from(st1, seq![' ']) == lex_from(lex_step(st1, ' '), seq![' '].drop_first()));
        assert(is_word_sep(' '));
        assert(lex_step(st1, ' ') == (LexState {
            tokens: acc.push(toks[0]),
            cur: Seq::<char>::empty(),
            mode: LexMode::Between,
        }));
        assert(forall|i: int| 0 <= i < rest.len() ==> plain_word(#[trigger] rest[i])) by {
            assert(forall|i: int| 0 <= i < rest.len() ==> rest[i] == toks[i + 1]);
        }
        lemma_fold_join(acc.push(toks[0]), rest);
        assert(acc.push(toks[0]) + rest.drop_last() =~= acc + toks.drop_last());
        assert(rest.last() == toks.last());
    }
}

/// Law: a token list of plain words is recovered exactly when it is rejoined
/// with single blanks and lexed again. In particular, whenever `lex` yields
/// only plain words, lexing is idempotent up to whitespace normalization.
pub proof fn lemma_lex_rejoin(toks: Seq<Seq<char>>)
    requires
        forall|i: int| 0 <= i < toks.len() ==> plain_word(#[trigger] toks[i]),
    ensures
        lex_spec(join_spaces(toks)) == Some(toks),
{
    if toks.len() == 0 {
        assert(lex_from(lex_init(), Seq::empty()) == lex_init());
        assert(lex_init().tokens =~= toks);
    } else {
        lemma_fold_join(Seq::empty(), toks);
        assert(Seq::<Seq<char>>::empty() + toks.drop_last() =~= toks.drop_last());
        assert(toks.drop_last().push(toks.last()) =~= toks);
    }
}

/// One more token joins behind a single blank.
proof fn lemma_join_snoc(ts: Seq<Seq<char>>, t: Seq<char>)
    ensures
        join_spaces(ts.push(t)) == if ts.len() == 0 {
            t
        } else {
            join_spaces(ts) + seq![' '] + t
        },
    decreases ts.len(),
{
    let p = ts.push(t);
    if ts.len() == 0 {
        assert(p[0] == t);
    } else if ts.len() == 1 {
        assert(p[0] == ts[0]);
        assert(p.drop_first() =~= seq![t]);
        assert(join_spaces(seq![t]) == t);
    } else {
        assert(p[0] == ts[0]);
        assert(p.drop_first() =~= ts.drop_first().push(t));
        lemma_join_snoc(ts.drop_first(), t);
        assert(ts[0] + seq![' '] + (join_spaces(ts.drop_first()) + seq![' '] + t) =~= (ts[0]
            + seq![' '] + join_spaces(ts.drop_first())) + seq![' '] + t);
    }
}

/// Rejoins tokens into one line with single blanks between them.
pub fn join_tokens(v: &Vec<String>) -> (r: String)
    ensures
        r@ == join_spaces(tokens_view(v@)),
{
    let mut r = String::new();
    let mut i: usize = 0;
    proof {
        assert(tokens_view(v@.subrange(0, 0)) =~= Seq::<Seq<char>>::empty());
    }
    while i < v.len()
        invariant
            0 <= i <= v@.len(),
            r@ == join_spaces(tokens_view(v@.subrange(0, i as int))),
        decreases v@.len() - i,
    {
        proof {
            assert(v@.subrange(0, i + 1 as int) =~= v@.subrange(0, i as int).push(v@[i as int]));
            lemma_tokens_view_push(v@.subrange(0, i as int), v@[i as int]);
            lemma_join_snoc(tokens_view(v@.subrange(0, i as int)), v@[i as int]@);
        }
        if i > 0 {
            push_char(&mut r, ' ');
        }
        r.append(v[i].as_str());
        i = i + 1;
    }
    proof {
        assert(v@.subrange(0, v@.len() as int) =~= v@);
    }
    r
}

/// Splits `line` into shell-style words, or returns `None` when the line
/// ends inside a quotation or right after an unescaped backslash.
pub fn lex(line: &str) -> (r: Option<Vec<String>>)
    ensures
        r is Some <==> lex_spec(line@) is Some,
        r matches Some(v) ==> Some(tokens_view(v@)) == lex_spec(line@),
{
    let n = line.unicode_len();
    let mut tokens: Vec<String> = Vec::new();
    let mut cur: String = String::new();
    let mut mode = LexMode::Between;
    let mut i: usize = 0;
    proof {
        assert(line@.subrange(0, 0) =~= Seq::<char>::empty());
        assert(tokens_view(tokens@) =~= Seq::<Seq<char>>::empty());
    }
    while i < n
        invariant
            0 <= i <= n,
            n == line@.len(),
            lex_fold(line@.subrange(0, i as int)) == (LexState {
                tokens: tokens_view(tokens@),
                cur: cur@,
                mode,
            }),
        decreases n - i,
    {
        let c = line.get_char(i);
        proof {
            assert(line@.subrange(0, i + 1 as int) =~= line@.subrange(0, i as int).push(
                line@[i as int],
            ));
            lemma_lex_from_snoc(lex_init(), line@.subrange(0, i as int), line@[i as int]);
        }
        let ghost prev_tokens = tokens@;
        let ghost prev_cur = cur@;
        match mode {
            LexMode::Between => {
                if word_sep(c) {
                } else if c == '\'' {
                    mode = LexMode::Single;
                } else if c == '"' {
                    mode = LexMode::Double;
                } else if c == '\\' {
                    mode = LexMode::EscWord;
                } else {
                    push_char(&mut cur, c);
                    mode = LexMode::Word;
                }
            },
            LexMode::Word => {
                if word_sep(c) {
                    tokens.push(cur);
                    cur = String::new();
                    mode = LexMode::Between;
                    proof {
                        lemma_tokens_view_push(prev_tokens, tokens@.last());
                    }
                } else if c == '\'' {
                    mode = LexMode::Single;
                } else if c == '"' {
                    mode = LexMode::Double;
                } else if c == '\\' {
                    mode = LexMode::EscWord;
                } else {
                    push_char(&mut cur, c);
                }
            },
            LexMode::Single => {
                if c == '\'' {
                    mode = LexMode::Word;
                } else {
                    push_char(&mut cur, c);
                }
            },
            LexMode::Double => {
                if c == '"' {
                    mode = LexMode::Word;
                } else if c == '\\' {
                    mode = LexMode::EscDouble;
                } else {
                    push_char(&mut cur, c);
                }
            },
            LexMode::EscWord => {
                if c == '\n' {
                    mode = LexMode::Word;
                } else {
                    push_char(&mut cur, c);
                    mode = LexMode::Word;
                }
            },
            LexMode::EscDouble => {
                if c == '$' || c == '`' || c == '"' || c == '\\' {
                    push_char(&mut cur, c);
                    mode = LexMode::Double;
                } else if c == '\n' {
                    mode = LexMode::Double;
                } else {
                    push_char(&mut cur, '\\');
                    push_char(&mut cur, c);
                    mode = LexMode::Double;
                }
            },
        }
        i = i + 1;
    }
    proof {
        assert(line@.subrange(0, n as int) =~= line@);
    }
    match mode {
        LexMode::Between => Some(tokens),
        LexMode::Word => {
            let ghost prev_tokens = tokens@;
            tokens.push(cur);
            proof {
                lemma_tokens_view_push(prev_tokens, tokens@.last());
            }
            Some(tokens)
        },
        _ => None,
    }
}

} // verus!
