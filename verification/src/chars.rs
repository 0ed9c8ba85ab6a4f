//! Character- and string-level helpers shared by the lexer, the tokenizer
//! and the dispatcher: the whitespace classifications the shell uses, string
//! trimming, and a single trusted primitive for appending one character to a
//! `String`.

use vstd::prelude::*;

verus! {

/// The characters that separate words when a line is lexed: blank, tab and
/// newline.
pub open spec fn is_word_sep(c: char) -> bool {
    c == ' ' || c == '\t' || c == '\n'
}

/// Executable counterpart of [`is_word_sep`].
pub fn word_sep(c: char) -> (r: bool)
    ensures
        r == is_word_sep(c),
{
    c == ' ' || c == '\t' || c == '\n'
}

/// The characters trimmed from the ends of resolved values and filter
/// patterns: the word separators plus carriage return.
pub open spec fn is_trim_space(c: char) -> bool {
    c == ' ' || c == '\t' || c == '\n' || c == '\r'
}

/// Executable counterpart of [`is_trim_space`].
pub fn trim_space(c: char) -> (r: bool)
    ensures
        r == is_trim_space(c),
{
    c == ' ' || c == '\t' || c == '\n' || c == '\r'
}

/// `s` without its trailing whitespace.
pub open spec fn spec_trim_end(s: Seq<char>) -> Seq<char>
    decreases s.len(),
{
    if s.len() > 0 && is_trim_space(s.last()) {
        spec_trim_end(s.drop_last())
    } else {
        s
    }
}

/// `s` without its leading whitespace.
pub open spec fn spec_trim_start(s: Seq<char>) -> Seq<char>
    decreases s.len(),
{
    if s.len() > 0 && is_trim_space(s.first()) {
        spec_trim_start(s.drop_first())
    } else {
        s
    }
}

/// `s` without leading and trailing whitespace.
pub open spec fn spec_trim(s: Seq<char>) -> Seq<char> {
    spec_trim_start(spec_trim_end(s))
}

/// A prefix free of trailing whitespace, with only whitespace behind it, is
/// what trimming yields.
proof fn lemma_trim_end_at(s: Seq<char>, j: int)
    requires
        0 <= j <= s.len(),
        forall|k: int| j <= k < s.len() ==> is_trim_space(#[trigger] s[k]),
        j == 0 || !is_trim_space(s[j - 1]),
    ensures
        spec_trim_end(s) == s.subrange(0, j),
    decreases s.len(),
{
    if s.len() > j {
        lemma_trim_end_at(s.drop_last(), j);
        assert(s.drop_last().subrange(0, j) =~= s.subrange(0, j));
    } else {
        assert(s.subrange(0, j) =~= s);
    }
}

/// A suffix free of leading whitespace, with only whitespace before it, is
/// what trimming yields.
proof fn lemma_trim_start_at(s: Seq<char>, i: int)
    requires
        0 <= i <= s.len(),
        forall|k: int| 0 <= k < i ==> is_trim_space(#[trigger] s[k]),
        i == s.len() || !is_trim_space(s[i]),
    ensures
        spec_trim_start(s) == s.subrange(i, s.len() as int),
    decreases s.len(),
{
    if i > 0 {
        lemma_trim_start_at(s.drop_first(), i - 1);
        assert(s.drop_first().subrange(i - 1, s.drop_first().len() as int) =~= s.subrange(
            i,
            s.len() as int,
        ));
    } else {
        assert(s.subrange(0, s.len() as int) =~= s);
    }
}

/// `s` with trailing whitespace removed.
pub fn trim_end_spaces(s: &str) -> (r: String)
    ensures
        r@ == spec_trim_end(s@),
{
    let n = s.unicode_len();
    let mut j = n;
    while j > 0 && trim_space(s.get_char(j - 1))
        invariant
            0 <= j <= n,
            n == s@.len(),
            forall|k: int| j <= k < n ==> is_trim_space(#[trigger] s@[k]),
        decreases j,
    {
        j = j - 1;
    }
    proof {
        lemma_trim_end_at(s@, j as int);
    }
    s.substring_char(0, j).to_owned()
}

/// `s` with leading and trailing whitespace removed.
pub fn trim_spaces(s: &str) -> (r: String)
    ensures
        r@ == spec_trim(s@),
{
    let n = s.unicode_len();
    let mut j = n;
    while j > 0 && trim_space(s.get_char(j - 1))
        invariant
            0 <= j <= n,
            n == s@.len(),
            forall|k: int| j <= k < n ==> is_trim_space(#[trigger] s@[k]),
        decreases j,
    {
        j = j - 1;
    }
    proof {
        lemma_trim_end_at(s@, j as int);
    }
    let mut i: usize = 0;
    while i < j && trim_space(s.get_char(i))
        invariant
            0 <= i <= j <= n,
            n == s@.len(),
            forall|k: int| 0 <= k < i ==> is_trim_space(#[trigger] s@[k]),
        decreases j - i,
    {
        i = i + 1;
    }
    proof {
        let trimmed = spec_trim_end(s@);
        assert(trimmed == s@.subrange(0, j as int));
        lemma_trim_start_at(trimmed, i as int);
        assert(trimmed.subrange(i as int, trimmed.len() as int) =~= s@.subrange(
            i as int,
            j as int,
        ));
    }
    s.substring_char(i, j).to_owned()
}

/// Relies on `String::push`: appends the given character to the end of the
/// string.
#[verifier::external_body]
pub fn push_char(s: &mut String, c: char)
    ensures
        final(s)@ == old(s)@.push(c),
{
    s.push(c)
}

} // verus!
