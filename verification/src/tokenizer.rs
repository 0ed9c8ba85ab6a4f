//! The command tokenizer: splits the lexed words of one invocation into the
//! scope path, the command word, the uniquely-keyed options and the ordered
//! positional arguments.
//!
//! Words before the first occurrence of the command name are scope-path
//! elements; a `-`-prefixed word there is rejected. After the command word,
//! bare words up to the first option are positionals, kept in encounter
//! order. From the first `-`-prefixed word on, words come in key/value
//! pairs: the key with its `-` or `--` prefix stripped, the following word
//! as its raw value (an absent value is the empty string). A zero-length
//! key and a key supplied twice are both rejected, as is a bare word where
//! a key is expected.
//!
//! The whole behaviour is the spec-level function [`spec_tokenize`]; the
//! executable constructors return exactly what it yields.

use vstd::prelude::*;

use crate::errors::AppError;
use crate::lex::lex;
use crate::lex::lex_spec;
use crate::lex::tokens_view;
use crate::value::outcome_fails;
use crate::value::spec_value_source;
use crate::value::value_source;
use crate::value::FetchOutcome;
use crate::value::ValueSource;
use crate::chars::spec_trim_end;
use crate::chars::trim_end_spaces;

verus! {

/// The view of one parsed invocation.
pub struct InvocationView {
    pub scopes: Seq<Seq<char>>,
    pub command: Seq<char>,
    pub options: Seq<(Seq<char>, Seq<char>)>,
    pub positionals: Seq<Seq<char>>,
}

/// The view of an option list: key/value pairs of character sequences.
pub open spec fn pairs_view(v: Seq<(String, String)>) -> Seq<(Seq<char>, Seq<char>)> {
    v.map_values(|p: (String, String)| (p.0@, p.1@))
}

/// Whether `opts` holds the key `k`.
pub open spec fn has_key(opts: Seq<(Seq<char>, Seq<char>)>, k: Seq<char>) -> bool {
    exists|j: int| 0 <= j < opts.len() && opts[j].0 == k
}

/// The value under the first occurrence of key `k`, scanning from `i`.
pub open spec fn spec_option_value(
    opts: Seq<(Seq<char>, Seq<char>)>,
    k: Seq<char>,
    i: int,
) -> Option<Seq<char>>
    decreases opts.len() - i,
{
    if i < 0 || i >= opts.len() {
        None
    } else if opts[i].0 == k {
        Some(opts[i].1)
    } else {
        spec_option_value(opts, k, i + 1)
    }
}

/// Whether both aliases of one option were supplied at once.
pub open spec fn alias_conflict(
    opts: Seq<(Seq<char>, Seq<char>)>,
    short: Seq<char>,
    long: Seq<char>,
) -> bool {
    has_key(opts, short) && has_key(opts, long)
}

/// The value supplied under either alias of one option: the one-letter
/// alias's first value when present, else the long alias's.
pub open spec fn alias_value(
    opts: Seq<(Seq<char>, Seq<char>)>,
    short: Seq<char>,
    long: Seq<char>,
) -> Option<Seq<char>> {
    if has_key(opts, short) {
        spec_option_value(opts, short, 0)
    } else if has_key(opts, long) {
        spec_option_value(opts, long, 0)
    } else {
        None
    }
}

/// Whether no key occurs twice in `opts`.
pub open spec fn keys_unique(opts: Seq<(Seq<char>, Seq<char>)>) -> bool {
    forall|j: int, l: int| 0 <= j < l < opts.len() ==> opts[j].0 != opts[l].0
}

/// A word that introduces an option key.
pub open spec fn dash_token(t: Seq<char>) -> bool {
    t.len() > 0 && t[0] == '-'
}

/// The option key inside a `-`- or `--`-prefixed word.
pub open spec fn strip_dashes(t: Seq<char>) -> Seq<char> {
    if t.len() >= 2 && t[0] == '-' && t[1] == '-' {
        t.subrange(2, t.len() as int)
    } else if t.len() >= 1 && t[0] == '-' {
        t.subrange(1, t.len() as int)
    } else {
        t
    }
}

/// What tokenizing yields: a parsed invocation or one of the rejections.
pub enum TokenizeResult {
    Parsed(InvocationView),
    OptionBeforeCommand,
    DuplicateOption(Seq<char>),
    InvalidOption(Seq<char>),
    StrayWord(Seq<char>),
}

/// The option phase: from `i` on, words are key/value pairs.
pub open spec fn spec_tokenize_options(
    toks: Seq<Seq<char>>,
    i: int,
    acc: InvocationView,
) -> TokenizeResult
    decreases toks.len() - i,
{
    if i < 0 || i >= toks.len() {
        TokenizeResult::Parsed(acc)
    } else {
        let t = toks[i];
        if !dash_token(t) {
            TokenizeResult::StrayWord(t)
        } else {
            let key = strip_dashes(t);
            if key.len() == 0 {
                TokenizeResult::InvalidOption(t)
            } else if has_key(acc.options, key) {
                TokenizeResult::DuplicateOption(key)
            } else if i + 1 < toks.len() {
                spec_tokenize_options(
                    toks,
                    i + 2,
                    InvocationView { options: acc.options.push((key, toks[i + 1])), ..acc },
                )
            } else {
                TokenizeResult::Parsed(
                    InvocationView { options: acc.options.push((key, Seq::empty())), ..acc },
                )
            }
        }
    }
}

/// The word phase: scope words, the command word, then positionals up to
/// the first option.
pub open spec fn spec_tokenize_words(
    toks: Seq<Seq<char>>,
    cmd: Seq<char>,
    i: int,
    acc: InvocationView,
    seen: bool,
) -> TokenizeResult
    decreases toks.len() - i,
{
    if i < 0 || i >= toks.len() {
        TokenizeResult::Parsed(acc)
    } else {
        let t = toks[i];
        if !seen {
            if t == cmd {
                spec_tokenize_words(toks, cmd, i + 1, InvocationView { command: t, ..acc }, true)
            } else if dash_token(t) {
                TokenizeResult::OptionBeforeCommand
            } else {
                spec_tokenize_words(
                    toks,
                    cmd,
                    i + 1,
                    InvocationView { scopes: acc.scopes.push(t), ..acc },
                    false,
                )
            }
        } else {
            if dash_token(t) {
                spec_tokenize_options(toks, i, acc)
            } else {
                spec_tokenize_words(
                    toks,
                    cmd,
                    i + 1,
                    InvocationView { positionals: acc.positionals.push(t), ..acc },
                    true,
                )
            }
        }
    }
}

/// The empty invocation every run starts from.
pub open spec fn empty_invocation() -> InvocationView {
    InvocationView {
        scopes: Seq::empty(),
        command: Seq::empty(),
        options: Seq::empty(),
        positionals: Seq::empty(),
    }
}

/// What tokenizing the words `toks` of one line against the command word
/// `cmd` yields.
pub open spec fn spec_tokenize(toks: Seq<Seq<char>>, cmd: Seq<char>) -> TokenizeResult {
    spec_tokenize_words(toks, cmd, 0, empty_invocation(), false)
}

/// How an executable outcome corresponds to the spec-level one: a parsed
/// invocation view for view, or the matching error.
pub open spec fn tokenize_result_matches(
    r: Result<CommandTokenizer, AppError>,
    s: TokenizeResult,
) -> bool {
    match r {
        Ok(t) => s == TokenizeResult::Parsed(t@),
        Err(e) => match e {
            AppError::OptionBeforeCommand => s is OptionBeforeCommand,
            AppError::DuplicateOption(k) => s == TokenizeResult::DuplicateOption(k@),
            AppError::InvalidOption(t) => s == TokenizeResult::InvalidOption(t@),
            AppError::InvalidInput => s is StrayWord,
            _ => false,
        },
    }
}

proof fn lemma_options_phase_keys_unique(toks: Seq<Seq<char>>, i: int, acc: InvocationView)
    requires
        keys_unique(acc.options),
    ensures
        spec_tokenize_options(toks, i, acc) matches TokenizeResult::Parsed(v) ==> keys_unique(
            v.options,
        ),
    decreases toks.len() - i,
{
    if 0 <= i < toks.len() {
        let t = toks[i];
        if dash_token(t) {
            let key = strip_dashes(t);
            if key.len() > 0 && !has_key(acc.options, key) {
                let value: Seq<char> = if i + 1 < toks.len() {
                    toks[i + 1]
                } else {
                    Seq::empty()
                };
                let pushed = acc.options.push((key, value));
                assert(keys_unique(pushed)) by {
                    assert(forall|j: int|
                        0 <= j < acc.options.len() ==> (#[trigger] acc.options[j]).0 != key);
                }
                if i + 1 < toks.len() {
                    lemma_options_phase_keys_unique(
                        toks,
                        i + 2,
                        InvocationView { options: pushed, ..acc },
                    );
                }
            }
        }
    }
}

proof fn lemma_word_phase_keys_unique(
    toks: Seq<Seq<char>>,
    cmd: Seq<char>,
    i: int,
    acc: InvocationView,
    seen: bool,
)
    requires
        keys_unique(acc.options),
    ensures
        spec_tokenize_words(toks, cmd, i, acc, seen) matches TokenizeResult::Parsed(v)
            ==> keys_unique(v.options),
    decreases toks.len() - i,
{
    if 0 <= i < toks.len() {
        let t = toks[i];
        if !seen {
            if t == cmd {
                lemma_word_phase_keys_unique(
                    toks,
                    cmd,
                    i + 1,
                    InvocationView { command: t, ..acc },
                    true,
                );
            } else if !dash_token(t) {
                lemma_word_phase_keys_unique(
                    toks,
                    cmd,
                    i + 1,
                    InvocationView { scopes: acc.scopes.push(t), ..acc },
                    false,
                );
            }
        } else {
            if dash_token(t) {
                lemma_options_phase_keys_unique(toks, i, acc);
            } else {
                lemma_word_phase_keys_unique(
                    toks,
                    cmd,
                    i + 1,
                    InvocationView { positionals: acc.positionals.push(t), ..acc },
                    true,
                );
            }
        }
    }
}

/// Law: an accepted invocation never carries the same option key twice; a
/// key supplied twice is rejected, never silently resolved to either value.
pub proof fn lemma_tokenize_keys_unique(toks: Seq<Seq<char>>, cmd: Seq<char>)
    ensures
        spec_tokenize(toks, cmd) matches TokenizeResult::Parsed(v) ==> keys_unique(v.options),
{
    lemma_word_phase_keys_unique(toks, cmd, 0, empty_invocation(), false);
}

/// Law: whatever the key and the two values, an invocation that supplies
/// one option key twice is rejected with that key's duplicate-option error.
pub proof fn lemma_duplicate_option_rejected(
    cmd: Seq<char>,
    k: Seq<char>,
    a: Seq<char>,
    b: Seq<char>,
)
    requires
        k.len() > 0,
    ensures
        spec_tokenize(seq![cmd, seq!['-', '-'] + k, a, seq!['-', '-'] + k, b], cmd)
            == TokenizeResult::DuplicateOption(k),
{
    let dd = seq!['-', '-'] + k;
    let toks = seq![cmd, dd, a, dd, b];
    assert(dd[0] == '-' && dd[1] == '-');
    assert(dd.subrange(2, dd.len() as int) =~= k);
    assert(strip_dashes(dd) == k);
    assert(dash_token(dd));
    let acc0 = empty_invocation();
    let acc1 = InvocationView { command: cmd, ..acc0 };
    assert(toks[0] == cmd);
    assert(spec_tokenize(toks, cmd) == spec_tokenize_words(toks, cmd, 1, acc1, true));
    assert(toks[1] == dd);
    assert(spec_tokenize_words(toks, cmd, 1, acc1, true) == spec_tokenize_options(toks, 1, acc1));
    assert(!has_key(acc1.options, k));
    let acc2 = InvocationView { options: acc1.options.push((k, toks[2])), ..acc1 };
    assert(spec_tokenize_options(toks, 1, acc1) == spec_tokenize_options(toks, 3, acc2));
    assert(toks[3] == dd);
    assert(has_key(acc2.options, k)) by {
        assert(acc2.options[0].0 == k);
    }
    assert(spec_tokenize_options(toks, 3, acc2) == TokenizeResult::DuplicateOption(k));
}

/// Law: tokenizing is a pure function of the words and the command name.
/// Two results that both satisfy the tokenizer's contract for the same
/// input carry identical invocations: the same scope path, command word,
/// options and positionals.
pub proof fn lemma_tokenize_deterministic(
    r1: Result<CommandTokenizer, AppError>,
    r2: Result<CommandTokenizer, AppError>,
    toks: Seq<Seq<char>>,
    cmd: Seq<char>,
)
    requires
        tokenize_result_matches(r1, spec_tokenize(toks, cmd)),
        tokenize_result_matches(r2, spec_tokenize(toks, cmd)),
    ensures
        r1 matches Ok(t1) ==> (r2 matches Ok(t2) && t1@ == t2@),
        r1 is Err ==> r2 is Err,
{
}

/// One parsed invocation: scope path, command word, uniquely-keyed options
/// and ordered positionals.
#[derive(Debug)]
pub struct CommandTokenizer {
    scopes: Vec<String>,
    command: String,
    options: Vec<(String, String)>,
    positionals: Vec<String>,
}

impl View for CommandTokenizer {
    type V = InvocationView;

    closed spec fn view(&self) -> InvocationView {
        InvocationView {
            scopes: tokens_view(self.scopes@),
            command: self.command@,
            options: pairs_view(self.options@),
            positionals: tokens_view(self.positionals@),
        }
    }
}

proof fn lemma_pairs_view_push(v: Seq<(String, String)>, p: (String, String))
    ensures
        pairs_view(v.push(p)) == pairs_view(v).push((p.0@, p.1@)),
{
    assert(pairs_view(v.push(p)) =~= pairs_view(v).push((p.0@, p.1@)));
}

/// Whether `t` is a `-`-prefixed word.
fn is_dash_token(t: &String) -> (r: bool)
    ensures
        r == dash_token(t@),
{
    t.unicode_len() > 0 && t.as_str().get_char(0) == '-'
}

/// Strips the `-` or `--` prefix off an option word.
fn strip_dashes_exec(t: &String) -> (r: String)
    ensures
        r@ == strip_dashes(t@),
{
    let n = t.unicode_len();
    let s = t.as_str();
    if n >= 2 && s.get_char(0) == '-' && s.get_char(1) == '-' {
        s.substring_char(2, n).to_owned()
    } else if n >= 1 && s.get_char(0) == '-' {
        s.substring_char(1, n).to_owned()
    } else {
        s.to_owned()
    }
}

/// Whether the option list already holds `k`.
fn contains_key(options: &Vec<(String, String)>, k: &String) -> (r: bool)
    ensures
        r == has_key(pairs_view(options@), k@),
{
    let mut j: usize = 0;
    while j < options.len()
        invariant
            0 <= j <= options@.len(),
            forall|l: int| 0 <= l < j ==> pairs_view(options@)[l].0 != k@,
        decreases options@.len() - j,
    {
        if options[j].0.eq(k) {
            proof {
                assert(pairs_view(options@)[j as int].0 == k@);
            }
            return true;
        }
        j = j + 1;
    }
    false
}

impl CommandTokenizer {
    /// Tokenizes the already-lexed words of one line against the resolved
    /// command word.
    pub fn from_tokens(tokens: &Vec<String>, cmd_name: &str) -> (r: Result<
        CommandTokenizer,
        AppError,
    >)
        ensures
            tokenize_result_matches(r, spec_tokenize(tokens_view(tokens@), cmd_name@)),
    {
        let ghost toks = tokens_view(tokens@);
        let ghost cmd = cmd_name@;
        let cmd_s: String = cmd_name.to_owned();
        let n = tokens.len();
        let mut scopes: Vec<String> = Vec::new();
        let mut command: String = String::new();
        let mut options: Vec<(String, String)> = Vec::new();
        let mut positionals: Vec<String> = Vec::new();
        let mut seen = false;
        let mut i: usize = 0;
        proof {
            assert(tokens_view(scopes@) =~= Seq::<Seq<char>>::empty());
            assert(pairs_view(options@) =~= Seq::<(Seq<char>, Seq<char>)>::empty());
        }
        let mut in_options = false;
        // Word phase: scopes, the command word, positionals.
        while i < n && !in_options
            invariant
                0 <= i <= n,
                n == toks.len(),
                toks == tokens_view(tokens@),
                cmd == cmd_s@,
                cmd == cmd_name@,
                !in_options ==> spec_tokenize(toks, cmd) == spec_tokenize_words(
                    toks,
                    cmd,
                    i as int,
                    InvocationView {
                        scopes: tokens_view(scopes@),
                        command: command@,
                        options: pairs_view(options@),
                        positionals: tokens_view(positionals@),
                    },
                    seen,
                ),
                in_options ==> spec_tokenize(toks, cmd) == spec_tokenize_options(
                    toks,
                    i as int,
                    InvocationView {
                        scopes: tokens_view(scopes@),
                        command: command@,
                        options: pairs_view(options@),
                        positionals: tokens_view(positionals@),
                    },
                ),
            decreases n - i, 1int - (if in_options { 1int } else { 0int }),
        {
            let ghost acc = InvocationView {
                scopes: tokens_view(scopes@),
                command: command@,
                options: pairs_view(options@),
                positionals: tokens_view(positionals@),
            };
            let t = &tokens[i];
            proof {
                assert(toks[i as int] == tokens@[i as int]@);
            }
            let ghost prev_scopes = scopes@;
            let ghost prev_pos = positionals@;
            if !seen {
                if t.eq(&cmd_s) {
                    command = t.clone();
                    seen = true;
                    i = i + 1;
                } else if is_dash_token(t) {
                    proof {
                        assert(spec_tokenize_words(toks, cmd, i as int, acc, false)
                            == TokenizeResult::OptionBeforeCommand);
                    }
                    return Err(AppError::OptionBeforeCommand);
                } else {
                    scopes.push(t.clone());
                    proof {
                        crate::lex::lemma_tokens_view_push(prev_scopes, scopes@.last());
                    }
                    i = i + 1;
                }
            } else {
                if is_dash_token(t) {
                    in_options = true;
                    proof {
                        assert(spec_tokenize_words(toks, cmd, i as int, acc, true)
                            == spec_tokenize_options(toks, i as int, acc));
                    }
                } else {
                    positionals.push(t.clone());
                    proof {
                        crate::lex::lemma_tokens_view_push(prev_pos, positionals@.last());
                    }
                    i = i + 1;
                }
            }
        }
        // Option phase: key/value pairs.
        while i < n
            invariant
                0 <= i <= n,
                n == toks.len(),
                toks == tokens_view(tokens@),
                cmd == cmd_name@,
                spec_tokenize(toks, cmd) == spec_tokenize_options(
                    toks,
                    i as int,
                    InvocationView {
                        scopes: tokens_view(scopes@),
                        command: command@,
                        options: pairs_view(options@),
                        positionals: tokens_view(positionals@),
                    },
                ),
            decreases n - i,
        {
            let ghost acc = InvocationView {
                scopes: tokens_view(scopes@),
                command: command@,
                options: pairs_view(options@),
                positionals: tokens_view(positionals@),
            };
            let t = &tokens[i];
            proof {
                assert(toks[i as int] == tokens@[i as int]@);
            }
            if !is_dash_token(t) {
                proof {
                    assert(spec_tokenize_options(toks, i as int, acc) == TokenizeResult::StrayWord(
                        t@,
                    ));
                }
                return Err(AppError::InvalidInput);
            }
            let key = strip_dashes_exec(t);
            if key.unicode_len() == 0 {
                proof {
                    assert(spec_tokenize_options(toks, i as int, acc)
                        == TokenizeResult::InvalidOption(t@));
                }
                return Err(AppError::InvalidOption(t.clone()));
            }
            if contains_key(&options, &key) {
                proof {
                    assert(spec_tokenize_options(toks, i as int, acc)
                        == TokenizeResult::DuplicateOption(key@));
                }
                return Err(AppError::DuplicateOption(key));
            }
            let ghost prev_options = options@;
            if i + 1 < n {
                let value = tokens[i + 1].clone();
                proof {
                    assert(toks[i + 1 as int] == tokens@[i + 1 as int]@);
                }
                options.push((key, value));
                proof {
                    lemma_pairs_view_push(prev_options, options@.last());
                }
                i = i + 2;
            } else {
                options.push((key, String::new()));
                proof {
                    lemma_pairs_view_push(prev_options, options@.last());
                }
                i = n;
            }
        }
        Ok(CommandTokenizer { scopes, command, options, positionals })
    }

    /// Lexes one raw line and tokenizes its words against the resolved
    /// command word. A line that does not lex is rejected as invalid input.
    pub fn new(input: &str, cmd_name: &str) -> (r: Result<CommandTokenizer, AppError>)
        ensures
            match lex_spec(input@) {
                Some(toks) => tokenize_result_matches(r, spec_tokenize(toks, cmd_name@)),
                None => r == Err::<CommandTokenizer, AppError>(AppError::InvalidInput),
            },
    {
        match lex(input) {
            Some(tokens) => Self::from_tokens(&tokens, cmd_name),
            None => Err(AppError::InvalidInput),
        }
    }

    /// The scope path consumed before the command word.
    pub fn get_scopes(&self) -> (r: &Vec<String>)
        ensures
            tokens_view(r@) == self@.scopes,
    {
        &self.scopes
    }

    /// The command word, or `CommandNotFound` when no command word was
    /// present in the invocation.
    pub fn get_command(&self) -> (r: Result<&str, AppError>)
        ensures
            match r {
                Ok(c) => c@ == self@.command && self@.command.len() > 0,
                Err(e) => (e matches AppError::CommandNotFound(s) && s@ == self@.command)
                    && self@.command.len() == 0,
            },
    {
        if self.command.as_str().unicode_len() == 0 {
            Err(AppError::CommandNotFound(self.command.clone()))
        } else {
            Ok(self.command.as_str())
        }
    }

    /// The options of the invocation, in encounter order.
    pub fn get_options(&self) -> (r: &Vec<(String, String)>)
        ensures
            pairs_view(r@) == self@.options,
    {
        &self.options
    }

    /// The positional arguments, in encounter order.
    pub fn get_positionals(&self) -> (r: &Vec<String>)
        ensures
            tokens_view(r@) == self@.positionals,
    {
        &self.positionals
    }

    /// How each option value, in order, is to be dereferenced: fetched,
    /// read from a file, or kept as it stands.
    pub fn resolution_sources(&self) -> (r: Vec<ValueSource>)
        ensures
            r@.len() == self@.options.len(),
            forall|j: int| 0 <= j < r@.len() ==> r@[j]@ == spec_value_source(self@.options[j].1),
    {
        let mut r: Vec<ValueSource> = Vec::new();
        let mut j: usize = 0;
        while j < self.options.len()
            invariant
                0 <= j <= self.options@.len(),
                r@.len() == j,
                forall|l: int|
                    0 <= l < j ==> r@[l]@ == spec_value_source(pairs_view(self.options@)[l].1),
            decreases self.options@.len() - j,
        {
            r.push(value_source(self.options[j].1.as_str()));
            j = j + 1;
        }
        r
    }

    /// Replaces each option value with the outcome of its dereference:
    /// fetched or read bodies are stored with trailing whitespace trimmed,
    /// values that needed no dereference stay as they are, and the first
    /// failure rejects the invocation with the matching error, leaving it
    /// unchanged.
    pub fn apply_resolved(&mut self, outcomes: &Vec<FetchOutcome>) -> (r: Result<(), AppError>)
        requires
            outcomes@.len() == old(self)@.options.len(),
        ensures
            final(self)@.scopes == old(self)@.scopes,
            final(self)@.command == old(self)@.command,
            final(self)@.positionals == old(self)@.positionals,
            match r {
                Ok(_) => {
                    &&& final(self)@.options.len() == old(self)@.options.len()
                    &&& forall|j: int|
                        0 <= j < outcomes@.len() ==> final(self)@.options[j].0 == old(
                            self,
                        )@.options[j].0
                    &&& forall|j: int|
                        0 <= j < outcomes@.len() ==> final(self)@.options[j].1 == (
                        match outcomes@[j] {
                            FetchOutcome::NotNeeded => old(self)@.options[j].1,
                            FetchOutcome::Body(b) => spec_trim_end(b@),
                            _ => old(self)@.options[j].1,
                        })
                    &&& forall|j: int|
                        0 <= j < outcomes@.len() ==> !outcome_fails(#[trigger] outcomes@[j])
                },
                Err(e) => {
                    &&& final(self)@.options == old(self)@.options
                    &&& exists|j: int|
                        {
                            &&& 0 <= j < outcomes@.len()
                            &&& (forall|l: int|
                                0 <= l < j ==> !outcome_fails(#[trigger] outcomes@[l]))
                            &&& #[trigger] outcome_fails(outcomes@[j])
                            &&& match outcomes@[j] {
                                FetchOutcome::NetworkFailed(m) => e matches AppError::HttpError(
                                    mm,
                                ) && mm@ == m@,
                                FetchOutcome::IoFailed(m) => e matches AppError::IoError(mm)
                                    && mm@ == m@,
                                _ => false,
                            }
                        }
                },
            },
    {
        let n = self.options.len();
        let mut resolved: Vec<(String, String)> = Vec::new();
        let mut j: usize = 0;
        while j < n
            invariant
                0 <= j <= n,
                n == self.options@.len(),
                n == outcomes@.len(),
                resolved@.len() == j,
                forall|l: int|
                    0 <= l < j ==> pairs_view(resolved@)[l].0 == pairs_view(self.options@)[l].0,
                forall|l: int|
                    0 <= l < j ==> pairs_view(resolved@)[l].1 == (match outcomes@[l] {
                        FetchOutcome::NotNeeded => pairs_view(self.options@)[l].1,
                        FetchOutcome::Body(b) => spec_trim_end(b@),
                        _ => pairs_view(self.options@)[l].1,
                    }),
                forall|l: int| 0 <= l < j ==> !outcome_fails(#[trigger] outcomes@[l]),
            decreases n - j,
        {
            let ghost prev = resolved@;
            let key = self.options[j].0.clone();
            match &outcomes[j] {
                FetchOutcome::NotNeeded => {
                    resolved.push((key, self.options[j].1.clone()));
                },
                FetchOutcome::Body(b) => {
                    resolved.push((key, trim_end_spaces(b.as_str())));
                },
                FetchOutcome::NetworkFailed(m) => {
                    proof {
                        assert(outcome_fails(outcomes@[j as int]));
                    }
                    return Err(AppError::HttpError(m.clone()));
                },
                FetchOutcome::IoFailed(m) => {
                    proof {
                        assert(outcome_fails(outcomes@[j as int]));
                    }
                    return Err(AppError::IoError(m.clone()));
                },
            }
            proof {
                lemma_pairs_view_push(prev, resolved@.last());
            }
            j = j + 1;
        }
        self.options = resolved;
        Ok(())
    }

    /// Whether the invocation supplied the option key `key`.
    pub fn has_option(&self, key: &str) -> (r: bool)
        ensures
            r == has_key(self@.options, key@),
    {
        let k: String = key.to_owned();
        contains_key(&self.options, &k)
    }

    /// The value supplied under the first occurrence of the option key
    /// `key`, if any.
    pub fn option_value(&self, key: &str) -> (r: Option<&String>)
        ensures
            r is Some <==> has_key(self@.options, key@),
            r matches Some(v) ==> spec_option_value(self@.options, key@, 0) == Some(v@) && exists|
                j: int,
            | 0 <= j < self@.options.len() && self@.options[j] == (key@, v@),
    {
        let k: String = key.to_owned();
        let mut j: usize = 0;
        while j < self.options.len()
            invariant
                0 <= j <= self.options@.len(),
                k@ == key@,
                forall|l: int| 0 <= l < j ==> pairs_view(self.options@)[l].0 != key@,
                spec_option_value(self@.options, key@, 0) == spec_option_value(
                    self@.options,
                    key@,
                    j as int,
                ),
            decreases self.options@.len() - j,
        {
            if self.options[j].0.eq(&k) {
                proof {
                    assert(self@.options[j as int] == (key@, self.options@[j as int].1@));
                }
                return Some(&self.options[j].1);
            }
            j = j + 1;
        }
        None
    }
}

} // verus!
