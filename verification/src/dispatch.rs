//! The dispatcher: turns one raw line into a plan. The line is lexed, the
//! command tree walked, the remaining words tokenized, and a help request
//! recognized; the surrounding binary carries the plan out. An empty or
//! whitespace-only line is a no-op: no error, no output.

use vstd::prelude::*;

use crate::errors::AppError;
use crate::lex::join_spaces;
use crate::lex::join_tokens;
use crate::lex::lex;
use crate::lex::lex_spec;
use crate::lex::tokens_view;
use crate::tokenizer::has_key;
use crate::tokenizer::spec_tokenize;
use crate::tokenizer::tokenize_result_matches;
use crate::tokenizer::CommandTokenizer;
use crate::tokenizer::TokenizeResult;
use crate::tree::find_command;
use crate::tree::spec_walk;
use crate::tree::CommandMatch;
use crate::tree::CommandTree;
use crate::tree::WalkResult;

verus! {

/// The option key that asks for help.
pub open spec fn help_key() -> Seq<char> {
    seq!['h', 'e', 'l', 'p']
}

/// The one-letter alias of the help key.
pub open spec fn h_key() -> Seq<char> {
    seq!['h']
}

/// What a dispatched line asks for: nothing (an empty line), a warning that
/// no word named a command, a per-line failure, the help of the matched
/// command, or its execution with the parsed invocation.
#[derive(Debug)]
pub enum DispatchPlan {
    NoOp,
    NotFound(String),
    Fail(AppError),
    Help { matched: CommandMatch, context: Vec<String>, invocation: CommandTokenizer },
    Execute { matched: CommandMatch, context: Vec<String>, invocation: CommandTokenizer },
}

/// How a plan corresponds to the line: exactly one case per stage of the
/// pipeline.
pub open spec fn plan_matches(r: DispatchPlan, line: Seq<char>, tree: CommandTree) -> bool {
    match lex_spec(line) {
        None => r matches DispatchPlan::Fail(e) && (e matches AppError::ParseError(m) && m@
            == "Parsing input failed"@),
        Some(toks) => if toks.len() == 0 {
            r is NoOp
        } else {
            match spec_walk(tree.nodes@, 0, toks, 0) {
                WalkResult::NoCommand => r matches DispatchPlan::NotFound(msg) && msg@
                    == "Command not found: "@ + join_spaces(toks),
                WalkResult::Miss { consumed, token } => r matches DispatchPlan::Fail(e) && (
                e matches AppError::CommandNotFound(m) && m@ == "Command not found: "@ + token),
                WalkResult::Found { consumed, node, cmd } => {
                    let name = toks[consumed];
                    match spec_tokenize(toks, name) {
                        TokenizeResult::Parsed(v) => {
                            if has_key(v.options, help_key()) || has_key(v.options, h_key()) {
                                r matches DispatchPlan::Help { matched, context, invocation }
                                    && matched.node == node && matched.cmd == cmd && matched.name@
                                    == name && invocation@ == v && tokens_view(context@)
                                    == toks.subrange(0, consumed)
                            } else {
                                r matches DispatchPlan::Execute { matched, context, invocation }
                                    && matched.node == node && matched.cmd == cmd && matched.name@
                                    == name && invocation@ == v && tokens_view(context@)
                                    == toks.subrange(0, consumed)
                            }
                        },
                        _ => r matches DispatchPlan::Fail(e) && tokenize_result_matches(
                            Err(e),
                            spec_tokenize(toks, name),
                        ),
                    }
                },
            }
        },
    }
}

/// Plans one line: lexes it, walks the command tree, tokenizes the
/// invocation against the matched command word, and selects help when the
/// invocation carries a `help` or `h` option key, whatever else it holds.
pub fn plan_line(tree: &CommandTree, line: &str) -> (r: DispatchPlan)
    requires
        tree.wf(),
    ensures
        plan_matches(r, line@, *tree),
{
    let parts = match lex(line) {
        None => {
            return DispatchPlan::Fail(AppError::ParseError("Parsing input failed".to_owned()));
        },
        Some(p) => p,
    };
    if parts.len() == 0 {
        return DispatchPlan::NoOp;
    }
    let mut context: Vec<String> = Vec::new();
    let matched = match find_command(tree, &parts, &mut context) {
        Err(e) => {
            return DispatchPlan::Fail(e);
        },
        Ok(None) => {
            let joined = join_tokens(&parts);
            let mut msg: String = "Command not found: ".to_owned();
            msg.append(joined.as_str());
            return DispatchPlan::NotFound(msg);
        },
        Ok(Some(m)) => m,
    };
    let ghost toks = tokens_view(parts@);
    let ghost consumed = spec_walk(tree.nodes@, 0, toks, 0)->Found_consumed;
    let invocation = match CommandTokenizer::new(line, matched.name.as_str()) {
        Err(e) => {
            return DispatchPlan::Fail(e);
        },
        Ok(inv) => inv,
    };
    proof {
        reveal_strlit("help");
        reveal_strlit("h");
        assert("help"@ =~= help_key());
        assert("h"@ =~= h_key());
        crate::tree::lemma_walk_found_bounds(tree.nodes@, 0, toks, 0);
        assert(context@ =~= parts@.subrange(0, consumed));
        assert(tokens_view(context@) =~= toks.subrange(0, consumed));
    }
    if invocation.has_option("help") || invocation.has_option("h") {
        DispatchPlan::Help { matched, context, invocation }
    } else {
        DispatchPlan::Execute { matched, context, invocation }
    }
}

} // verus!
