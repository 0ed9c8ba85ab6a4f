//! The read-eval-print loop's decisions: the prompt and the categorization
//! of per-line errors into user-visible reports. The loop itself — reading
//! lines, running commands, printing — lives in the surrounding binary and
//! calls in here for every decision, so no error below the loop ever
//! terminates the process.

use vstd::prelude::*;

use crate::chars::push_char;
use crate::errors::spec_message;
use crate::errors::AppError;
use crate::fmt::push_decimal;
use crate::fmt::spec_decimal;

verus! {

/// How one per-line outcome is reported: not at all (a message was already
/// shown), as a warning, or as an error.
#[derive(Debug, Clone, PartialEq, Eq)]
pub enum Report {
    Silent,
    Warning(String),
    Error(String),
}

/// Turns one per-line error into its report: the quiet sentinel stays
/// silent, a missing entity and an unresolvable command word are warnings,
/// everything else is an error carrying the error's message.
pub fn categorize(err: &AppError) -> (r: Report)
    ensures
        match err {
            AppError::Quiet => r is Silent,
            AppError::EntityNotFound(m) => r matches Report::Warning(w) && w@ == m@,
            AppError::CommandNotFound(_) => r matches Report::Warning(w) && w@ == spec_message(
                *err,
            ),
            _ => r matches Report::Error(m) && m@ == spec_message(*err),
        },
{
    match err {
        AppError::Quiet => Report::Silent,
        AppError::EntityNotFound(m) => Report::Warning(m.clone()),
        AppError::CommandNotFound(_) => Report::Warning(err.to_message()),
        _ => Report::Error(err.to_message()),
    }
}

/// The interactive prompt: user, host and port, then `" > "`.
pub fn prompt(username: &str, hostname: &str, port: u16) -> (r: String)
    ensures
        r@ == username@ + seq!['@'] + hostname@ + seq![':'] + spec_decimal(port as nat) + seq![
            ' ',
            '>',
            ' ',
        ],
{
    let mut s: String = username.to_owned();
    push_char(&mut s, '@');
    s.append(hostname);
    push_char(&mut s, ':');
    push_decimal(&mut s, port as u64);
    push_char(&mut s, ' ');
    push_char(&mut s, '>');
    push_char(&mut s, ' ');
    proof {
        assert(s@ =~= username@ + seq!['@'] + hostname@ + seq![':'] + spec_decimal(port as nat)
            + seq![' ', '>', ' ']);
    }
    s
}

} // verus!
