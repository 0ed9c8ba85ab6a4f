//! The error taxonomy of the shell core. Every per-line failure is one of
//! these variants; the driver turns each into a categorized user message and
//! keeps the loop running.

use vstd::prelude::*;

use crate::fmt::push_decimal;
use crate::fmt::push_quoted_list;
use crate::fmt::spec_decimal;
use crate::fmt::spec_quoted_list;
use crate::lex::tokens_view;

verus! {

/// One error of the shell core.
///
/// `ParseError` is a line whose quoting or escaping is malformed;
/// `CommandNotFound` a token the command tree cannot resolve;
/// `OptionBeforeCommand`, `DuplicateOption` and `InvalidOption` a malformed
/// invocation; `HttpError` and `IoError` a failed dereference of an option
/// value; `MissingOptions`, `PopulatedFlagOptions` and `ParseBoolError` a
/// failed mapping of an invocation onto a command's fields; `ApiHttpError`
/// and `ApiError` a
/// failure reported by the remote API; `AmbiguousName` a scope or command
/// name that would collide with a sibling at tree-construction time;
/// `Quiet` says that a message has already been shown and nothing further
/// is wanted.
#[derive(Debug, Clone, PartialEq, Eq)]
pub enum AppError {
    CommandNotFound(String),
    ParseError(String),
    InvalidInput,
    OptionBeforeCommand,
    DuplicateOption(String),
    InvalidOption(String),
    MissingOptions(Vec<String>),
    PopulatedFlagOptions(Vec<String>),
    ParseBoolError(String),
    HttpError(String),
    IoError(String),
    EntityNotFound(String),
    ApiHttpError { status: u16, message: String },
    ApiError(String),
    AmbiguousName(String),
    Quiet,
}

/// The user-visible message of each error.
pub open spec fn spec_message(e: AppError) -> Seq<char> {
    match e {
        AppError::CommandNotFound(m) => "Command not found: "@ + m@,
        AppError::ParseError(m) => "Error parsing arguments: "@ + m@,
        AppError::InvalidInput => "Invalid input"@,
        AppError::OptionBeforeCommand => "Option supplied before the command name"@,
        AppError::DuplicateOption(k) => "Duplicate option: "@ + k@,
        AppError::InvalidOption(t) => "Invalid option: "@ + t@,
        AppError::MissingOptions(v) => "Missing required options: "@ + spec_quoted_list(
            tokens_view(v@),
        ),
        AppError::PopulatedFlagOptions(v) => "Boolean flag options with value: "@
            + spec_quoted_list(tokens_view(v@)),
        AppError::ParseBoolError(m) => "Boolean parse error: "@ + m@,
        AppError::HttpError(m) => "HTTP Error: "@ + m@,
        AppError::IoError(m) => "IO error: "@ + m@,
        AppError::EntityNotFound(m) => "Entity not found: "@ + m@,
        AppError::ApiHttpError { status, message } => "API Error: Status "@ + spec_decimal(
            status as nat,
        ) + " - "@ + message@,
        AppError::ApiError(m) => "API Error: "@ + m@,
        AppError::AmbiguousName(m) => "Ambiguous name: "@ + m@,
        AppError::Quiet => "Quiet error"@,
    }
}

impl AppError {
    /// Renders the error as its user-visible message.
    pub fn to_message(&self) -> (r: String)
        ensures
            r@ == spec_message(*self),
    {
        match self {
            AppError::CommandNotFound(m) => {
                let mut s: String = "Command not found: ".to_owned();
                s.append(m.as_str());
                s
            },
            AppError::ParseError(m) => {
                let mut s: String = "Error parsing arguments: ".to_owned();
                s.append(m.as_str());
                s
            },
            AppError::InvalidInput => "Invalid input".to_owned(),
            AppError::OptionBeforeCommand => "Option supplied before the command name".to_owned(),
            AppError::DuplicateOption(k) => {
                let mut s: String = "Duplicate option: ".to_owned();
                s.append(k.as_str());
                s
            },
            AppError::InvalidOption(t) => {
                let mut s: String = "Invalid option: ".to_owned();
                s.append(t.as_str());
                s
            },
            AppError::MissingOptions(v) => {
                let mut s: String = "Missing required options: ".to_owned();
                push_quoted_list(&mut s, v);
                s
            },
            AppError::PopulatedFlagOptions(v) => {
                let mut s: String = "Boolean flag options with value: ".to_owned();
                push_quoted_list(&mut s, v);
                s
            },
            AppError::ParseBoolError(m) => {
                let mut s: String = "Boolean parse error: ".to_owned();
                s.append(m.as_str());
                s
            },
            AppError::HttpError(m) => {
                let mut s: String = "HTTP Error: ".to_owned();
                s.append(m.as_str());
                s
            },
            AppError::IoError(m) => {
                let mut s: String = "IO error: ".to_owned();
                s.append(m.as_str());
                s
            },
            AppError::EntityNotFound(m) => {
                let mut s: String = "Entity not found: ".to_owned();
                s.append(m.as_str());
                s
            },
            AppError::ApiHttpError { status, message } => {
                let mut s: String = "API Error: Status ".to_owned();
                push_decimal(&mut s, *status as u64);
                s.append(" - ");
                s.append(message.as_str());
                s
            },
            AppError::ApiError(m) => {
                let mut s: String = "API Error: ".to_owned();
                s.append(m.as_str());
                s
            },
            AppError::AmbiguousName(m) => {
                let mut s: String = "Ambiguous name: ".to_owned();
                s.append(m.as_str());
                s
            },
            AppError::Quiet => "Quiet error".to_owned(),
        }
    }
}

} // verus!
