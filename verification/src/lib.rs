//! Core of an interactive command shell for a remote management API.
//!
//! The library covers the parts of the shell that do real parsing and
//! state-machine work: lexing a raw input line into shell-style words,
//! extracting the output-filter suffix, walking the hierarchical command
//! tree, splitting the words of an invocation into uniquely-keyed options
//! and ordered positionals, and deciding how a line is dispatched.
//! Everything that talks to the outside world (terminal, files, network,
//! the remote API itself) lives in the surrounding binary and exchanges
//! plain values with this library.

pub mod autocomplete;
pub mod chars;
pub mod commands;
pub mod dispatch;
pub mod errors;
pub mod filter;
pub mod fmt;
pub mod lex;
pub mod password;
pub mod repl;
pub mod tokenizer;
pub mod tree;
pub mod value;
