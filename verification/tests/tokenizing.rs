use hubuum_cli::errors::AppError;
use hubuum_cli::tokenizer::CommandTokenizer;
use hubuum_cli::value::FetchOutcome;
use hubuum_cli::value::ValueSource;
use hubuum_cli::value::value_source;

fn options_of(t: &CommandTokenizer) -> Vec<(String, String)> {
    t.get_options().clone()
}

#[test]
fn tokenize_scopes_command_options_positionals() {
    let t = CommandTokenizer::new("ns list -n x", "list").unwrap();
    assert_eq!(t.get_scopes().as_slice(), ["ns".to_string()]);
    assert_eq!(t.get_command().unwrap(), "list");
    assert_eq!(options_of(&t), vec![("n".to_string(), "x".to_string())]);
    assert!(t.get_positionals().is_empty());
}

#[test]
fn tokenize_positionals_keep_order() {
    let t = CommandTokenizer::new("cmd one two three", "cmd").unwrap();
    assert!(t.get_scopes().is_empty());
    assert_eq!(
        t.get_positionals().as_slice(),
        ["one".to_string(), "two".to_string(), "three".to_string()]
    );
}

#[test]
fn tokenize_long_and_short_options() {
    let t = CommandTokenizer::new("cmd --name foo -d bar", "cmd").unwrap();
    assert_eq!(
        options_of(&t),
        vec![("name".to_string(), "foo".to_string()), ("d".to_string(), "bar".to_string())]
    );
}

#[test]
fn tokenize_missing_value_is_empty_string() {
    let t = CommandTokenizer::new("cmd --flag", "cmd").unwrap();
    assert_eq!(options_of(&t), vec![("flag".to_string(), "".to_string())]);
}

#[test]
fn tokenize_twice_is_identical() {
    let line = "ns list pos -n x --desc 'a b'";
    let a = CommandTokenizer::new(line, "list").unwrap();
    let b = CommandTokenizer::new(line, "list").unwrap();
    assert_eq!(a.get_scopes(), b.get_scopes());
    assert_eq!(a.get_command().unwrap(), b.get_command().unwrap());
    assert_eq!(options_of(&a), options_of(&b));
    assert_eq!(a.get_positionals(), b.get_positionals());
}

#[test]
fn tokenize_duplicate_option_rejected() {
    let r = CommandTokenizer::new("cmd --name a --name b", "cmd");
    assert_eq!(r.unwrap_err(), AppError::DuplicateOption("name".to_string()));
    let r = CommandTokenizer::new("cmd -n a -n b", "cmd");
    assert_eq!(r.unwrap_err(), AppError::DuplicateOption("n".to_string()));
}

#[test]
fn tokenize_option_before_command_rejected() {
    let r = CommandTokenizer::new("-n x cmd", "cmd");
    assert_eq!(r.unwrap_err(), AppError::OptionBeforeCommand);
}

#[test]
fn tokenize_bare_dashes_rejected() {
    let r = CommandTokenizer::new("cmd - x", "cmd");
    assert_eq!(r.unwrap_err(), AppError::InvalidOption("-".to_string()));
    let r = CommandTokenizer::new("cmd -- x", "cmd");
    assert_eq!(r.unwrap_err(), AppError::InvalidOption("--".to_string()));
}

#[test]
fn tokenize_stray_word_after_options_rejected() {
    let r = CommandTokenizer::new("cmd -n x stray", "cmd");
    assert_eq!(r.unwrap_err(), AppError::InvalidInput);
}

#[test]
fn tokenize_unlexable_line_rejected() {
    let r = CommandTokenizer::new("cmd 'open", "cmd");
    assert_eq!(r.unwrap_err(), AppError::InvalidInput);
}

#[test]
fn tokenize_command_word_repeated_becomes_positional() {
    let t = CommandTokenizer::new("list list", "list").unwrap();
    assert_eq!(t.get_command().unwrap(), "list");
    assert_eq!(t.get_positionals().as_slice(), ["list".to_string()]);
}

#[test]
fn tokenize_no_command_word() {
    let t = CommandTokenizer::new("alpha beta", "cmd").unwrap();
    assert!(t.get_command().is_err());
    assert_eq!(t.get_scopes().as_slice(), ["alpha".to_string(), "beta".to_string()]);
}

#[test]
fn option_lookup() {
    let t = CommandTokenizer::new("cmd -n x --desc y", "cmd").unwrap();
    assert!(t.has_option("n"));
    assert!(t.has_option("desc"));
    assert!(!t.has_option("name"));
    assert_eq!(t.option_value("n").unwrap(), "x");
    assert_eq!(t.option_value("desc").unwrap(), "y");
    assert!(t.option_value("missing").is_none());
}

#[test]
fn value_source_classification() {
    assert_eq!(value_source("plain"), ValueSource::Literal);
    assert_eq!(value_source("http://host/x"), ValueSource::Http);
    assert_eq!(value_source("https://host/x"), ValueSource::Http);
    assert_eq!(value_source("file:///tmp/x"), ValueSource::File("/tmp/x".to_string()));
    assert_eq!(value_source("file://rel"), ValueSource::File("rel".to_string()));
    assert_eq!(value_source("files://x"), ValueSource::Literal);
}

#[test]
fn resolution_sources_follow_option_order() {
    let t = CommandTokenizer::new("cmd -a plain -b file://p -c http://u", "cmd").unwrap();
    let sources = t.resolution_sources();
    assert_eq!(
        sources,
        vec![ValueSource::Literal, ValueSource::File("p".to_string()), ValueSource::Http]
    );
}

#[test]
fn apply_resolved_trims_fetched_body() {
    // A value read from a file containing "hello\n" resolves to "hello".
    let mut t = CommandTokenizer::new("cmd --data file:///somewhere", "cmd").unwrap();
    let r = t.apply_resolved(&vec![FetchOutcome::Body("hello\n".to_string())]);
    assert!(r.is_ok());
    assert_eq!(t.option_value("data").unwrap(), "hello");
}

#[test]
fn apply_resolved_keeps_literals_untrimmed() {
    let mut t = CommandTokenizer::new("cmd --data 'plain '", "cmd").unwrap();
    let r = t.apply_resolved(&vec![FetchOutcome::NotNeeded]);
    assert!(r.is_ok());
    assert_eq!(t.option_value("data").unwrap(), "plain ");
}

#[test]
fn apply_resolved_missing_file_is_io_error() {
    // A value naming a file that cannot be read fails with an I/O-kind
    // error and leaves the invocation unchanged.
    let mut t = CommandTokenizer::new("cmd --data file:///nonexistent", "cmd").unwrap();
    let r = t.apply_resolved(&vec![FetchOutcome::IoFailed("no such file".to_string())]);
    assert_eq!(r.unwrap_err(), AppError::IoError("no such file".to_string()));
    assert_eq!(t.option_value("data").unwrap(), "file:///nonexistent");
}

#[test]
fn apply_resolved_failed_fetch_is_network_error() {
    let mut t = CommandTokenizer::new("cmd --data http://down", "cmd").unwrap();
    let r = t.apply_resolved(&vec![FetchOutcome::NetworkFailed("timed out".to_string())]);
    assert_eq!(r.unwrap_err(), AppError::HttpError("timed out".to_string()));
}
