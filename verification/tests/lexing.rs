use hubuum_cli::lex::join_tokens;
use hubuum_cli::lex::lex;

fn words(v: &[&str]) -> Option<Vec<String>> {
    Some(v.iter().map(|s| s.to_string()).collect())
}

#[test]
fn lex_splits_on_whitespace() {
    assert_eq!(lex("class info -n foo"), words(&["class", "info", "-n", "foo"]));
    assert_eq!(lex("  a \t b \n c  "), words(&["a", "b", "c"]));
}

#[test]
fn lex_empty_line_yields_no_tokens() {
    assert_eq!(lex(""), words(&[]));
    assert_eq!(lex("   \t  "), words(&[]));
}

#[test]
fn lex_single_quotes_protect_everything() {
    assert_eq!(lex("a 'b c' d"), words(&["a", "b c", "d"]));
    assert_eq!(lex("'a\"b'"), words(&["a\"b"]));
    assert_eq!(lex("'a\\nb'"), words(&["a\\nb"]));
}

#[test]
fn lex_double_quotes_protect_spaces() {
    assert_eq!(lex("a \"b c\" d"), words(&["a", "b c", "d"]));
    assert_eq!(lex("\"a'b\""), words(&["a'b"]));
}

#[test]
fn lex_double_quote_escapes() {
    assert_eq!(lex("\"a\\\"b\""), words(&["a\"b"]));
    assert_eq!(lex("\"a\\$b\""), words(&["a$b"]));
    assert_eq!(lex("\"a\\\\b\""), words(&["a\\b"]));
    // Any other escaped character keeps its backslash inside double quotes.
    assert_eq!(lex("\"a\\nb\""), words(&["a\\nb"]));
    // An escaped newline inside double quotes is dropped.
    assert_eq!(lex("\"a\\\nb\""), words(&["ab"]));
}

#[test]
fn lex_backslash_escapes_outside_quotes() {
    assert_eq!(lex("a\\ b"), words(&["a b"]));
    assert_eq!(lex("a\\'b"), words(&["a'b"]));
    // An escaped newline outside quotes is dropped.
    assert_eq!(lex("a\\\nb"), words(&["ab"]));
}

#[test]
fn lex_adjacent_quoted_parts_merge() {
    assert_eq!(lex("a\"b\"c"), words(&["abc"]));
    assert_eq!(lex("a'b'\"c\""), words(&["abc"]));
}

#[test]
fn lex_empty_quotes_yield_empty_token() {
    assert_eq!(lex("\"\""), words(&[""]));
    assert_eq!(lex("''"), words(&[""]));
    assert_eq!(lex("a '' b"), words(&["a", "", "b"]));
}

#[test]
fn lex_unterminated_quote_fails() {
    assert_eq!(lex("a 'b"), None);
    assert_eq!(lex("a \"b"), None);
    assert_eq!(lex("\"a\\\""), None);
}

#[test]
fn lex_dangling_backslash_fails() {
    assert_eq!(lex("a\\"), None);
    assert_eq!(lex("\\"), None);
}

#[test]
fn lex_agrees_with_shlex() {
    let inputs = [
        "",
        "   ",
        "a b c",
        "  a \t b ",
        "class info -n foo",
        "'a b' c",
        "\"a b\" c",
        "a\"b\"c",
        "''",
        "\"\"",
        "\"a\\\"b\"",
        "\"a\\$b\"",
        "\"a\\nb\"",
        "\"a\\\nb\"",
        "a\\ b",
        "a\\\nb",
        "a 'b",
        "a \"b",
        "a\\",
        "object new --data '{\"key\": \"val\"}'",
        "x -d \"desc with 'quotes'\"",
        "odd\rchar",
    ];
    for input in inputs {
        assert_eq!(lex(input), shlex::split(input), "input: {:?}", input);
    }
}

#[test]
fn lex_rejoin_recovers_plain_tokens() {
    // The rejoin law on concrete values: lexing, joining with single
    // blanks and lexing again recovers the same tokens.
    let tokens = lex("  class \t info   -n foo ").unwrap();
    let joined = join_tokens(&tokens);
    assert_eq!(joined, "class info -n foo");
    assert_eq!(lex(&joined), Some(tokens));
}

#[test]
fn lex_handles_multibyte_characters() {
    assert_eq!(lex("naïve 'é ö' ß"), words(&["naïve", "é ö", "ß"]));
}

#[test]
fn join_tokens_empty_and_single() {
    assert_eq!(join_tokens(&vec![]), "");
    assert_eq!(join_tokens(&vec!["a".to_string()]), "a");
    assert_eq!(join_tokens(&vec!["a".to_string(), "b".to_string()]), "a b");
}
