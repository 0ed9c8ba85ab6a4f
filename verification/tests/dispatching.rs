use hubuum_cli::dispatch::plan_line;
use hubuum_cli::dispatch::DispatchPlan;
use hubuum_cli::errors::AppError;
use hubuum_cli::filter::process_filter;
use hubuum_cli::repl::categorize;
use hubuum_cli::repl::prompt;
use hubuum_cli::repl::Report;
use hubuum_cli::tree::find_command;
use hubuum_cli::tree::CommandEntry;
use hubuum_cli::tree::CommandKind;
use hubuum_cli::tree::CommandTree;

fn entry(name: &str, kind: CommandKind) -> CommandEntry {
    CommandEntry { name: name.to_string(), kind, options: Vec::new(), positionals: Vec::new() }
}

/// root -> { scope "ns" -> { command "list" }, command "status" }
fn sample_tree() -> CommandTree {
    let mut tree = CommandTree::new();
    let ns = tree.add_scope(0, "ns").unwrap();
    tree.add_command(ns, entry("list", CommandKind::ObjectList)).unwrap();
    tree.add_command(0, entry("status", CommandKind::ClassInfo)).unwrap();
    tree
}

fn strings(v: &[&str]) -> Vec<String> {
    v.iter().map(|s| s.to_string()).collect()
}

#[test]
fn tree_walk_descends_scope_to_command() {
    let tree = sample_tree();
    let mut context = Vec::new();
    let m = find_command(&tree, &strings(&["ns", "list", "-n", "x"]), &mut context)
        .unwrap()
        .unwrap();
    assert_eq!(m.name, "list");
    assert_eq!(context, strings(&["ns"]));
}

#[test]
fn tree_walk_finds_root_command() {
    let tree = sample_tree();
    let mut context = Vec::new();
    let m = find_command(&tree, &strings(&["status"]), &mut context).unwrap().unwrap();
    assert_eq!(m.name, "status");
    assert!(context.is_empty());
}

#[test]
fn tree_walk_reports_unknown_token() {
    let tree = sample_tree();
    let mut context = Vec::new();
    let r = find_command(&tree, &strings(&["bogus"]), &mut context);
    assert_eq!(
        r.unwrap_err(),
        AppError::CommandNotFound("Command not found: bogus".to_string())
    );
}

#[test]
fn tree_walk_all_scopes_is_no_command() {
    let tree = sample_tree();
    let mut context = Vec::new();
    let r = find_command(&tree, &strings(&["ns"]), &mut context).unwrap();
    assert!(r.is_none());
    assert_eq!(context, strings(&["ns"]));
}

#[test]
fn tree_rejects_colliding_names() {
    let mut tree = sample_tree();
    assert!(matches!(tree.add_scope(0, "ns"), Err(AppError::AmbiguousName(_))));
    assert!(matches!(tree.add_scope(0, "status"), Err(AppError::AmbiguousName(_))));
    assert!(matches!(
        tree.add_command(0, entry("ns", CommandKind::ClassList)),
        Err(AppError::AmbiguousName(_))
    ));
    assert!(matches!(
        tree.add_command(0, entry("status", CommandKind::ClassList)),
        Err(AppError::AmbiguousName(_))
    ));
}

#[test]
fn completion_walks_scopes_and_lists_children() {
    let tree = sample_tree();
    let root = hubuum_cli::tree::walk_scopes(&tree, &Vec::new());
    let mut names = hubuum_cli::tree::completion_candidates(&tree, root, "");
    names.sort();
    assert_eq!(names, strings(&["ns", "status"]));
    assert_eq!(
        hubuum_cli::tree::completion_candidates(&tree, root, "s"),
        strings(&["status"])
    );
    let ns = hubuum_cli::tree::walk_scopes(&tree, &strings(&["ns"]));
    assert_eq!(hubuum_cli::tree::completion_candidates(&tree, ns, ""), strings(&["list"]));
    // A word that names no scope leaves the walk where it stands.
    assert_eq!(hubuum_cli::tree::walk_scopes(&tree, &strings(&["status"])), root);
}

#[test]
fn plan_resolves_scope_path_command_and_options() {
    let tree = sample_tree();
    match plan_line(&tree, "ns list -n x") {
        DispatchPlan::Execute { matched, context, invocation } => {
            assert_eq!(matched.name, "list");
            assert_eq!(context, strings(&["ns"]));
            assert_eq!(invocation.get_scopes().as_slice(), ["ns".to_string()]);
            assert_eq!(invocation.get_command().unwrap(), "list");
            assert_eq!(
                invocation.get_options().as_slice(),
                [("n".to_string(), "x".to_string())]
            );
        },
        other => panic!("unexpected plan: {:?}", other),
    }
}

#[test]
fn empty_line_is_a_no_op() {
    let tree = sample_tree();
    assert!(matches!(plan_line(&tree, ""), DispatchPlan::NoOp));
    assert!(matches!(plan_line(&tree, "   \t "), DispatchPlan::NoOp));
}

#[test]
fn long_and_short_help_select_help() {
    let tree = sample_tree();
    assert!(matches!(plan_line(&tree, "status --help"), DispatchPlan::Help { .. }));
    assert!(matches!(plan_line(&tree, "status -h"), DispatchPlan::Help { .. }));
    // Help wins whatever other options are present.
    assert!(matches!(plan_line(&tree, "ns list -n x --help y"), DispatchPlan::Help { .. }));
    assert!(matches!(plan_line(&tree, "ns list -h '' -n x"), DispatchPlan::Help { .. }));
    assert!(matches!(plan_line(&tree, "ns list -n x"), DispatchPlan::Execute { .. }));
}

#[test]
fn unknown_word_fails_the_plan() {
    let tree = sample_tree();
    match plan_line(&tree, "bogus") {
        DispatchPlan::Fail(e) => {
            assert_eq!(e, AppError::CommandNotFound("Command not found: bogus".to_string()));
        },
        other => panic!("unexpected plan: {:?}", other),
    }
}

#[test]
fn scopes_without_command_warn_not_found() {
    let tree = sample_tree();
    match plan_line(&tree, "ns") {
        DispatchPlan::NotFound(msg) => assert_eq!(msg, "Command not found: ns"),
        other => panic!("unexpected plan: {:?}", other),
    }
}

#[test]
fn unlexable_line_fails_as_parse_error() {
    let tree = sample_tree();
    match plan_line(&tree, "status 'open") {
        DispatchPlan::Fail(e) => {
            assert_eq!(e, AppError::ParseError("Parsing input failed".to_string()));
        },
        other => panic!("unexpected plan: {:?}", other),
    }
}

#[test]
fn duplicate_option_fails_the_plan() {
    let tree = sample_tree();
    match plan_line(&tree, "status --name a --name b") {
        DispatchPlan::Fail(e) => {
            assert_eq!(e, AppError::DuplicateOption("name".to_string()));
        },
        other => panic!("unexpected plan: {:?}", other),
    }
}

#[test]
fn filter_suffix_is_stripped_before_lexing() {
    let (line, filter) = process_filter("list | !error");
    assert_eq!(line, "list");
    let filter = filter.unwrap();
    assert_eq!(filter.pattern, "error");
    assert!(filter.invert);
}

#[test]
fn filter_without_negation() {
    let (line, filter) = process_filter("ns list -n x | warn");
    assert_eq!(line, "ns list -n x");
    let filter = filter.unwrap();
    assert_eq!(filter.pattern, "warn");
    assert!(!filter.invert);
}

#[test]
fn no_filter_leaves_line_untouched() {
    let (line, filter) = process_filter("  list  ");
    assert_eq!(line, "  list  ");
    assert!(filter.is_none());
}

#[test]
fn filter_with_spaced_negation() {
    let (line, filter) = process_filter("list | !  error  ");
    assert_eq!(line, "list");
    let filter = filter.unwrap();
    assert_eq!(filter.pattern, "error");
    assert!(filter.invert);
}

#[test]
fn text_behind_second_bar_is_ignored() {
    let (line, filter) = process_filter("list | a | b");
    assert_eq!(line, "list");
    assert_eq!(filter.unwrap().pattern, "a");
}

#[test]
fn categorize_reports() {
    assert_eq!(categorize(&AppError::Quiet), Report::Silent);
    assert_eq!(
        categorize(&AppError::EntityNotFound("user x".to_string())),
        Report::Warning("user x".to_string())
    );
    assert_eq!(
        categorize(&AppError::CommandNotFound("bogus".to_string())),
        Report::Warning("Command not found: bogus".to_string())
    );
    assert_eq!(
        categorize(&AppError::HttpError("down".to_string())),
        Report::Error("HTTP Error: down".to_string())
    );
    assert_eq!(
        categorize(&AppError::ApiHttpError { status: 404, message: "missing".to_string() }),
        Report::Error("API Error: Status 404 - missing".to_string())
    );
}

#[test]
fn prompt_shows_user_host_and_port() {
    assert_eq!(prompt("alice", "api.example.org", 8080), "alice@api.example.org:8080 > ");
}
