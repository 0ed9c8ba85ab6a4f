use hubuum_cli::autocomplete::anchor_value;
use hubuum_cli::autocomplete::bool as bool_candidates;
use hubuum_cli::autocomplete::classes;
use hubuum_cli::autocomplete::namespaces;
use hubuum_cli::autocomplete::objects_from_class;
use hubuum_cli::autocomplete::objects_from_class_from;
use hubuum_cli::autocomplete::objects_from_class_to;
use hubuum_cli::autocomplete::CompletionPlan;
use hubuum_cli::commands::classname_or_pos;
use hubuum_cli::commands::parse_bool;
use hubuum_cli::commands::ClassNew;
use hubuum_cli::commands::ObjectNew;
use hubuum_cli::commands::username_or_pos;
use hubuum_cli::commands::ClassInfo;
use hubuum_cli::commands::ClassList;
use hubuum_cli::commands::FilterOperator;
use hubuum_cli::commands::ObjectInfo;
use hubuum_cli::commands::ObjectModify;
use hubuum_cli::commands::UserDelete;
use hubuum_cli::commands::UserInfo;
use hubuum_cli::commands::UserNew;
use hubuum_cli::errors::AppError;
use hubuum_cli::fmt::u64_to_string;
use hubuum_cli::password::generate_random_password;
use hubuum_cli::tokenizer::CommandTokenizer;

fn strings(v: &[&str]) -> Vec<String> {
    v.iter().map(|s| s.to_string()).collect()
}

fn empty_object_info() -> ObjectInfo {
    ObjectInfo { name: None, class: String::new(), data: None, jsonpath: None, rawjson: None }
}

#[test]
fn class_info_hydrates_from_options() {
    let tokens = CommandTokenizer::new("info -n MyClass", "info").unwrap();
    let q = ClassInfo { name: None }.new_from_tokens(&tokens).unwrap();
    assert_eq!(q.name.as_deref(), Some("MyClass"));
}

#[test]
fn class_info_long_alias() {
    let tokens = CommandTokenizer::new("info --name MyClass", "info").unwrap();
    let q = ClassInfo { name: None }.new_from_tokens(&tokens).unwrap();
    assert_eq!(q.name.as_deref(), Some("MyClass"));
}

#[test]
fn both_aliases_at_once_are_rejected() {
    let tokens = CommandTokenizer::new("info -n a --name b", "info").unwrap();
    let r = ClassInfo { name: None }.new_from_tokens(&tokens);
    assert_eq!(r.unwrap_err(), AppError::DuplicateOption("name".to_string()));
}

#[test]
fn missing_required_field_is_rejected() {
    let tokens = CommandTokenizer::new("info -n foo", "info").unwrap();
    let r = empty_object_info().new_from_tokens(&tokens);
    assert_eq!(r.unwrap_err(), AppError::MissingOptions(vec!["class".to_string()]));
}

#[test]
fn required_field_from_option() {
    let tokens = CommandTokenizer::new("info -n foo -c Host", "info").unwrap();
    let q = empty_object_info().new_from_tokens(&tokens).unwrap();
    assert_eq!(q.class, "Host");
    assert_eq!(q.name.as_deref(), Some("foo"));
    assert_eq!(q.data, None);
}

#[test]
fn flag_without_value_is_set() {
    let tokens = CommandTokenizer::new("info -c Host -j", "info").unwrap();
    let q = empty_object_info().new_from_tokens(&tokens).unwrap();
    assert_eq!(q.rawjson, Some(true));
}

#[test]
fn flag_with_value_is_rejected() {
    let tokens = CommandTokenizer::new("info -c Host -j yes", "info").unwrap();
    let r = empty_object_info().new_from_tokens(&tokens);
    assert_eq!(r.unwrap_err(), AppError::PopulatedFlagOptions(vec!["json".to_string()]));
}

#[test]
fn parse_bool_accepts_only_the_two_words() {
    assert_eq!(parse_bool("true"), Ok(true));
    assert_eq!(parse_bool("false"), Ok(false));
    assert_eq!(parse_bool("yes"), Err(AppError::ParseBoolError("yes".to_string())));
    assert_eq!(parse_bool("True"), Err(AppError::ParseBoolError("True".to_string())));
    assert_eq!(parse_bool(""), Err(AppError::ParseBoolError("".to_string())));
}

#[test]
fn class_new_hydrates_with_schema_and_validation() {
    let tokens = CommandTokenizer::new(
        "new -n MyClass -N ns1 -d 'My class' -s '{\"type\": \"object\"}' -v true",
        "new",
    )
    .unwrap();
    let q = ClassNew::default().new_from_tokens(&tokens).unwrap();
    assert_eq!(q.name, "MyClass");
    assert_eq!(q.namespace, "ns1");
    assert_eq!(q.description, "My class");
    assert_eq!(q.json_schema.as_deref(), Some("{\"type\": \"object\"}"));
    assert_eq!(q.validate_schema, Some(true));
}

#[test]
fn class_new_rejects_a_bad_boolean() {
    let tokens = CommandTokenizer::new("new -n C -N ns -d x -v maybe", "new").unwrap();
    let r = ClassNew::default().new_from_tokens(&tokens);
    assert_eq!(r.unwrap_err(), AppError::ParseBoolError("maybe".to_string()));
}

#[test]
fn object_new_hydrates_with_raw_data() {
    let tokens = CommandTokenizer::new(
        "new --name web01 --class Host --namespace prod --description 'a host' --data '{\"k\": 1}'",
        "new",
    )
    .unwrap();
    let q = ObjectNew::default().new_from_tokens(&tokens).unwrap();
    assert_eq!(q.name, "web01");
    assert_eq!(q.class, "Host");
    assert_eq!(q.namespace, "prod");
    assert_eq!(q.description, "a host");
    assert_eq!(q.data.as_deref(), Some("{\"k\": 1}"));
}

#[test]
fn object_new_requires_its_fields() {
    let tokens = CommandTokenizer::new("new -n web01", "new").unwrap();
    let r = ObjectNew::default().new_from_tokens(&tokens);
    assert_eq!(r.unwrap_err(), AppError::MissingOptions(vec!["class".to_string()]));
}

#[test]
fn object_modify_hydrates_all_fields() {
    let tokens = CommandTokenizer::new(
        "modify -n obj -c Host -r newname -N ns2 -d 'a desc' -D foo.bar=4",
        "modify",
    )
    .unwrap();
    let q = ObjectModify {
        name: String::new(),
        class: String::new(),
        rename: None,
        reclass: None,
        namespace: None,
        description: None,
        data: None,
    }
    .new_from_tokens(&tokens)
    .unwrap();
    assert_eq!(q.name, "obj");
    assert_eq!(q.class, "Host");
    assert_eq!(q.rename.as_deref(), Some("newname"));
    assert_eq!(q.reclass, None);
    assert_eq!(q.namespace.as_deref(), Some("ns2"));
    assert_eq!(q.description.as_deref(), Some("a desc"));
    assert_eq!(q.data.as_deref(), Some("foo.bar=4"));
}

#[test]
fn defaults_survive_when_not_supplied() {
    let tokens = CommandTokenizer::new("list", "list").unwrap();
    let q = ClassList { name: Some("kept".to_string()), description: None }
        .new_from_tokens(&tokens)
        .unwrap();
    assert_eq!(q.name.as_deref(), Some("kept"));
    assert_eq!(q.description, None);
}

#[test]
fn class_filters_use_equality() {
    let q = ClassList { name: Some("x".to_string()), description: Some("y".to_string()) };
    let filters = q.into_resource_filter();
    assert_eq!(filters.len(), 2);
    assert_eq!(filters[0].key, "name");
    assert_eq!(filters[0].value, "x");
    assert_eq!(filters[0].operator, FilterOperator::Equals);
    assert_eq!(filters[1].key, "description");
    assert_eq!(filters[1].value, "y");
}

#[test]
fn object_filters_use_icontains() {
    let mut q = empty_object_info();
    q.name = Some("web".to_string());
    let filters = q.into_resource_filter();
    assert_eq!(filters.len(), 1);
    assert_eq!(filters[0].key, "name");
    assert_eq!(filters[0].operator, FilterOperator::IContains { is_negated: false });
}

#[test]
fn empty_query_yields_no_filters() {
    assert!(ClassInfo { name: None }.into_resource_filter().is_empty());
    assert!(UserDelete { username: None }.into_resource_filter().is_empty());
}

#[test]
fn classname_falls_back_to_positional() {
    let tokens = CommandTokenizer::new("info MyClass", "info").unwrap();
    let q = ClassInfo { name: None };
    assert_eq!(classname_or_pos(&q, &tokens, 0).unwrap().as_deref(), Some("MyClass"));
}

#[test]
fn classname_prefers_the_option() {
    let tokens = CommandTokenizer::new("info pos0", "info").unwrap();
    let q = ClassInfo { name: Some("FromOption".to_string()) };
    assert_eq!(classname_or_pos(&q, &tokens, 0).unwrap().as_deref(), Some("FromOption"));
}

#[test]
fn classname_missing_everywhere_is_rejected() {
    let tokens = CommandTokenizer::new("info", "info").unwrap();
    let q = ClassInfo { name: None };
    let r = classname_or_pos(&q, &tokens, 0);
    assert_eq!(r.unwrap_err(), AppError::MissingOptions(vec!["name".to_string()]));
}

#[test]
fn username_missing_everywhere_is_rejected() {
    let tokens = CommandTokenizer::new("del", "del").unwrap();
    let q = UserDelete { username: None };
    let r = username_or_pos(&q, &tokens, 0);
    assert_eq!(r.unwrap_err(), AppError::MissingOptions(vec!["username".to_string()]));
}

#[test]
fn user_info_hydrates_timestamps_as_text() {
    let tokens = CommandTokenizer::new(
        "info -u alice -C '2024-01-01 00:00:00' --updated-at '2024-02-02 12:00:00'",
        "info",
    )
    .unwrap();
    let q = UserInfo::default().new_from_tokens(&tokens).unwrap();
    assert_eq!(q.username.as_deref(), Some("alice"));
    assert_eq!(q.created_at.as_deref(), Some("2024-01-01 00:00:00"));
    assert_eq!(q.updated_at.as_deref(), Some("2024-02-02 12:00:00"));
    let filters = q.into_resource_filter();
    assert_eq!(filters.len(), 3);
    assert_eq!(filters[0].key, "username");
    assert_eq!(filters[1].key, "created_at");
    assert_eq!(filters[1].value, "2024-01-01 00:00:00");
    assert_eq!(filters[2].key, "updated_at");
    assert!(filters.iter().all(|f| f.operator == FilterOperator::Equals));
}

#[test]
fn user_post_carries_a_fresh_password() {
    let u = UserNew { username: "alice".to_string(), email: None };
    let post = u.into_post();
    assert_eq!(post.username, "alice");
    assert_eq!(post.password.len(), 20);
    assert!(post.password.chars().all(|c| c.is_ascii_alphanumeric()));
}

#[test]
fn generated_passwords_are_alphanumeric() {
    let p = generate_random_password(64);
    assert_eq!(p.chars().count(), 64);
    assert!(p.chars().all(|c| c.is_ascii_alphanumeric()));
    assert_eq!(generate_random_password(0), "");
}

#[test]
fn bool_options_complete_to_the_boolean_words() {
    let candidates = bool_candidates("", &Vec::new());
    assert_eq!(candidates, strings(&["true", "false"]));
}

#[test]
fn class_and_namespace_completions_carry_the_prefix() {
    assert_eq!(
        classes("we", &Vec::new()),
        CompletionPlan::Classes { prefix: "we".to_string() }
    );
    assert_eq!(
        namespaces("", &Vec::new()),
        CompletionPlan::Namespaces { prefix: "".to_string() }
    );
}

#[test]
fn anchor_is_the_word_behind_the_key() {
    let parts = strings(&["object", "info", "--class", "Host", "-n", "web"]);
    assert_eq!(anchor_value(&parts, "--class").as_deref(), Some("Host"));
    assert_eq!(anchor_value(&parts, "--missing"), None);
    // A key in the last position anchors nothing.
    let tail = strings(&["object", "--class"]);
    assert_eq!(anchor_value(&tail, "--class"), None);
}

#[test]
fn object_completion_needs_its_anchor() {
    let parts = strings(&["object", "info", "--class", "Host"]);
    assert_eq!(
        objects_from_class("we", &parts),
        CompletionPlan::Objects { class_name: "Host".to_string(), prefix: "we".to_string() }
    );
    assert_eq!(objects_from_class("we", &strings(&["object", "info"])), CompletionPlan::NoCandidates);
    assert_eq!(
        objects_from_class_from("", &strings(&["x", "--class_from", "A"])),
        CompletionPlan::Objects { class_name: "A".to_string(), prefix: "".to_string() }
    );
    assert_eq!(
        objects_from_class_to("", &strings(&["x", "--class_to", "B"])),
        CompletionPlan::Objects { class_name: "B".to_string(), prefix: "".to_string() }
    );
}

#[test]
fn decimal_rendering() {
    assert_eq!(u64_to_string(0), "0");
    assert_eq!(u64_to_string(7), "7");
    assert_eq!(u64_to_string(1024), "1024");
    assert_eq!(u64_to_string(u64::MAX), "18446744073709551615");
}

#[test]
fn error_messages() {
    assert_eq!(
        AppError::CommandNotFound("x".to_string()).to_message(),
        "Command not found: x"
    );
    assert_eq!(AppError::InvalidInput.to_message(), "Invalid input");
    assert_eq!(
        AppError::MissingOptions(vec!["name".to_string(), "class".to_string()]).to_message(),
        "Missing required options: [\"name\", \"class\"]"
    );
    assert_eq!(
        AppError::PopulatedFlagOptions(vec!["json".to_string()]).to_message(),
        "Boolean flag options with value: [\"json\"]"
    );
    assert_eq!(
        AppError::ApiHttpError { status: 500, message: "boom".to_string() }.to_message(),
        "API Error: Status 500 - boom"
    );
    assert_eq!(AppError::IoError("gone".to_string()).to_message(), "IO error: gone");
    assert_eq!(AppError::ApiError("odd".to_string()).to_message(), "API Error: odd");
    assert_eq!(
        AppError::AmbiguousName("ns".to_string()).to_message(),
        "Ambiguous name: ns"
    );
    assert_eq!(
        AppError::ParseError("Parsing input failed".to_string()).to_message(),
        "Error parsing arguments: Parsing input failed"
    );
    assert_eq!(
        AppError::DuplicateOption("name".to_string()).to_message(),
        "Duplicate option: name"
    );
    assert_eq!(
        AppError::InvalidOption("--".to_string()).to_message(),
        "Invalid option: --"
    );
}
