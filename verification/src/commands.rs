//! The command structs and the mapping of a parsed invocation onto their
//! fields. Every option is known under a one-letter and a long alias; a
//! required field must be supplied unless it already carries a value, a
//! flag takes no value, and a field supplied under both aliases at once is
//! rejected. Each struct also renders itself as the query filters its
//! remote lookup uses; the lookups themselves happen outside.

use vstd::prelude::*;

use crate::errors::AppError;
use crate::lex::tokens_view;
use crate::tokenizer::alias_conflict;
use crate::tokenizer::alias_value;
use crate::tokenizer::CommandTokenizer;

verus! {

/// The view of an optional text field.
pub open spec fn opt_view(o: Option<String>) -> Option<Seq<char>> {
    match o {
        Some(s) => Some(s@),
        None => None,
    }
}

/// Whether a required text field cannot be filled: its aliases conflict or
/// neither is supplied while the current value is empty.
pub open spec fn req_fails(
    o: Seq<(Seq<char>, Seq<char>)>,
    s: Seq<char>,
    l: Seq<char>,
    cur: Seq<char>,
) -> bool {
    alias_conflict(o, s, l) || (alias_value(o, s, l) is None && cur.len() == 0)
}

/// What a required text field holds: the supplied value, or the current one.
pub open spec fn req_value(
    o: Seq<(Seq<char>, Seq<char>)>,
    s: Seq<char>,
    l: Seq<char>,
    cur: Seq<char>,
) -> Seq<char> {
    match alias_value(o, s, l) {
        Some(v) => v,
        None => cur,
    }
}

/// Whether an optional text field is rejected: only when its aliases
/// conflict.
pub open spec fn opt_fails(o: Seq<(Seq<char>, Seq<char>)>, s: Seq<char>, l: Seq<char>) -> bool {
    alias_conflict(o, s, l)
}

/// What an optional text field holds: the supplied value, or the current
/// one.
pub open spec fn opt_value(
    o: Seq<(Seq<char>, Seq<char>)>,
    s: Seq<char>,
    l: Seq<char>,
    cur: Option<Seq<char>>,
) -> Option<Seq<char>> {
    match alias_value(o, s, l) {
        Some(v) => Some(v),
        None => cur,
    }
}

/// Whether a flag is rejected: its aliases conflict or it was supplied with
/// a value.
pub open spec fn flag_fails(o: Seq<(Seq<char>, Seq<char>)>, s: Seq<char>, l: Seq<char>) -> bool {
    alias_conflict(o, s, l) || (match alias_value(o, s, l) {
        Some(v) => v.len() > 0,
        None => false,
    })
}

/// What a flag holds: set when supplied, else the current value.
pub open spec fn flag_value(
    o: Seq<(Seq<char>, Seq<char>)>,
    s: Seq<char>,
    l: Seq<char>,
    cur: Option<bool>,
) -> Option<bool> {
    if alias_value(o, s, l) is Some {
        Some(true)
    } else {
        cur
    }
}

/// The word `true`.
pub open spec fn true_word() -> Seq<char> {
    seq!['t', 'r', 'u', 'e']
}

/// The word `false`.
pub open spec fn false_word() -> Seq<char> {
    seq!['f', 'a', 'l', 's', 'e']
}

/// The boolean a value spells, when it spells one exactly.
pub open spec fn spec_bool_of(s: Seq<char>) -> Option<bool> {
    if s == true_word() {
        Some(true)
    } else if s == false_word() {
        Some(false)
    } else {
        None
    }
}

/// Parses exactly the words `true` and `false`; anything else is a boolean
/// parse error carrying the value.
pub fn parse_bool(s: &str) -> (r: Result<bool, AppError>)
    ensures
        match spec_bool_of(s@) {
            Some(b) => r matches Ok(rb) && rb == b,
            None => r matches Err(e) && (e matches AppError::ParseBoolError(m) && m@ == s@),
        },
{
    proof {
        reveal_strlit("true");
        reveal_strlit("false");
        assert("true"@ =~= true_word());
        assert("false"@ =~= false_word());
    }
    let owned: String = s.to_owned();
    if owned.eq(&"true".to_owned()) {
        Ok(true)
    } else if owned.eq(&"false".to_owned()) {
        Ok(false)
    } else {
        Err(AppError::ParseBoolError(owned))
    }
}

/// Whether a boolean-valued field is rejected: its aliases conflict or the
/// supplied value spells no boolean.
pub open spec fn bool_fails(o: Seq<(Seq<char>, Seq<char>)>, s: Seq<char>, l: Seq<char>) -> bool {
    alias_conflict(o, s, l) || (match alias_value(o, s, l) {
        Some(v) => spec_bool_of(v) is None,
        None => false,
    })
}

/// What a boolean-valued field holds: the parsed value, or the current one.
pub open spec fn bool_value(
    o: Seq<(Seq<char>, Seq<char>)>,
    s: Seq<char>,
    l: Seq<char>,
    cur: Option<bool>,
) -> Option<bool> {
    match alias_value(o, s, l) {
        Some(v) => spec_bool_of(v),
        None => cur,
    }
}

/// The value supplied under either alias of one option: the one-letter
/// alias's value when present, else the long alias's. Both at once are
/// rejected as a duplicate.
fn field_text(tokens: &CommandTokenizer, short: &str, long: &str) -> (r: Result<
    Option<String>,
    AppError,
>)
    ensures
        match r {
            Ok(v) => !alias_conflict(tokens@.options, short@, long@) && opt_view(v) == alias_value(
                tokens@.options,
                short@,
                long@,
            ),
            Err(e) => alias_conflict(tokens@.options, short@, long@) && (
            e matches AppError::DuplicateOption(k) && k@ == long@),
        },
{
    let s_has = tokens.has_option(short);
    let l_has = tokens.has_option(long);
    if s_has && l_has {
        return Err(AppError::DuplicateOption(long.to_owned()));
    }
    if s_has {
        match tokens.option_value(short) {
            Some(v) => Ok(Some(v.clone())),
            None => Ok(None),
        }
    } else if l_has {
        match tokens.option_value(long) {
            Some(v) => Ok(Some(v.clone())),
            None => Ok(None),
        }
    } else {
        Ok(None)
    }
}

/// Fills an optional text field: the supplied value, or the field as it
/// stands.
fn field_optional(tokens: &CommandTokenizer, short: &str, long: &str, cur: &Option<String>) -> (r:
    Result<Option<String>, AppError>)
    ensures
        match r {
            Ok(v) => !opt_fails(tokens@.options, short@, long@) && opt_view(v) == opt_value(
                tokens@.options,
                short@,
                long@,
                opt_view(*cur),
            ),
            Err(e) => opt_fails(tokens@.options, short@, long@) && (
            e matches AppError::DuplicateOption(k) && k@ == long@),
        },
{
    match field_text(tokens, short, long) {
        Ok(Some(v)) => Ok(Some(v)),
        Ok(None) => Ok(cur.clone()),
        Err(e) => Err(e),
    }
}

/// Fills a required text field: the supplied value, the field as it stands,
/// or, when both are absent (the field is empty), a missing-options error
/// naming the long alias.
fn field_required(tokens: &CommandTokenizer, short: &str, long: &str, cur: &String) -> (r: Result<
    String,
    AppError,
>)
    ensures
        match r {
            Ok(v) => !req_fails(tokens@.options, short@, long@, cur@) && v@ == req_value(
                tokens@.options,
                short@,
                long@,
                cur@,
            ),
            Err(e) => req_fails(tokens@.options, short@, long@, cur@) && (alias_conflict(
                tokens@.options,
                short@,
                long@,
            )
                ==> (e matches AppError::DuplicateOption(k) && k@ == long@)) && (!alias_conflict(
                tokens@.options,
                short@,
                long@,
            ) ==> (e matches AppError::MissingOptions(ks) && tokens_view(ks@) == seq![long@])),
        },
{
    match field_text(tokens, short, long) {
        Ok(Some(v)) => Ok(v),
        Ok(None) => {
            if cur.as_str().unicode_len() == 0 {
                let mut ks: Vec<String> = Vec::new();
                ks.push(long.to_owned());
                proof {
                    assert(tokens_view(ks@) =~= seq![long@]);
                }
                Err(AppError::MissingOptions(ks))
            } else {
                Ok(cur.clone())
            }
        },
        Err(e) => Err(e),
    }
}

/// Fills a flag: set when supplied without a value, rejected when supplied
/// with one, else the field as it stands.
fn field_flag(tokens: &CommandTokenizer, short: &str, long: &str, cur: &Option<bool>) -> (r:
    Result<Option<bool>, AppError>)
    ensures
        match r {
            Ok(v) => !flag_fails(tokens@.options, short@, long@) && v == flag_value(
                tokens@.options,
                short@,
                long@,
                *cur,
            ),
            Err(e) => flag_fails(tokens@.options, short@, long@) && (alias_conflict(
                tokens@.options,
                short@,
                long@,
            )
                ==> (e matches AppError::DuplicateOption(k) && k@ == long@)) && (!alias_conflict(
                tokens@.options,
                short@,
                long@,
            ) ==> (e matches AppError::PopulatedFlagOptions(ks) && tokens_view(ks@) == seq![
                long@,
            ])),
        },
{
    match field_text(tokens, short, long) {
        Ok(Some(v)) => {
            if v.as_str().unicode_len() == 0 {
                Ok(Some(true))
            } else {
                let mut ks: Vec<String> = Vec::new();
                ks.push(long.to_owned());
                proof {
                    assert(tokens_view(ks@) =~= seq![long@]);
                }
                Err(AppError::PopulatedFlagOptions(ks))
            }
        },
        Ok(None) => Ok(*cur),
        Err(e) => Err(e),
    }
}

/// Fills a boolean-valued field: the supplied value parsed as a boolean,
/// or the field as it stands.
fn field_bool(tokens: &CommandTokenizer, short: &str, long: &str, cur: &Option<bool>) -> (r:
    Result<Option<bool>, AppError>)
    ensures
        match r {
            Ok(v) => !bool_fails(tokens@.options, short@, long@) && v == bool_value(
                tokens@.options,
                short@,
                long@,
                *cur,
            ),
            Err(e) => bool_fails(tokens@.options, short@, long@) && (alias_conflict(
                tokens@.options,
                short@,
                long@,
            )
                ==> (e matches AppError::DuplicateOption(k) && k@ == long@)) && (!alias_conflict(
                tokens@.options,
                short@,
                long@,
            ) ==> e is ParseBoolError),
        },
{
    match field_text(tokens, short, long) {
        Ok(Some(v)) => match parse_bool(v.as_str()) {
            Ok(b) => Ok(Some(b)),
            Err(e) => Err(e),
        },
        Ok(None) => Ok(*cur),
        Err(e) => Err(e),
    }
}

/// How one query filter compares its value.
#[derive(Debug, Clone, Copy, PartialEq, Eq, Structural)]
pub enum FilterOperator {
    Equals,
    IContains { is_negated: bool },
    StartsWith { is_negated: bool },
}

/// One filter of a remote lookup: a key, the value looked for, and how the
/// two are compared.
#[derive(Debug, Clone, PartialEq, Eq)]
pub struct QueryFilter {
    pub key: String,
    pub value: String,
    pub operator: FilterOperator,
}

/// Creates a class: name, namespace and description, with an optional JSON
/// schema and whether objects are validated against it. The schema travels
/// as raw text; reading it as JSON belongs to the remote-client
/// collaborator.
#[derive(Debug, Clone, PartialEq, Eq)]
pub struct ClassNew {
    pub name: String,
    pub namespace: String,
    pub description: String,
    pub json_schema: Option<String>,
    pub validate_schema: Option<bool>,
}

/// Creates an object in a class: name, class, namespace and description,
/// with optional JSON data carried as raw text.
#[derive(Debug, Clone, PartialEq, Eq)]
pub struct ObjectNew {
    pub name: String,
    pub class: String,
    pub namespace: String,
    pub description: String,
    pub data: Option<String>,
}

/// Shows a class: by name, or by the first positional argument.
#[derive(Debug, Clone, PartialEq, Eq)]
pub struct ClassInfo {
    pub name: Option<String>,
}

/// Deletes a class: by name, or by the first positional argument.
#[derive(Debug, Clone, PartialEq, Eq)]
pub struct ClassDelete {
    pub name: Option<String>,
}

/// Lists classes, filtered by name and description.
#[derive(Debug, Clone, PartialEq, Eq)]
pub struct ClassList {
    pub name: Option<String>,
    pub description: Option<String>,
}

/// Shows an object of a class, with its data flattened or narrowed to a
/// path, or as raw JSON.
#[derive(Debug, Clone, PartialEq, Eq)]
pub struct ObjectInfo {
    pub name: Option<String>,
    pub class: String,
    pub data: Option<bool>,
    pub jsonpath: Option<String>,
    pub rawjson: Option<bool>,
}

/// Deletes an object of a class.
#[derive(Debug, Clone, PartialEq, Eq)]
pub struct ObjectDelete {
    pub name: Option<String>,
    pub class: Option<String>,
}

/// Lists the objects of a class, filtered by name and description.
#[derive(Debug, Clone, PartialEq, Eq)]
pub struct ObjectList {
    pub class: String,
    pub name: Option<String>,
    pub description: Option<String>,
    pub rawjson: Option<bool>,
}

/// Modifies an object of a class: rename, reclass, move to a namespace,
/// change its description, or patch its data.
#[derive(Debug, Clone, PartialEq, Eq)]
pub struct ObjectModify {
    pub name: String,
    pub class: String,
    pub rename: Option<String>,
    pub reclass: Option<String>,
    pub namespace: Option<String>,
    pub description: Option<String>,
    pub data: Option<String>,
}

/// Creates a user with a fresh random password.
#[derive(Debug, Clone, PartialEq, Eq)]
pub struct UserNew {
    pub username: String,
    pub email: Option<String>,
}

/// Deletes a user: by username, or by the first positional argument.
#[derive(Debug, Clone, PartialEq, Eq)]
pub struct UserDelete {
    pub username: Option<String>,
}

/// Shows a user: by username, email or timestamps. The timestamps travel
/// as raw text; parsing them as dates belongs to the remote-client
/// collaborator.
#[derive(Debug, Clone, PartialEq, Eq)]
pub struct UserInfo {
    pub username: Option<String>,
    pub email: Option<String>,
    pub created_at: Option<String>,
    pub updated_at: Option<String>,
}

/// Lists users. The fields are accepted and validated but the listing is
/// unfiltered.
#[derive(Debug, Clone, PartialEq, Eq)]
pub struct UserList {
    pub username: Option<String>,
    pub email: Option<String>,
    pub created_at: Option<String>,
    pub updated_at: Option<String>,
}

impl ClassNew {
    /// Fills the fields from one parsed invocation.
    pub fn new_from_tokens(&self, tokens: &CommandTokenizer) -> (r: Result<ClassNew, AppError>)
        ensures
            ({
                let o = tokens@.options;
                match r {
                    Ok(c) => {
                        &&& !req_fails(o, "n"@, "name"@, self.name@)
                        &&& c.name@ == req_value(o, "n"@, "name"@, self.name@)
                        &&& !req_fails(o, "N"@, "namespace"@, self.namespace@)
                        &&& c.namespace@ == req_value(o, "N"@, "namespace"@, self.namespace@)
                        &&& !req_fails(o, "d"@, "description"@, self.description@)
                        &&& c.description@ == req_value(o, "d"@, "description"@, self.description@)
                        &&& !opt_fails(o, "s"@, "schema"@)
                        &&& opt_view(c.json_schema) == opt_value(
                            o,
                            "s"@,
                            "schema"@,
                            opt_view(self.json_schema),
                        )
                        &&& !bool_fails(o, "v"@, "validate"@)
                        &&& c.validate_schema == bool_value(
                            o,
                            "v"@,
                            "validate"@,
                            self.validate_schema,
                        )
                    },
                    Err(_) => {
                        ||| req_fails(o, "n"@, "name"@, self.name@)
                        ||| req_fails(o, "N"@, "namespace"@, self.namespace@)
                        ||| req_fails(o, "d"@, "description"@, self.description@)
                        ||| opt_fails(o, "s"@, "schema"@)
                        ||| bool_fails(o, "v"@, "validate"@)
                    },
                }
            }),
    {
        let name = match field_required(tokens, "n", "name", &self.name) {
            Ok(v) => v,
            Err(e) => {
                return Err(e);
            },
        };
        let namespace = match field_required(tokens, "N", "namespace", &self.namespace) {
            Ok(v) => v,
            Err(e) => {
                return Err(e);
            },
        };
        let description = match field_required(tokens, "d", "description", &self.description) {
            Ok(v) => v,
            Err(e) => {
                return Err(e);
            },
        };
        let json_schema = match field_optional(tokens, "s", "schema", &self.json_schema) {
            Ok(v) => v,
            Err(e) => {
                return Err(e);
            },
        };
        let validate_schema = match field_bool(tokens, "v", "validate", &self.validate_schema) {
            Ok(v) => v,
            Err(e) => {
                return Err(e);
            },
        };
        Ok(ClassNew { name, namespace, description, json_schema, validate_schema })
    }
}

impl ObjectNew {
    /// Fills the fields from one parsed invocation.
    pub fn new_from_tokens(&self, tokens: &CommandTokenizer) -> (r: Result<ObjectNew, AppError>)
        ensures
            ({
                let o = tokens@.options;
                match r {
                    Ok(c) => {
                        &&& !req_fails(o, "n"@, "name"@, self.name@)
                        &&& c.name@ == req_value(o, "n"@, "name"@, self.name@)
                        &&& !req_fails(o, "c"@, "class"@, self.class@)
                        &&& c.class@ == req_value(o, "c"@, "class"@, self.class@)
                        &&& !req_fails(o, "N"@, "namespace"@, self.namespace@)
                        &&& c.namespace@ == req_value(o, "N"@, "namespace"@, self.namespace@)
                        &&& !req_fails(o, "d"@, "description"@, self.description@)
                        &&& c.description@ == req_value(o, "d"@, "description"@, self.description@)
                        &&& !opt_fails(o, "D"@, "data"@)
                        &&& opt_view(c.data) == opt_value(o, "D"@, "data"@, opt_view(self.data))
                    },
                    Err(_) => {
                        ||| req_fails(o, "n"@, "name"@, self.name@)
                        ||| req_fails(o, "c"@, "class"@, self.class@)
                        ||| req_fails(o, "N"@, "namespace"@, self.namespace@)
                        ||| req_fails(o, "d"@, "description"@, self.description@)
                        ||| opt_fails(o, "D"@, "data"@)
                    },
                }
            }),
    {
        let name = match field_required(tokens, "n", "name", &self.name) {
            Ok(v) => v,
            Err(e) => {
                return Err(e);
            },
        };
        let class = match field_required(tokens, "c", "class", &self.class) {
            Ok(v) => v,
            Err(e) => {
                return Err(e);
            },
        };
        let namespace = match field_required(tokens, "N", "namespace", &self.namespace) {
            Ok(v) => v,
            Err(e) => {
                return Err(e);
            },
        };
        let description = match field_required(tokens, "d", "description", &self.description) {
            Ok(v) => v,
            Err(e) => {
                return Err(e);
            },
        };
        let data = match field_optional(tokens, "D", "data", &self.data) {
            Ok(v) => v,
            Err(e) => {
                return Err(e);
            },
        };
        Ok(ObjectNew { name, class, namespace, description, data })
    }
}

impl ClassInfo {
    /// Fills the fields from one parsed invocation.
    pub fn new_from_tokens(&self, tokens: &CommandTokenizer) -> (r: Result<ClassInfo, AppError>)
        ensures
            ({
                let o = tokens@.options;
                match r {
                    Ok(c) => !opt_fails(o, "n"@, "name"@) && opt_view(c.name) == opt_value(
                        o,
                        "n"@,
                        "name"@,
                        opt_view(self.name),
                    ),
                    Err(e) => opt_fails(o, "n"@, "name"@) && (
                    e matches AppError::DuplicateOption(k) && k@ == "name"@),
                }
            }),
    {
        let name = match field_optional(tokens, "n", "name", &self.name) {
            Ok(v) => v,
            Err(e) => {
                return Err(e);
            },
        };
        Ok(ClassInfo { name })
    }

    /// The filters of the class lookup this query stands for.
    pub fn into_resource_filter(&self) -> (r: Vec<QueryFilter>)
        ensures
            match opt_view(self.name) {
                Some(v) => r@.len() == 1 && r@[0].key@ == "name"@ && r@[0].value@ == v && r@[
                    0].operator == FilterOperator::Equals,
                None => r@.len() == 0,
            },
    {
        let mut filters: Vec<QueryFilter> = Vec::new();
        match &self.name {
            Some(name) => {
                filters.push(
                    QueryFilter {
                        key: "name".to_owned(),
                        value: name.clone(),
                        operator: FilterOperator::Equals,
                    },
                );
            },
            None => {},
        }
        filters
    }
}

impl ClassDelete {
    /// Fills the fields from one parsed invocation.
    pub fn new_from_tokens(&self, tokens: &CommandTokenizer) -> (r: Result<ClassDelete, AppError>)
        ensures
            ({
                let o = tokens@.options;
                match r {
                    Ok(c) => !opt_fails(o, "n"@, "name"@) && opt_view(c.name) == opt_value(
                        o,
                        "n"@,
                        "name"@,
                        opt_view(self.name),
                    ),
                    Err(e) => opt_fails(o, "n"@, "name"@) && (
                    e matches AppError::DuplicateOption(k) && k@ == "name"@),
                }
            }),
    {
        let name = match field_optional(tokens, "n", "name", &self.name) {
            Ok(v) => v,
            Err(e) => {
                return Err(e);
            },
        };
        Ok(ClassDelete { name })
    }
}

impl ClassList {
    /// Fills the fields from one parsed invocation.
    pub fn new_from_tokens(&self, tokens: &CommandTokenizer) -> (r: Result<ClassList, AppError>)
        ensures
            ({
                let o = tokens@.options;
                match r {
                    Ok(c) => {
                        &&& !opt_fails(o, "n"@, "name"@)
                        &&& opt_view(c.name) == opt_value(o, "n"@, "name"@, opt_view(self.name))
                        &&& !opt_fails(o, "d"@, "description"@)
                        &&& opt_view(c.description) == opt_value(
                            o,
                            "d"@,
                            "description"@,
                            opt_view(self.description),
                        )
                    },
                    Err(e) => {
                        ||| opt_fails(o, "n"@, "name"@) && (
                        e matches AppError::DuplicateOption(k) && k@ == "name"@)
                        ||| opt_fails(o, "d"@, "description"@) && (
                        e matches AppError::DuplicateOption(k) && k@ == "description"@)
                    },
                }
            }),
    {
        let name = match field_optional(tokens, "n", "name", &self.name) {
            Ok(v) => v,
            Err(e) => {
                return Err(e);
            },
        };
        let description = match field_optional(tokens, "d", "description", &self.description) {
            Ok(v) => v,
            Err(e) => {
                return Err(e);
            },
        };
        Ok(ClassList { name, description })
    }

    /// The filters of the class lookup this query stands for.
    pub fn into_resource_filter(&self) -> (r: Vec<QueryFilter>)
        ensures
            match (opt_view(self.name), opt_view(self.description)) {
                (Some(n), Some(d)) => r@.len() == 2 && r@[0].key@ == "name"@ && r@[0].value@ == n
                    && r@[0].operator == FilterOperator::Equals && r@[1].key@ == "description"@
                    && r@[1].value@ == d && r@[1].operator == FilterOperator::Equals,
                (Some(n), None) => r@.len() == 1 && r@[0].key@ == "name"@ && r@[0].value@ == n
                    && r@[0].operator == FilterOperator::Equals,
                (None, Some(d)) => r@.len() == 1 && r@[0].key@ == "description"@ && r@[0].value@
                    == d && r@[0].operator == FilterOperator::Equals,
                (None, None) => r@.len() == 0,
            },
    {
        let mut filters: Vec<QueryFilter> = Vec::new();
        match &self.name {
            Some(name) => {
                filters.push(
                    QueryFilter {
                        key: "name".to_owned(),
                        value: name.clone(),
                        operator: FilterOperator::Equals,
                    },
                );
            },
            None => {},
        }
        match &self.description {
            Some(description) => {
                filters.push(
                    QueryFilter {
                        key: "description".to_owned(),
                        value: description.clone(),
                        operator: FilterOperator::Equals,
                    },
                );
            },
            None => {},
        }
        filters
    }
}

impl ObjectInfo {
    /// Fills the fields from one parsed invocation.
    pub fn new_from_tokens(&self, tokens: &CommandTokenizer) -> (r: Result<ObjectInfo, AppError>)
        ensures
            ({
                let o = tokens@.options;
                match r {
                    Ok(c) => {
                        &&& !opt_fails(o, "n"@, "name"@)
                        &&& opt_view(c.name) == opt_value(o, "n"@, "name"@, opt_view(self.name))
                        &&& !req_fails(o, "c"@, "class"@, self.class@)
                        &&& c.class@ == req_value(o, "c"@, "class"@, self.class@)
                        &&& !flag_fails(o, "d"@, "data"@)
                        &&& c.data == flag_value(o, "d"@, "data"@, self.data)
                        &&& !opt_fails(o, "p"@, "path"@)
                        &&& opt_view(c.jsonpath) == opt_value(
                            o,
                            "p"@,
                            "path"@,
                            opt_view(self.jsonpath),
                        )
                        &&& !flag_fails(o, "j"@, "json"@)
                        &&& c.rawjson == flag_value(o, "j"@, "json"@, self.rawjson)
                    },
                    Err(_) => {
                        ||| opt_fails(o, "n"@, "name"@)
                        ||| req_fails(o, "c"@, "class"@, self.class@)
                        ||| flag_fails(o, "d"@, "data"@)
                        ||| opt_fails(o, "p"@, "path"@)
                        ||| flag_fails(o, "j"@, "json"@)
                    },
                }
            }),
    {
        let name = match field_optional(tokens, "n", "name", &self.name) {
            Ok(v) => v,
            Err(e) => {
                return Err(e);
            },
        };
        let class = match field_required(tokens, "c", "class", &self.class) {
            Ok(v) => v,
            Err(e) => {
                return Err(e);
            },
        };
        let data = match field_flag(tokens, "d", "data", &self.data) {
            Ok(v) => v,
            Err(e) => {
                return Err(e);
            },
        };
        let jsonpath = match field_optional(tokens, "p", "path", &self.jsonpath) {
            Ok(v) => v,
            Err(e) => {
                return Err(e);
            },
        };
        let rawjson = match field_flag(tokens, "j", "json", &self.rawjson) {
            Ok(v) => v,
            Err(e) => {
                return Err(e);
            },
        };
        Ok(ObjectInfo { name, class, data, jsonpath, rawjson })
    }

    /// The filters of the object lookup this query stands for.
    pub fn into_resource_filter(&self) -> (r: Vec<QueryFilter>)
        ensures
            match opt_view(self.name) {
                Some(v) => r@.len() == 1 && r@[0].key@ == "name"@ && r@[0].value@ == v && r@[
                    0].operator == (FilterOperator::IContains { is_negated: false }),
                None => r@.len() == 0,
            },
    {
        let mut filters: Vec<QueryFilter> = Vec::new();
        match &self.name {
            Some(name) => {
                filters.push(
                    QueryFilter {
                        key: "name".to_owned(),
                        value: name.clone(),
                        operator: FilterOperator::IContains { is_negated: false },
                    },
                );
            },
            None => {},
        }
        filters
    }
}

impl ObjectDelete {
    /// Fills the fields from one parsed invocation.
    pub fn new_from_tokens(&self, tokens: &CommandTokenizer) -> (r: Result<ObjectDelete, AppError>)
        ensures
            ({
                let o = tokens@.options;
                match r {
                    Ok(c) => {
                        &&& !opt_fails(o, "n"@, "name"@)
                        &&& opt_view(c.name) == opt_value(o, "n"@, "name"@, opt_view(self.name))
                        &&& !opt_fails(o, "c"@, "class"@)
                        &&& opt_view(c.class) == opt_value(o, "c"@, "class"@, opt_view(self.class))
                    },
                    Err(_) => opt_fails(o, "n"@, "name"@) || opt_fails(o, "c"@, "class"@),
                }
            }),
    {
        let name = match field_optional(tokens, "n", "name", &self.name) {
            Ok(v) => v,
            Err(e) => {
                return Err(e);
            },
        };
        let class = match field_optional(tokens, "c", "class", &self.class) {
            Ok(v) => v,
            Err(e) => {
                return Err(e);
            },
        };
        Ok(ObjectDelete { name, class })
    }
}

impl ObjectList {
    /// Fills the fields from one parsed invocation.
    pub fn new_from_tokens(&self, tokens: &CommandTokenizer) -> (r: Result<ObjectList, AppError>)
        ensures
            ({
                let o = tokens@.options;
                match r {
                    Ok(c) => {
                        &&& !req_fails(o, "c"@, "class"@, self.class@)
                        &&& c.class@ == req_value(o, "c"@, "class"@, self.class@)
                        &&& !opt_fails(o, "n"@, "name"@)
                        &&& opt_view(c.name) == opt_value(o, "n"@, "name"@, opt_view(self.name))
                        &&& !opt_fails(o, "d"@, "description"@)
                        &&& opt_view(c.description) == opt_value(
                            o,
                            "d"@,
                            "description"@,
                            opt_view(self.description),
                        )
                        &&& !flag_fails(o, "j"@, "json"@)
                        &&& c.rawjson == flag_value(o, "j"@, "json"@, self.rawjson)
                    },
                    Err(_) => {
                        ||| req_fails(o, "c"@, "class"@, self.class@)
                        ||| opt_fails(o, "n"@, "name"@)
                        ||| opt_fails(o, "d"@, "description"@)
                        ||| flag_fails(o, "j"@, "json"@)
                    },
                }
            }),
    {
        let class = match field_required(tokens, "c", "class", &self.class) {
            Ok(v) => v,
            Err(e) => {
                return Err(e);
            },
        };
        let name = match field_optional(tokens, "n", "name", &self.name) {
            Ok(v) => v,
            Err(e) => {
                return Err(e);
            },
        };
        let description = match field_optional(tokens, "d", "description", &self.description) {
            Ok(v) => v,
            Err(e) => {
                return Err(e);
            },
        };
        let rawjson = match field_flag(tokens, "j", "json", &self.rawjson) {
            Ok(v) => v,
            Err(e) => {
                return Err(e);
            },
        };
        Ok(ObjectList { class, name, description, rawjson })
    }

    /// The filters of the object lookup this query stands for.
    pub fn into_resource_filter(&self) -> (r: Vec<QueryFilter>)
        ensures
            match (opt_view(self.name), opt_view(self.description)) {
                (Some(n), Some(d)) => r@.len() == 2 && r@[0].key@ == "name"@ && r@[0].value@ == n
                    && r@[0].operator == (FilterOperator::IContains { is_negated: false }) && r@[
                    1].key@ == "description"@ && r@[1].value@ == d && r@[1].operator == (
                FilterOperator::IContains { is_negated: false }),
                (Some(n), None) => r@.len() == 1 && r@[0].key@ == "name"@ && r@[0].value@ == n
                    && r@[0].operator == (FilterOperator::IContains { is_negated: false }),
                (None, Some(d)) => r@.len() == 1 && r@[0].key@ == "description"@ && r@[0].value@
                    == d && r@[0].operator == (FilterOperator::IContains { is_negated: false }),
                (None, None) => r@.len() == 0,
            },
    {
        let mut filters: Vec<QueryFilter> = Vec::new();
        match &self.name {
            Some(name) => {
                filters.push(
                    QueryFilter {
                        key: "name".to_owned(),
                        value: name.clone(),
                        operator: FilterOperator::IContains { is_negated: false },
                    },
                );
            },
            None => {},
        }
        match &self.description {
            Some(description) => {
                filters.push(
                    QueryFilter {
                        key: "description".to_owned(),
                        value: description.clone(),
                        operator: FilterOperator::IContains { is_negated: false },
                    },
                );
            },
            None => {},
        }
        filters
    }
}

impl ObjectModify {
    /// Fills the fields from one parsed invocation.
    pub fn new_from_tokens(&self, tokens: &CommandTokenizer) -> (r: Result<ObjectModify, AppError>)
        ensures
            ({
                let o = tokens@.options;
                match r {
                    Ok(c) => {
                        &&& !req_fails(o, "n"@, "name"@, self.name@)
                        &&& c.name@ == req_value(o, "n"@, "name"@, self.name@)
                        &&& !req_fails(o, "c"@, "class"@, self.class@)
                        &&& c.class@ == req_value(o, "c"@, "class"@, self.class@)
                        &&& !opt_fails(o, "r"@, "rename"@)
                        &&& opt_view(c.rename) == opt_value(o, "r"@, "rename"@, opt_view(self.rename))
                        &&& !opt_fails(o, "R"@, "reclass"@)
                        &&& opt_view(c.reclass) == opt_value(
                            o,
                            "R"@,
                            "reclass"@,
                            opt_view(self.reclass),
                        )
                        &&& !opt_fails(o, "N"@, "namespace"@)
                        &&& opt_view(c.namespace) == opt_value(
                            o,
                            "N"@,
                            "namespace"@,
                            opt_view(self.namespace),
                        )
                        &&& !opt_fails(o, "d"@, "description"@)
                        &&& opt_view(c.description) == opt_value(
                            o,
                            "d"@,
                            "description"@,
                            opt_view(self.description),
                        )
                        &&& !opt_fails(o, "D"@, "data"@)
                        &&& opt_view(c.data) == opt_value(o, "D"@, "data"@, opt_view(self.data))
                    },
                    Err(_) => {
                        ||| req_fails(o, "n"@, "name"@, self.name@)
                        ||| req_fails(o, "c"@, "class"@, self.class@)
                        ||| opt_fails(o, "r"@, "rename"@)
                        ||| opt_fails(o, "R"@, "reclass"@)
                        ||| opt_fails(o, "N"@, "namespace"@)
                        ||| opt_fails(o, "d"@, "description"@)
                        ||| opt_fails(o, "D"@, "data"@)
                    },
                }
            }),
    {
        let name = match field_required(tokens, "n", "name", &self.name) {
            Ok(v) => v,
            Err(e) => {
                return Err(e);
            },
        };
        let class = match field_required(tokens, "c", "class", &self.class) {
            Ok(v) => v,
            Err(e) => {
                return Err(e);
            },
        };
        let rename = match field_optional(tokens, "r", "rename", &self.rename) {
            Ok(v) => v,
            Err(e) => {
                return Err(e);
            },
        };
        let reclass = match field_optional(tokens, "R", "reclass", &self.reclass) {
            Ok(v) => v,
            Err(e) => {
                return Err(e);
            },
        };
        let namespace = match field_optional(tokens, "N", "namespace", &self.namespace) {
            Ok(v) => v,
            Err(e) => {
                return Err(e);
            },
        };
        let description = match field_optional(tokens, "d", "description", &self.description) {
            Ok(v) => v,
            Err(e) => {
                return Err(e);
            },
        };
        let data = match field_optional(tokens, "D", "data", &self.data) {
            Ok(v) => v,
            Err(e) => {
                return Err(e);
            },
        };
        Ok(ObjectModify { name, class, rename, reclass, namespace, description, data })
    }
}

/// What a created user is posted as: the username, the optional email
/// address, and a fresh random password.
#[derive(Debug, Clone, PartialEq, Eq)]
pub struct UserPost {
    pub username: String,
    pub email: Option<String>,
    pub password: String,
}

impl UserNew {
    /// Fills the fields from one parsed invocation.
    pub fn new_from_tokens(&self, tokens: &CommandTokenizer) -> (r: Result<UserNew, AppError>)
        ensures
            ({
                let o = tokens@.options;
                match r {
                    Ok(c) => {
                        &&& !req_fails(o, "u"@, "username"@, self.username@)
                        &&& c.username@ == req_value(o, "u"@, "username"@, self.username@)
                        &&& !opt_fails(o, "e"@, "email"@)
                        &&& opt_view(c.email) == opt_value(o, "e"@, "email"@, opt_view(self.email))
                    },
                    Err(_) => req_fails(o, "u"@, "username"@, self.username@) || opt_fails(
                        o,
                        "e"@,
                        "email"@,
                    ),
                }
            }),
    {
        let username = match field_required(tokens, "u", "username", &self.username) {
            Ok(v) => v,
            Err(e) => {
                return Err(e);
            },
        };
        let email = match field_optional(tokens, "e", "email", &self.email) {
            Ok(v) => v,
            Err(e) => {
                return Err(e);
            },
        };
        Ok(UserNew { username, email })
    }

    /// What creating this user posts: the fields together with a fresh
    /// random password of twenty letters and digits.
    pub fn into_post(self) -> (r: UserPost)
        ensures
            r.username@ == self.username@,
            opt_view(r.email) == opt_view(self.email),
            r.password@.len() == 20,
            forall|i: int|
                0 <= i < r.password@.len() ==> crate::password::is_password_char(
                    #[trigger] r.password@[i],
                ),
    {
        let password = crate::password::generate_random_password(20);
        UserPost { username: self.username, email: self.email, password }
    }
}

impl UserDelete {
    /// Fills the fields from one parsed invocation.
    pub fn new_from_tokens(&self, tokens: &CommandTokenizer) -> (r: Result<UserDelete, AppError>)
        ensures
            ({
                let o = tokens@.options;
                match r {
                    Ok(c) => !opt_fails(o, "u"@, "username"@) && opt_view(c.username) == opt_value(
                        o,
                        "u"@,
                        "username"@,
                        opt_view(self.username),
                    ),
                    Err(e) => opt_fails(o, "u"@, "username"@) && (
                    e matches AppError::DuplicateOption(k) && k@ == "username"@),
                }
            }),
    {
        let username = match field_optional(tokens, "u", "username", &self.username) {
            Ok(v) => v,
            Err(e) => {
                return Err(e);
            },
        };
        Ok(UserDelete { username })
    }

    /// The filters of the user lookup this query stands for.
    pub fn into_resource_filter(&self) -> (r: Vec<QueryFilter>)
        ensures
            match opt_view(self.username) {
                Some(v) => r@.len() == 1 && r@[0].key@ == "username"@ && r@[0].value@ == v && r@[
                    0].operator == FilterOperator::Equals,
                None => r@.len() == 0,
            },
    {
        let mut filters: Vec<QueryFilter> = Vec::new();
        match &self.username {
            Some(username) => {
                filters.push(
                    QueryFilter {
                        key: "username".to_owned(),
                        value: username.clone(),
                        operator: FilterOperator::Equals,
                    },
                );
            },
            None => {},
        }
        filters
    }
}

impl Default for ClassNew {
    /// An empty query: every field unset.
    fn default() -> (r: Self)
        ensures
            r.name@.len() == 0,
            r.namespace@.len() == 0,
            r.description@.len() == 0,
            r.json_schema is None,
            r.validate_schema is None,
    {
        ClassNew {
            name: String::new(),
            namespace: String::new(),
            description: String::new(),
            json_schema: None,
            validate_schema: None,
        }
    }
}

impl Default for ClassInfo {
    /// An empty query: every field unset.
    fn default() -> (r: Self)
        ensures
            r.name is None,
    {
        ClassInfo { name: None }
    }
}

impl Default for ClassDelete {
    /// An empty query: every field unset.
    fn default() -> (r: Self)
        ensures
            r.name is None,
    {
        ClassDelete { name: None }
    }
}

impl Default for ClassList {
    /// An empty query: every field unset.
    fn default() -> (r: Self)
        ensures
            r.name is None,
            r.description is None,
    {
        ClassList { name: None, description: None }
    }
}

impl Default for ObjectNew {
    /// An empty query: every field unset.
    fn default() -> (r: Self)
        ensures
            r.name@.len() == 0,
            r.class@.len() == 0,
            r.namespace@.len() == 0,
            r.description@.len() == 0,
            r.data is None,
    {
        ObjectNew {
            name: String::new(),
            class: String::new(),
            namespace: String::new(),
            description: String::new(),
            data: None,
        }
    }
}

impl Default for ObjectInfo {
    /// An empty query: every field unset.
    fn default() -> (r: Self)
        ensures
            r.name is None,
            r.class@.len() == 0,
            r.data is None,
            r.jsonpath is None,
            r.rawjson is None,
    {
        ObjectInfo { name: None, class: String::new(), data: None, jsonpath: None, rawjson: None }
    }
}

impl Default for ObjectDelete {
    /// An empty query: every field unset.
    fn default() -> (r: Self)
        ensures
            r.name is None,
            r.class is None,
    {
        ObjectDelete { name: None, class: None }
    }
}

impl Default for ObjectList {
    /// An empty query: every field unset.
    fn default() -> (r: Self)
        ensures
            r.class@.len() == 0,
            r.name is None,
            r.description is None,
            r.rawjson is None,
    {
        ObjectList { class: String::new(), name: None, description: None, rawjson: None }
    }
}

impl Default for ObjectModify {
    /// An empty query: every field unset.
    fn default() -> (r: Self)
        ensures
            r.name@.len() == 0,
            r.class@.len() == 0,
            r.rename is None,
            r.reclass is None,
            r.namespace is None,
            r.description is None,
            r.data is None,
    {
        ObjectModify {
            name: String::new(),
            class: String::new(),
            rename: None,
            reclass: None,
            namespace: None,
            description: None,
            data: None,
        }
    }
}

impl Default for UserNew {
    /// An empty query: every field unset.
    fn default() -> (r: Self)
        ensures
            r.username@.len() == 0,
            r.email is None,
    {
        UserNew { username: String::new(), email: None }
    }
}

impl Default for UserDelete {
    /// An empty query: every field unset.
    fn default() -> (r: Self)
        ensures
            r.username is None,
    {
        UserDelete { username: None }
    }
}

impl Default for UserInfo {
    /// An empty query: every field unset.
    fn default() -> (r: Self)
        ensures
            r.username is None,
            r.email is None,
            r.created_at is None,
            r.updated_at is None,
    {
        UserInfo { username: None, email: None, created_at: None, updated_at: None }
    }
}

impl Default for UserList {
    /// An empty query: every field unset.
    fn default() -> (r: Self)
        ensures
            r.username is None,
            r.email is None,
            r.created_at is None,
            r.updated_at is None,
    {
        UserList { username: None, email: None, created_at: None, updated_at: None }
    }
}

/// The view of a filter list: key, value and operator of each filter.
pub open spec fn filters_view(v: Seq<QueryFilter>) -> Seq<(Seq<char>, Seq<char>, FilterOperator)> {
    v.map_values(|f: QueryFilter| (f.key@, f.value@, f.operator))
}

/// The filter list with one more equality filter, when the field is set.
pub open spec fn push_eq_filter(
    fs: Seq<(Seq<char>, Seq<char>, FilterOperator)>,
    key: Seq<char>,
    v: Option<Seq<char>>,
) -> Seq<(Seq<char>, Seq<char>, FilterOperator)> {
    match v {
        Some(x) => fs.push((key, x, FilterOperator::Equals)),
        None => fs,
    }
}

proof fn lemma_filters_view_push(v: Seq<QueryFilter>, f: QueryFilter)
    ensures
        filters_view(v.push(f)) == filters_view(v).push((f.key@, f.value@, f.operator)),
{
    assert(filters_view(v.push(f)) =~= filters_view(v).push((f.key@, f.value@, f.operator)));
}

impl UserInfo {
    /// Fills the fields from one parsed invocation.
    pub fn new_from_tokens(&self, tokens: &CommandTokenizer) -> (r: Result<UserInfo, AppError>)
        ensures
            ({
                let o = tokens@.options;
                match r {
                    Ok(c) => {
                        &&& !opt_fails(o, "u"@, "username"@)
                        &&& opt_view(c.username) == opt_value(
                            o,
                            "u"@,
                            "username"@,
                            opt_view(self.username),
                        )
                        &&& !opt_fails(o, "e"@, "email"@)
                        &&& opt_view(c.email) == opt_value(o, "e"@, "email"@, opt_view(self.email))
                        &&& !opt_fails(o, "C"@, "created-at"@)
                        &&& opt_view(c.created_at) == opt_value(
                            o,
                            "C"@,
                            "created-at"@,
                            opt_view(self.created_at),
                        )
                        &&& !opt_fails(o, "U"@, "updated-at"@)
                        &&& opt_view(c.updated_at) == opt_value(
                            o,
                            "U"@,
                            "updated-at"@,
                            opt_view(self.updated_at),
                        )
                    },
                    Err(_) => {
                        ||| opt_fails(o, "u"@, "username"@)
                        ||| opt_fails(o, "e"@, "email"@)
                        ||| opt_fails(o, "C"@, "created-at"@)
                        ||| opt_fails(o, "U"@, "updated-at"@)
                    },
                }
            }),
    {
        let username = match field_optional(tokens, "u", "username", &self.username) {
            Ok(v) => v,
            Err(e) => {
                return Err(e);
            },
        };
        let email = match field_optional(tokens, "e", "email", &self.email) {
            Ok(v) => v,
            Err(e) => {
                return Err(e);
            },
        };
        let created_at = match field_optional(tokens, "C", "created-at", &self.created_at) {
            Ok(v) => v,
            Err(e) => {
                return Err(e);
            },
        };
        let updated_at = match field_optional(tokens, "U", "updated-at", &self.updated_at) {
            Ok(v) => v,
            Err(e) => {
                return Err(e);
            },
        };
        Ok(UserInfo { username, email, created_at, updated_at })
    }

    /// The filters of the user lookup this query stands for: one equality
    /// filter per set field, in field order.
    pub fn into_resource_filter(&self) -> (r: Vec<QueryFilter>)
        ensures
            filters_view(r@) == push_eq_filter(
                push_eq_filter(
                    push_eq_filter(
                        push_eq_filter(Seq::empty(), "username"@, opt_view(self.username)),
                        "email"@,
                        opt_view(self.email),
                    ),
                    "created_at"@,
                    opt_view(self.created_at),
                ),
                "updated_at"@,
                opt_view(self.updated_at),
            ),
    {
        let mut filters: Vec<QueryFilter> = Vec::new();
        proof {
            assert(filters_view(filters@) =~= Seq::<(Seq<char>, Seq<char>, FilterOperator)>::empty());
        }
        match &self.username {
            Some(username) => {
                let ghost prev = filters@;
                filters.push(
                    QueryFilter {
                        key: "username".to_owned(),
                        value: username.clone(),
                        operator: FilterOperator::Equals,
                    },
                );
                proof {
                    lemma_filters_view_push(prev, filters@.last());
                }
            },
            None => {},
        }
        match &self.email {
            Some(email) => {
                let ghost prev = filters@;
                filters.push(
                    QueryFilter {
                        key: "email".to_owned(),
                        value: email.clone(),
                        operator: FilterOperator::Equals,
                    },
                );
                proof {
                    lemma_filters_view_push(prev, filters@.last());
                }
            },
            None => {},
        }
        match &self.created_at {
            Some(created_at) => {
                let ghost prev = filters@;
                filters.push(
                    QueryFilter {
                        key: "created_at".to_owned(),
                        value: created_at.clone(),
                        operator: FilterOperator::Equals,
                    },
                );
                proof {
                    lemma_filters_view_push(prev, filters@.last());
                }
            },
            None => {},
        }
        match &self.updated_at {
            Some(updated_at) => {
                let ghost prev = filters@;
                filters.push(
                    QueryFilter {
                        key: "updated_at".to_owned(),
                        value: updated_at.clone(),
                        operator: FilterOperator::Equals,
                    },
                );
                proof {
                    lemma_filters_view_push(prev, filters@.last());
                }
            },
            None => {},
        }
        filters
    }
}

impl UserList {
    /// Fills the fields from one parsed invocation.
    pub fn new_from_tokens(&self, tokens: &CommandTokenizer) -> (r: Result<UserList, AppError>)
        ensures
            ({
                let o = tokens@.options;
                match r {
                    Ok(c) => {
                        &&& !opt_fails(o, "u"@, "username"@)
                        &&& opt_view(c.username) == opt_value(
                            o,
                            "u"@,
                            "username"@,
                            opt_view(self.username),
                        )
                        &&& !opt_fails(o, "e"@, "email"@)
                        &&& opt_view(c.email) == opt_value(o, "e"@, "email"@, opt_view(self.email))
                        &&& !opt_fails(o, "C"@, "created-at"@)
                        &&& opt_view(c.created_at) == opt_value(
                            o,
                            "C"@,
                            "created-at"@,
                            opt_view(self.created_at),
                        )
                        &&& !opt_fails(o, "U"@, "updated-at"@)
                        &&& opt_view(c.updated_at) == opt_value(
                            o,
                            "U"@,
                            "updated-at"@,
                            opt_view(self.updated_at),
                        )
                    },
                    Err(_) => {
                        ||| opt_fails(o, "u"@, "username"@)
                        ||| opt_fails(o, "e"@, "email"@)
                        ||| opt_fails(o, "C"@, "created-at"@)
                        ||| opt_fails(o, "U"@, "updated-at"@)
                    },
                }
            }),
    {
        let username = match field_optional(tokens, "u", "username", &self.username) {
            Ok(v) => v,
            Err(e) => {
                return Err(e);
            },
        };
        let email = match field_optional(tokens, "e", "email", &self.email) {
            Ok(v) => v,
            Err(e) => {
                return Err(e);
            },
        };
        let created_at = match field_optional(tokens, "C", "created-at", &self.created_at) {
            Ok(v) => v,
            Err(e) => {
                return Err(e);
            },
        };
        let updated_at = match field_optional(tokens, "U", "updated-at", &self.updated_at) {
            Ok(v) => v,
            Err(e) => {
                return Err(e);
            },
        };
        Ok(UserList { username, email, created_at, updated_at })
    }
}

/// A query that may name a class.
pub trait GetClassname {
    /// The class name the query carries, if any.
    spec fn spec_classname(&self) -> Option<Seq<char>>;

    /// The class name the query carries, if any.
    fn classname(&self) -> (r: Option<String>)
        ensures
            match r {
                Some(s) => self.spec_classname() == Some(s@),
                None => self.spec_classname() is None,
            },
    ;
}

/// A query that may name an object.
pub trait GetObjectname {
    /// The object name the query carries, if any.
    spec fn spec_objectname(&self) -> Option<Seq<char>>;

    /// The object name the query carries, if any.
    fn objectname(&self) -> (r: Option<String>)
        ensures
            match r {
                Some(s) => self.spec_objectname() == Some(s@),
                None => self.spec_objectname() is None,
            },
    ;
}

/// A query that may name a user.
pub trait GetUsername {
    /// The username the query carries, if any.
    spec fn spec_username(&self) -> Option<Seq<char>>;

    /// The username the query carries, if any.
    fn username(&self) -> (r: Option<String>)
        ensures
            match r {
                Some(s) => self.spec_username() == Some(s@),
                None => self.spec_username() is None,
            },
    ;
}

impl GetClassname for ClassInfo {
    open spec fn spec_classname(&self) -> Option<Seq<char>> {
        opt_view(self.name)
    }

    fn classname(&self) -> (r: Option<String>) {
        match &self.name {
            Some(s) => Some(s.clone()),
            None => None,
        }
    }
}

impl GetClassname for ClassDelete {
    open spec fn spec_classname(&self) -> Option<Seq<char>> {
        opt_view(self.name)
    }

    fn classname(&self) -> (r: Option<String>) {
        match &self.name {
            Some(s) => Some(s.clone()),
            None => None,
        }
    }
}

impl GetObjectname for ObjectInfo {
    open spec fn spec_objectname(&self) -> Option<Seq<char>> {
        opt_view(self.name)
    }

    fn objectname(&self) -> (r: Option<String>) {
        match &self.name {
            Some(s) => Some(s.clone()),
            None => None,
        }
    }
}

impl GetObjectname for ObjectDelete {
    open spec fn spec_objectname(&self) -> Option<Seq<char>> {
        opt_view(self.name)
    }

    fn objectname(&self) -> (r: Option<String>) {
        match &self.name {
            Some(s) => Some(s.clone()),
            None => None,
        }
    }
}

impl GetUsername for UserDelete {
    open spec fn spec_username(&self) -> Option<Seq<char>> {
        opt_view(self.username)
    }

    fn username(&self) -> (r: Option<String>) {
        match &self.username {
            Some(s) => Some(s.clone()),
            None => None,
        }
    }
}

impl GetUsername for UserInfo {
    open spec fn spec_username(&self) -> Option<Seq<char>> {
        opt_view(self.username)
    }

    fn username(&self) -> (r: Option<String>) {
        match &self.username {
            Some(s) => Some(s.clone()),
            None => None,
        }
    }
}

/// How a name is resolved from a query and the positionals: the query's own
/// name when it has one, else the positional at `pos`, else a
/// missing-options error naming `key`.
pub open spec fn name_or_pos_spec(
    name: Option<Seq<char>>,
    positionals: Seq<Seq<char>>,
    pos: int,
    r: Result<Option<String>, AppError>,
    key: Seq<char>,
) -> bool {
    match name {
        Some(v) => r matches Ok(s) && (s matches Some(sv) && sv@ == v),
        None => if 0 <= pos < positionals.len() {
            r matches Ok(s) && (s matches Some(sv) && sv@ == positionals[pos])
        } else {
            r matches Err(e) && (e matches AppError::MissingOptions(ks) && tokens_view(ks@)
                == seq![key])
        },
    }
}

/// The class name of the query, or the positional argument at `pos`.
pub fn classname_or_pos<U: GetClassname>(query: &U, tokens: &CommandTokenizer, pos: usize) -> (r:
    Result<Option<String>, AppError>)
    ensures
        name_or_pos_spec(query.spec_classname(), tokens@.positionals, pos as int, r, "name"@),
{
    let positionals = tokens.get_positionals();
    let pos0: Option<String> = if pos < positionals.len() {
        Some(positionals[pos].clone())
    } else {
        None
    };
    match query.classname() {
        None => match pos0 {
            None => {
                let mut ks: Vec<String> = Vec::new();
                ks.push("name".to_owned());
                proof {
                    assert(tokens_view(ks@) =~= seq!["name"@]);
                }
                Err(AppError::MissingOptions(ks))
            },
            Some(p) => Ok(Some(p)),
        },
        Some(c) => Ok(Some(c)),
    }
}

/// The object name of the query, or the positional argument at `pos`.
pub fn objectname_or_pos<U: GetObjectname>(query: &U, tokens: &CommandTokenizer, pos: usize) -> (r:
    Result<Option<String>, AppError>)
    ensures
        name_or_pos_spec(query.spec_objectname(), tokens@.positionals, pos as int, r, "name"@),
{
    let positionals = tokens.get_positionals();
    let pos0: Option<String> = if pos < positionals.len() {
        Some(positionals[pos].clone())
    } else {
        None
    };
    match query.objectname() {
        None => match pos0 {
            None => {
                let mut ks: Vec<String> = Vec::new();
                ks.push("name".to_owned());
                proof {
                    assert(tokens_view(ks@) =~= seq!["name"@]);
                }
                Err(AppError::MissingOptions(ks))
            },
            Some(p) => Ok(Some(p)),
        },
        Some(c) => Ok(Some(c)),
    }
}

/// The username of the query, or the positional argument at `pos`.
pub fn username_or_pos<U: GetUsername>(query: &U, tokens: &CommandTokenizer, pos: usize) -> (r:
    Result<Option<String>, AppError>)
    ensures
        name_or_pos_spec(query.spec_username(), tokens@.positionals, pos as int, r, "username"@),
{
    let positionals = tokens.get_positionals();
    let pos0: Option<String> = if pos < positionals.len() {
        Some(positionals[pos].clone())
    } else {
        None
    };
    match query.username() {
        None => match pos0 {
            None => {
                let mut ks: Vec<String> = Vec::new();
                ks.push("username".to_owned());
                proof {
                    assert(tokens_view(ks@) =~= seq!["username"@]);
                }
                Err(AppError::MissingOptions(ks))
            },
            Some(p) => Ok(Some(p)),
        },
        Some(c) => Ok(Some(c)),
    }
}

} // verus!
