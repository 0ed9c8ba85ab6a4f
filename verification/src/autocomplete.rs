//! The autocomplete engine's decisions. Every completion is either a static
//! candidate list or a plan naming which remote resource to query with
//! which starts-with prefix; the surrounding binary runs the query and
//! degrades to no candidates on any failure, so completion never interrupts
//! typing. Object completions first look for an anchor option (the word
//! behind `--class` and friends) in the words typed so far; without exactly
//! that anchor the plan is empty.

use vstd::prelude::*;

use crate::lex::tokens_view;

verus! {

/// What a completion request resolves to: candidates as they stand, a
/// remote query of one resource kind filtered by a starts-with prefix (the
/// empty prefix means unfiltered), or nothing.
#[derive(Debug, Clone, PartialEq, Eq)]
pub enum CompletionPlan {
    Static(Vec<String>),
    Classes { prefix: String },
    Namespaces { prefix: String },
    Objects { class_name: String, prefix: String },
    NoCandidates,
}

/// The word right behind the first occurrence of `key`, scanning pairs of
/// neighbouring words from `i`.
pub open spec fn spec_anchor(parts: Seq<Seq<char>>, key: Seq<char>, i: int) -> Option<Seq<char>>
    decreases parts.len() - i,
{
    if i < 0 || i + 1 >= parts.len() {
        None
    } else if parts[i] == key {
        Some(parts[i + 1])
    } else {
        spec_anchor(parts, key, i + 1)
    }
}

/// The candidates of a boolean-valued option: the two boolean words.
pub fn bool(_prefix: &str, _parts: &Vec<String>) -> (r: Vec<String>)
    ensures
        r@.len() == 2,
        r@[0]@ == "true"@,
        r@[1]@ == "false"@,
{
    let mut v: Vec<String> = Vec::new();
    v.push("true".to_owned());
    v.push("false".to_owned());
    v
}

/// The plan of a class-name completion: list classes, filtered by the
/// prefix typed so far.
pub fn classes(prefix: &str, _parts: &Vec<String>) -> (r: CompletionPlan)
    ensures
        r matches CompletionPlan::Classes { prefix: p } && p@ == prefix@,
{
    CompletionPlan::Classes { prefix: prefix.to_owned() }
}

/// The plan of a namespace-name completion: list namespaces, filtered by
/// the prefix typed so far.
pub fn namespaces(prefix: &str, _parts: &Vec<String>) -> (r: CompletionPlan)
    ensures
        r matches CompletionPlan::Namespaces { prefix: p } && p@ == prefix@,
{
    CompletionPlan::Namespaces { prefix: prefix.to_owned() }
}

/// The word right behind the first occurrence of `key` among the words
/// typed so far, if any.
pub fn anchor_value(parts: &Vec<String>, key: &str) -> (r: Option<String>)
    ensures
        match r {
            Some(v) => spec_anchor(tokens_view(parts@), key@, 0) == Some(v@),
            None => spec_anchor(tokens_view(parts@), key@, 0) is None,
        },
{
    let ghost toks = tokens_view(parts@);
    let key_s: String = key.to_owned();
    let n = parts.len();
    let mut i: usize = 0;
    while n > 0 && i < n - 1
        invariant
            0 <= i <= n,
            n == parts@.len(),
            toks == tokens_view(parts@),
            key_s@ == key@,
            spec_anchor(toks, key@, 0) == spec_anchor(toks, key@, i as int),
        decreases n - i,
    {
        if parts[i].eq(&key_s) {
            return Some(parts[i + 1].clone());
        }
        i = i + 1;
    }
    None
}

/// The plan of an object-name completion anchored at `source`: find the
/// class named right behind `source` among the words typed so far and list
/// that class's objects, filtered by the prefix; without the anchor there
/// are no candidates.
pub fn objects_from_class_source(prefix: &str, parts: &Vec<String>, source: &str) -> (r:
    CompletionPlan)
    ensures
        match spec_anchor(tokens_view(parts@), source@, 0) {
            Some(cn) => r matches CompletionPlan::Objects { class_name, prefix: p } && class_name@
                == cn && p@ == prefix@,
            None => r is NoCandidates,
        },
{
    match anchor_value(parts, source) {
        Some(class_name) => CompletionPlan::Objects { class_name, prefix: prefix.to_owned() },
        None => CompletionPlan::NoCandidates,
    }
}

/// Object-name completion anchored at `--class`.
pub fn objects_from_class(prefix: &str, parts: &Vec<String>) -> (r: CompletionPlan)
    ensures
        match spec_anchor(tokens_view(parts@), "--class"@, 0) {
            Some(cn) => r matches CompletionPlan::Objects { class_name, prefix: p } && class_name@
                == cn && p@ == prefix@,
            None => r is NoCandidates,
        },
{
    objects_from_class_source(prefix, parts, "--class")
}

/// Object-name completion anchored at `--class_from`.
pub fn objects_from_class_from(prefix: &str, parts: &Vec<String>) -> (r: CompletionPlan)
    ensures
        match spec_anchor(tokens_view(parts@), "--class_from"@, 0) {
            Some(cn) => r matches CompletionPlan::Objects { class_name, prefix: p } && class_name@
                == cn && p@ == prefix@,
            None => r is NoCandidates,
        },
{
    objects_from_class_source(prefix, parts, "--class_from")
}

/// Object-name completion anchored at `--class_to`.
pub fn objects_from_class_to(prefix: &str, parts: &Vec<String>) -> (r: CompletionPlan)
    ensures
        match spec_anchor(tokens_view(parts@), "--class_to"@, 0) {
            Some(cn) => r matches CompletionPlan::Objects { class_name, prefix: p } && class_name@
                == cn && p@ == prefix@,
            None => r is NoCandidates,
        },
{
    objects_from_class_source(prefix, parts, "--class_to")
}

} // verus!
