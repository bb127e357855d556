//! Adding a ready-made external service (database, broker, ...) to a
//! workspace: its compose snippet and its `<NAME>_ENABLED` flag.

use vstd::prelude::*;
use vstd::string::*;
use crate::text::{
    all_ascii, ascii_uppered, concat2, concat3, contains, has_substring, lemma_substring_middle, lemma_substring_prepend,
    to_uppercase, unicode_uppercase,
};

verus! {

pub const EXTERNAL_TEMPLATES_DIR: &'static str = "templates/external/";

pub const EXTERNAL_TEMPLATE_EXT: &'static str = ".yml";

pub const ENABLED_SUFFIX: &'static str = "_ENABLED=true";

pub const NOT_FOUND_START: &'static str = "Serviço externo '";

pub const NOT_FOUND_END: &'static str = "' não encontrado.";

/// The line that declares service `name` in a compose file.
pub open spec fn compose_marker(name: Seq<char>) -> Seq<char> {
    "  "@ + name + ":"@
}

/// The line that declares service `name` in a compose file.
pub fn compose_service_marker(name: &str) -> (m: String)
    ensures
        m@ == compose_marker(name@),
{
    concat3("  ", name, ":")
}

/// Where the compose snippet of an external service is kept.
pub fn external_template_path(name: &str) -> (p: String)
    ensures
        p@ == EXTERNAL_TEMPLATES_DIR@ + name@ + EXTERNAL_TEMPLATE_EXT@,
{
    concat3(EXTERNAL_TEMPLATES_DIR, name, EXTERNAL_TEMPLATE_EXT)
}

/// The error reported when no snippet exists for `name`.
pub fn external_not_found_message(name: &str) -> (m: String)
    ensures
        m@ == NOT_FOUND_START@ + name@ + NOT_FOUND_END@,
{
    concat3(NOT_FOUND_START, name, NOT_FOUND_END)
}

/// The compose file after adding the snippet of `name`: unchanged when the
/// service is already declared, else the snippet on a new line at the end.
pub open spec fn compose_after_external(
    compose: Seq<char>,
    name: Seq<char>,
    snippet: Seq<char>,
) -> Seq<char> {
    if has_substring(compose, compose_marker(name)) {
        compose
    } else {
        compose + "\n"@ + snippet
    }
}

/// The flag that marks `name` as enabled in `.env`.
pub open spec fn enabled_flag(name: Seq<char>) -> Seq<char> {
    unicode_uppercase(name) + ENABLED_SUFFIX@
}

/// `.env` after enabling `name`: unchanged when the flag is there, else the
/// flag on its own line at the end.
pub open spec fn env_after_external(env: Seq<char>, name: Seq<char>) -> Seq<char> {
    if has_substring(env, enabled_flag(name)) {
        env
    } else {
        env + enabled_flag(name) + "\n"@
    }
}

/// The new compose file, or none when it already declares the service
/// (then it is left as it is).
pub fn compose_with_external(compose: &str, name: &str, snippet: &str) -> (r: Option<String>)
    ensures
        r is None <==> has_substring(compose@, compose_marker(name@)),
        r matches Some(c) ==> c@ == compose_after_external(compose@, name@, snippet@),
{
    let marker = compose_service_marker(name);
    if contains(compose, marker.as_str()) {
        None
    } else {
        Some(concat3(compose, "\n", snippet))
    }
}

/// The new `.env`, or none when the service is already enabled (then it is
/// left as it is).
pub fn env_with_external(env: &str, name: &str) -> (r: Option<String>)
    ensures
        r is None <==> has_substring(env@, enabled_flag(name@)),
        r matches Some(e) ==> e@ == env_after_external(env@, name@),
        all_ascii(name@) ==> unicode_uppercase(name@) == ascii_uppered(name@),
{
    let upper = to_uppercase(name);
    let flag = concat2(upper.as_str(), ENABLED_SUFFIX);
    if contains(env, flag.as_str()) {
        None
    } else {
        Some(concat3(env, flag.as_str(), "\n"))
    }
}

/// Enabling an external service twice writes `.env` once: the second time
/// the flag is already there and nothing changes.
pub proof fn law_external_env_idempotent(env: Seq<char>, name: Seq<char>)
    ensures
        env_after_external(env_after_external(env, name), name) == env_after_external(env, name),
        has_substring(env_after_external(env, name), enabled_flag(name)),
{
    if !has_substring(env, enabled_flag(name)) {
        lemma_substring_middle(env, enabled_flag(name), "\n"@);
    }
}

/// Adding an external service twice changes the compose file at most once,
/// whenever its snippet declares the service (as every shipped snippet does).
pub proof fn law_external_compose_idempotent(compose: Seq<char>, name: Seq<char>, snippet: Seq<char>)
    requires
        has_substring(snippet, compose_marker(name)),
    ensures
        compose_after_external(compose_after_external(compose, name, snippet), name, snippet)
            == compose_after_external(compose, name, snippet),
        has_substring(compose_after_external(compose, name, snippet), compose_marker(name)),
{
    if !has_substring(compose, compose_marker(name)) {
        lemma_substring_prepend(compose + "\n"@, snippet, compose_marker(name));
    }
}

} // verus!
