//! The three prompts of AI generation (plan, execute, validate) and the
//! planning step.

use vstd::prelude::*;
use vstd::string::*;
use crate::ai::providers::LlmProvider;

verus! {

pub const PLAN_PROMPT_START: &'static str = "You are FastGen AI, an expert software architect and Cloud Native engineer.\nThe user wants to generate a microservice or infrastructure component named '";

pub const PLAN_PROMPT_MIDDLE: &'static str = "'.\nRead the following manifest/instructions:\n\n";

pub const PLAN_PROMPT_END: &'static str = "\n\nCreate a detailed step-by-step plan of the files and directories that will be created for this service.\nDo NOT generate the code yet. Just describe the architecture and the file structure in Markdown.";

pub const EXECUTE_PROMPT_START: &'static str = "You are FastGen AI, an expert Cloud Native engineer.\nYou must generate the code for a service named '";

pub const EXECUTE_PROMPT_MANIFEST: &'static str = "'.\nHere is the original manifest:\n";

pub const EXECUTE_PROMPT_PLAN: &'static str = "\n\nHere is the approved plan:\n";

pub const EXECUTE_PROMPT_END: &'static str = "\n\nYou MUST use the function 'create_files' to generate the files. Ensure all code is functional, clean, and follows best practices.";

pub const VALIDATE_PROMPT_START: &'static str = "You are FastGen AI Security and QA Agent.\nReview the following codebase against the validation rules provided.\nValidation Rules:\n";

pub const VALIDATE_PROMPT_CODE: &'static str = "\n\nCodebase:\n";

pub const VALIDATE_PROMPT_END: &'static str = "\n\nProvide a detailed report on whether the code passes the validation rules. List any issues found, or state clearly if everything is correct.";

pub const FILE_SECTION_START: &'static str = "\n\n--- File: ";

pub const FILE_SECTION_MIDDLE: &'static str = " ---\n\n";

/// The prompt asking for an architecture plan of a service.
pub open spec fn plan_prompt_text(manifest: Seq<char>, service_name: Seq<char>) -> Seq<char> {
    PLAN_PROMPT_START@ + service_name + PLAN_PROMPT_MIDDLE@ + manifest + PLAN_PROMPT_END@
}

/// The prompt asking for the files of a service, given its approved plan.
pub open spec fn execute_prompt_text(
    manifest: Seq<char>,
    service_name: Seq<char>,
    plan: Seq<char>,
) -> Seq<char> {
    EXECUTE_PROMPT_START@ + service_name + EXECUTE_PROMPT_MANIFEST@ + manifest
        + EXECUTE_PROMPT_PLAN@ + plan + EXECUTE_PROMPT_END@
}

/// The prompt asking to review a code base against validation rules.
pub open spec fn validation_prompt_text(rules: Seq<char>, code: Seq<char>) -> Seq<char> {
    VALIDATE_PROMPT_START@ + rules + VALIDATE_PROMPT_CODE@ + code + VALIDATE_PROMPT_END@
}

/// One file of the code base shown to the validation agent.
pub open spec fn file_section_text(path: Seq<char>, content: Seq<char>) -> Seq<char> {
    FILE_SECTION_START@ + path + FILE_SECTION_MIDDLE@ + content
}

/// The prompt asking for an architecture plan of a service.
pub fn plan_prompt(manifest_content: &str, service_name: &str) -> (p: String)
    ensures
        p@ == plan_prompt_text(manifest_content@, service_name@),
{
    let mut p = String::from_str(PLAN_PROMPT_START);
    p.append(service_name);
    p.append(PLAN_PROMPT_MIDDLE);
    p.append(manifest_content);
    p.append(PLAN_PROMPT_END);
    p
}

/// Asks the model for an architecture plan (Markdown, no code yet) of the
/// service described by the manifest: the answer (or the model's error,
/// unchanged) to exactly `plan_prompt(manifest_content, service_name)`.
pub fn generate_plan<P: LlmProvider + ?Sized>(
    provider: &P,
    manifest_content: &str,
    service_name: &str,
) -> (r: Result<String, String>)
    ensures
        provider.answers(plan_prompt_text(manifest_content@, service_name@), r),
{
    let prompt = plan_prompt(manifest_content, service_name);
    provider.chat(prompt.as_str())
}

/// The prompt asking for the files of a service, given its approved plan.
pub fn execute_prompt(manifest_content: &str, service_name: &str, plan_text: &str) -> (p: String)
    ensures
        p@ == execute_prompt_text(manifest_content@, service_name@, plan_text@),
{
    let mut p = String::from_str(EXECUTE_PROMPT_START);
    p.append(service_name);
    p.append(EXECUTE_PROMPT_MANIFEST);
    p.append(manifest_content);
    p.append(EXECUTE_PROMPT_PLAN);
    p.append(plan_text);
    p.append(EXECUTE_PROMPT_END);
    p
}

/// The prompt asking to review a code base against validation rules.
pub fn validation_prompt(validation_rules: &str, code: &str) -> (p: String)
    ensures
        p@ == validation_prompt_text(validation_rules@, code@),
{
    let mut p = String::from_str(VALIDATE_PROMPT_START);
    p.append(validation_rules);
    p.append(VALIDATE_PROMPT_CODE);
    p.append(code);
    p.append(VALIDATE_PROMPT_END);
    p
}

/// Adds one file to the code base shown to the validation agent; `path` is
/// the file's path as the program displays it.
pub fn push_file_section(code: &mut String, path: &str, content: &str)
    ensures
        final(code)@ == old(code)@ + file_section_text(path@, content@),
{
    code.append(FILE_SECTION_START);
    code.append(path);
    code.append(FILE_SECTION_MIDDLE);
    code.append(content);
}

} // verus!
