//! The decisions of the interactive AI generation run: which directory
//! entries are manifests, services or skipped, how the existing code is
//! shown to the model, and what the user's answers mean.

use vstd::prelude::*;
use vstd::string::*;
use crate::text::{
    all_ascii, ascii_lowered, has_prefix, same_text, starts_with, to_lowercase, trim, trimmed,
    unicode_lowercase,
};

verus! {

/// The directory that holds validation rules instead of a service.
pub const VALIDATION_DIR: &'static str = "validation";

pub const EXISTING_SECTION_START: &'static str = "\n\n--- Arquivo Existente: ";

pub const EXISTING_SECTION_MIDDLE: &'static str = " ---\n\n";

/// Manifests and validation rules are Markdown or YAML files.
pub open spec fn manifest_extension(ext: Seq<char>) -> bool {
    ext == "md"@ || ext == "yml"@ || ext == "yaml"@
}

/// Entries that are never read as existing code: hidden ones, and build or
/// dependency directories.
pub open spec fn skipped_entry(name: Seq<char>) -> bool {
    has_prefix(name, "."@) || name == "target"@ || name == "node_modules"@ || name == "build"@
        || name == "dist"@ || name == "venv"@
}

/// Whether a file extension marks a manifest (or a validation rules file).
pub fn is_manifest_extension(ext: &str) -> (r: bool)
    ensures
        r == manifest_extension(ext@),
{
    same_text(ext, "md") || same_text(ext, "yml") || same_text(ext, "yaml")
}

/// Whether a directory holds validation rules rather than a service.
pub fn is_validation_dir(name: &str) -> (r: bool)
    ensures
        r == (name@ == VALIDATION_DIR@),
{
    same_text(name, VALIDATION_DIR)
}

/// Whether a directory entry is left out when existing code is gathered.
pub fn is_skipped_entry(name: &str) -> (r: bool)
    ensures
        r == skipped_entry(name@),
{
    starts_with(name, ".") || same_text(name, "target") || same_text(name, "node_modules")
        || same_text(name, "build") || same_text(name, "dist") || same_text(name, "venv")
}

/// One existing file as shown to the model.
pub open spec fn existing_section_text(path: Seq<char>, content: Seq<char>) -> Seq<char> {
    EXISTING_SECTION_START@ + path + EXISTING_SECTION_MIDDLE@ + content
}

/// Adds one existing file to the code shown to the model; `path` is the
/// file's path as the program displays it.
pub fn push_existing_section(code: &mut String, path: &str, content: &str)
    ensures
        final(code)@ == old(code)@ + existing_section_text(path@, content@),
{
    code.append(EXISTING_SECTION_START);
    code.append(path);
    code.append(EXISTING_SECTION_MIDDLE);
    code.append(content);
}

/// What the user's answer to a proposed plan asks for.
#[derive(Debug, Clone, Copy, PartialEq, Eq, Structural)]
pub enum ReviewDecision {
    /// "n": skip this service.
    Skip,
    /// "i": give feedback and get a new plan.
    Feedback,
    /// Anything else (including an empty line): approve the plan.
    Approve,
}

/// The answer as compared: trimmed and lowercased.
pub open spec fn normalized_answer(input: Seq<char>) -> Seq<char> {
    unicode_lowercase(trimmed(input))
}

/// What an answer to "approve this plan? [Y/n/i]" means: "n" skips, "i"
/// asks for feedback, anything else (an empty line too) approves.
pub open spec fn review_choice(input: Seq<char>) -> ReviewDecision {
    if normalized_answer(input) == "n"@ {
        ReviewDecision::Skip
    } else if normalized_answer(input) == "i"@ {
        ReviewDecision::Feedback
    } else {
        ReviewDecision::Approve
    }
}

/// The meaning of an answer to "approve this plan? [Y/n/i]".
pub fn review_decision(input: &str) -> (d: ReviewDecision)
    ensures
        d == review_choice(input@),
        all_ascii(trimmed(input@)) ==> normalized_answer(input@) == ascii_lowered(trimmed(input@)),
        trimmed(input@).len() == 0 ==> d == ReviewDecision::Approve,
{
    proof {
        reveal_strlit("n");
        reveal_strlit("i");
        assert(ascii_lowered(Seq::<char>::empty()) =~= Seq::<char>::empty());
    }
    let t = trim(input);
    let answer = to_lowercase(t.as_str());
    proof {
        if trimmed(input@).len() == 0 {
            assert(t@ =~= Seq::<char>::empty());
            assert(answer@.len() == 0);
        }
    }
    if same_text(answer.as_str(), "n") {
        ReviewDecision::Skip
    } else if same_text(answer.as_str(), "i") {
        ReviewDecision::Feedback
    } else {
        ReviewDecision::Approve
    }
}

/// Feedback typed by the user, trimmed; none when it is blank.
pub fn feedback_text(input: &str) -> (r: Option<String>)
    ensures
        trimmed(input@).len() == 0 ==> r is None,
        trimmed(input@).len() > 0 ==> (r matches Some(f) && f@ == trimmed(input@)),
{
    let t = trim(input);
    if t.as_str().unicode_len() == 0 {
        None
    } else {
        Some(t)
    }
}

/// Whether an answer to "approve the validation results? [Y/n]" rejects
/// them: only "n" does.
pub fn validation_rejected(input: &str) -> (r: bool)
    ensures
        r == (normalized_answer(input@) == "n"@),
        all_ascii(trimmed(input@)) ==> normalized_answer(input@) == ascii_lowered(trimmed(input@)),
        trimmed(input@).len() == 0 ==> !r,
{
    proof {
        reveal_strlit("n");
        assert(ascii_lowered(Seq::<char>::empty()) =~= Seq::<char>::empty());
    }
    let t = trim(input);
    let answer = to_lowercase(t.as_str());
    proof {
        if trimmed(input@).len() == 0 {
            assert(t@ =~= Seq::<char>::empty());
            assert(answer@.len() == 0);
        }
    }
    same_text(answer.as_str(), "n")
}

/// Manifests and validation rules are exactly the Markdown and YAML files:
/// the extensions `md`, `yml` and `yaml`, and no other (source files such
/// as `py` are never taken for a manifest).
pub proof fn law_manifest_extensions(ext: Seq<char>)
    ensures
        manifest_extension(ext) <==> (ext =~= seq!['m', 'd'] || ext =~= seq!['y', 'm', 'l']
            || ext =~= seq!['y', 'a', 'm', 'l']),
        !manifest_extension(seq!['p', 'y']),
{
    reveal_strlit("md");
    reveal_strlit("yml");
    reveal_strlit("yaml");
    assert("md"@ =~= seq!['m', 'd']);
    assert("yml"@ =~= seq!['y', 'm', 'l']);
    assert("yaml"@ =~= seq!['y', 'a', 'm', 'l']);
    assert(seq!['p', 'y'] !~= seq!['m', 'd']) by {
        assert(seq!['p', 'y'][0] != seq!['m', 'd'][0]);
    }
}

} // verus!
