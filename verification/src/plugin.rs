//! Plugins: what each target of a plugin asks for, where a plugin's files
//! live, and how a plugin file fetched from GitHub is decoded.

use vstd::prelude::*;
use vstd::string::*;
use crate::text::{
    concat2, concat3, lemma_without_char_absent, lemma_without_char_idempotent, remove_char, same_text, without_char,
};

verus! {

#[verifier::external_type_specification]
#[verifier::external_body]
pub struct ExDecodeError(base64::DecodeError);

/// A plugin as described by its `plugin.yaml`.
#[derive(Debug)]
pub struct Plugin {
    pub name: String,
    pub description: String,
    pub targets: Vec<Target>,
}

/// One file a plugin writes into a project: rendered from a template, or
/// text appended to it.
#[derive(Debug)]
pub struct Target {
    /// The file, relative to the project.
    pub path: String,
    /// A template of the plugin to render into the file.
    pub template: Option<String>,
    /// Text to append to the file (used only when there is no template).
    pub append: Option<String>,
    /// Whether the plugin's own file or directory of the same path is
    /// copied into the project (used only when there is neither a
    /// template nor text to append).
    pub copy: Option<bool>,
}

/// What is done for one target.
#[derive(Debug, PartialEq, Eq)]
pub enum TargetAction {
    /// Render this template of the plugin into the target file.
    Render(String),
    /// Append this text to the target file (creating it when missing).
    Append(String),
    /// Copy the plugin's file or directory at this path, relative to the
    /// plugin's directory, to the same path in the project.
    Copy(String),
    /// Nothing to do.
    Nothing,
}

/// A template wins over appended text, appended text over a copy; a
/// target that asks for none of them is skipped.
pub fn target_action(target: &Target) -> (a: TargetAction)
    ensures
        target.template matches Some(t) ==> (a matches TargetAction::Render(r) && r@ == t@),
        target.template is None && target.append is Some ==> (a matches TargetAction::Append(r)
            && r@ == target.append->0@),
        target.template is None && target.append is None && target.copy == Some(true) ==> (
        a matches TargetAction::Copy(r) && r@ == target.path@),
        target.template is None && target.append is None && target.copy != Some(true) ==> a
            == TargetAction::Nothing,
{
    match &target.template {
        Some(t) => TargetAction::Render(t.clone()),
        None => match &target.append {
            Some(x) => TargetAction::Append(x.clone()),
            None => match target.copy {
                Some(true) => TargetAction::Copy(target.path.clone()),
                _ => TargetAction::Nothing,
            },
        },
    }
}

/// Where the plugin's own copy of a copied target lives.
pub fn plugin_copy_source(name: &str, path: &str) -> (p: String)
    ensures
        p@ == PLUGINS_DIR@ + name@ + "/"@ + path@,
{
    plugin_template_path(name, path)
}

/// The file's content after appending `text`: the old content (empty when
/// the file does not exist) followed by the text.
pub fn appended_content(existing: &str, text: &str) -> (c: String)
    ensures
        c@ == existing@ + text@,
{
    concat2(existing, text)
}

pub const PLUGINS_DIR: &'static str = "templates/plugins/";

pub const PLUGIN_MANIFEST: &'static str = "/plugin.yaml";

pub const PLUGIN_TEMPLATES_GLOB: &'static str = "/**/*";

pub const GITHUB_CONTENTS_URL: &'static str = "https://api.github.com/repos/DigitalizeBr/fastgen/contents/";

pub const GITHUB_PLUGINS_PATH: &'static str = "templates/plugins/";

/// The directory of a plugin.
pub fn plugin_dir(name: &str) -> (p: String)
    ensures
        p@ == PLUGINS_DIR@ + name@,
{
    concat2(PLUGINS_DIR, name)
}

/// The description file of a plugin.
pub fn plugin_manifest_path(name: &str) -> (p: String)
    ensures
        p@ == PLUGINS_DIR@ + name@ + PLUGIN_MANIFEST@,
{
    concat3(PLUGINS_DIR, name, PLUGIN_MANIFEST)
}

/// The pattern of all template files of a plugin.
pub fn plugin_templates_glob(name: &str) -> (p: String)
    ensures
        p@ == PLUGINS_DIR@ + name@ + PLUGIN_TEMPLATES_GLOB@,
{
    concat3(PLUGINS_DIR, name, PLUGIN_TEMPLATES_GLOB)
}

/// The path of one template of a plugin, as reported when rendering fails.
pub fn plugin_template_path(name: &str, template: &str) -> (p: String)
    ensures
        p@ == PLUGINS_DIR@ + name@ + "/"@ + template@,
{
    let mut p = concat3(PLUGINS_DIR, name, "/");
    p.append(template);
    p
}

/// The GitHub API listing of a plugin's files in the official repository.
pub fn github_plugin_url(name: &str) -> (u: String)
    ensures
        u@ == GITHUB_CONTENTS_URL@ + GITHUB_PLUGINS_PATH@ + name@,
{
    concat3(GITHUB_CONTENTS_URL, GITHUB_PLUGINS_PATH, name)
}

/// The GitHub API address of one file of the official repository.
pub fn github_file_url(path: &str) -> (u: String)
    ensures
        u@ == GITHUB_CONTENTS_URL@ + path@,
{
    concat2(GITHUB_CONTENTS_URL, path)
}

/// The bytes that standard base64 (with padding) encodes in `text`, or none
/// when `text` is not valid standard base64, as base64's `decode` decides.
pub uninterp spec fn standard_base64_decoding(text: Seq<char>) -> Option<Seq<u8>>;

/// Calls `base64::decode` (the STANDARD engine) on the text's bytes; the
/// outcome is named `standard_base64_decoding`.
#[verifier::external_body]
fn base64_decode(text: &str) -> (r: Result<Vec<u8>, base64::DecodeError>)
    ensures
        r is Ok <==> standard_base64_decoding(text@) is Some,
        r matches Ok(v) ==> standard_base64_decoding(text@) == Some(v@),
{
    #[allow(deprecated)]
    base64::decode(text)
}

/// Why a fetched plugin file could not be decoded.
#[derive(Debug)]
pub enum ContentError {
    /// The content is not valid base64.
    InvalidBase64(base64::DecodeError),
}

/// What a file fetched from GitHub decodes to: nothing unless it has
/// content in the "base64" encoding; then the decoding of the content with
/// its line breaks removed.
pub open spec fn fetched_content(content: Option<Seq<char>>, encoding: Option<Seq<char>>) -> Option<
    Option<Seq<u8>>,
> {
    match (content, encoding) {
        (Some(c), Some(e)) => if e == "base64"@ {
            Some(standard_base64_decoding(without_char(c, '\n')))
        } else {
            None
        },
        _ => None,
    }
}

/// The views of optional texts.
pub open spec fn opt_view(s: Option<String>) -> Option<Seq<char>> {
    match s {
        Some(t) => Some(t@),
        None => None,
    }
}

/// Decodes a file fetched from GitHub: none when it carries no base64
/// content (it is skipped), else its bytes or the decoding error.
pub fn decode_fetched_content(content: &Option<String>, encoding: &Option<String>) -> (r: Option<
    Result<Vec<u8>, ContentError>,
>)
    ensures
        r is None <==> fetched_content(opt_view(*content), opt_view(*encoding)) is None,
        r matches Some(Ok(v)) ==> fetched_content(opt_view(*content), opt_view(*encoding))
            == Some(Some(v@)),
        r matches Some(Err(_)) ==> fetched_content(opt_view(*content), opt_view(*encoding))
            == Some(None::<Seq<u8>>),
{
    match (content, encoding) {
        (Some(c), Some(e)) => {
            if same_text(e.as_str(), "base64") {
                let joined = remove_char(c.as_str(), '\n');
                match base64_decode(joined.as_str()) {
                    Ok(bytes) => Some(Ok(bytes)),
                    Err(err) => Some(Err(ContentError::InvalidBase64(err))),
                }
            } else {
                None
            }
        },
        _ => None,
    }
}

/// Line breaks in fetched base64 content do not matter: the text handed to
/// the decoder holds none, and content with its line breaks already
/// removed decodes to the same bytes.
pub proof fn law_fetched_content_ignores_line_breaks(c: Seq<char>, e: Option<Seq<char>>)
    ensures
        !without_char(c, '\n').contains('\n'),
        fetched_content(Some(without_char(c, '\n')), e) == fetched_content(Some(c), e),
{
    lemma_without_char_absent(c, '\n');
    lemma_without_char_idempotent(c, '\n');
}

/// `c` with every line break left out, as `filter` keeps the other
/// characters in order.
proof fn lemma_without_line_breaks(c: Seq<char>)
    ensures
        without_char(c, '\n') == c.filter(|x: char| x != '\n'),
    decreases c.len(),
{
    let p = |x: char| x != '\n';
    if c.len() == 0 {
        assert(c.filter(p) =~= c);
    } else {
        lemma_without_line_breaks(c.skip(1));
        assert(c =~= seq![c[0]] + c.skip(1));
        c.skip(1).lemma_filter_prepend(c[0], p);
        if c[0] == '\n' {
            assert(Seq::<char>::empty() + c.skip(1).filter(p) =~= c.skip(1).filter(p));
        }
    }
}

/// Base64 content fetched from GitHub is decoded from exactly its
/// characters other than line breaks, in order: nothing else is dropped,
/// and content without line breaks is decoded as it is.
pub proof fn law_fetched_base64_decodes_content(c: Seq<char>)
    ensures
        fetched_content(Some(c), Some("base64"@)) == Some(
            standard_base64_decoding(c.filter(|x: char| x != '\n')),
        ),
        !c.contains('\n') ==> fetched_content(Some(c), Some("base64"@)) == Some(
            standard_base64_decoding(c),
        ),
{
    lemma_without_line_breaks(c);
    if !c.contains('\n') {
        let p = |x: char| x != '\n';
        assert forall|i: int| 0 <= i < c.len() implies p(c[i]) by {
            if c[i] == '\n' {
                assert(c.contains('\n'));
            }
        }
        lemma_filter_all(c, p);
    }
}

/// Filtering with a predicate that every element meets keeps everything.
proof fn lemma_filter_all(s: Seq<char>, p: spec_fn(char) -> bool)
    requires
        forall|i: int| 0 <= i < s.len() ==> p(s[i]),
    ensures
        s.filter(p) == s,
    decreases s.len(),
{
    reveal(Seq::filter);
    if s.len() > 0 {
        assert forall|i: int| 0 <= i < s.drop_last().len() implies p(s.drop_last()[i]) by {
            assert(s.drop_last()[i] == s[i]);
        }
        lemma_filter_all(s.drop_last(), p);
        assert(p(s.last()));
        assert(s.drop_last().push(s.last()) =~= s);
    } else {
        assert(s.filter(p) =~= s);
    }
}

} // verus!
