//! Language-model providers: which one the settings select, with which
//! credentials, model and HTTP client, and the request texts each one
//! sends. The HTTP exchanges themselves are made by the program around this
//! library.

use vstd::prelude::*;
use vstd::string::*;
use crate::config::{Config, DEFAULT_OLLAMA_URL};
use crate::text::{
    all_ascii, ascii_lowered, concat2, concat3, owned, same_text, stripped_end, stripped_start,
    to_lowercase, trim, trim_end_matches, trim_start_matches, trimmed, unicode_lowercase,
};

verus! {

#[verifier::external_type_specification]
#[verifier::external_body]
pub struct ExHttpClient(reqwest::blocking::Client);

#[verifier::external_type_specification]
#[verifier::external_body]
pub struct ExHttpError(reqwest::Error);

/// A blocking HTTP client together with the request timeout it was built
/// with.
pub struct HttpClient {
    inner: reqwest::blocking::Client,
    timeout_secs: u64,
}

impl HttpClient {
    /// Seconds before a request made with this client times out.
    pub closed spec fn timeout(&self) -> u64 {
        self.timeout_secs
    }

    /// Seconds before a request made with this client times out.
    pub fn timeout_secs(&self) -> (t: u64)
        ensures
            t == self.timeout(),
    {
        self.timeout_secs
    }

    /// The reqwest client that sends the requests.
    pub fn client(&self) -> &reqwest::blocking::Client {
        &self.inner
    }
}

/// Calls `reqwest::blocking::Client::builder()`, then
/// `ClientBuilder::timeout(Duration::from_secs(seconds))`, then
/// `ClientBuilder::build`, and keeps the timeout beside the client. Whether
/// the build succeeds depends on the TLS backend and the system resolver
/// configuration, so only the timeout of a built client is stated. reqwest
/// documents that `build` panics when called inside an async runtime; this
/// library never runs one.
#[verifier::external_body]
fn build_http_client(seconds: u64) -> (r: Result<HttpClient, reqwest::Error>)
    ensures
        r matches Ok(c) ==> c.timeout() == seconds,
{
    reqwest::blocking::Client::builder()
        .timeout(std::time::Duration::from_secs(seconds))
        .build()
        .map(|inner| HttpClient { inner, timeout_secs: seconds })
}

/// Calls `to_string` (the `Display` text) on a reqwest error. The text is
/// not stated.
#[verifier::external_body]
fn http_error_text(e: &reqwest::Error) -> String {
    e.to_string()
}

/// An HTTP client whose requests time out after `seconds`; a failure to
/// build it (decided by the TLS backend and the system resolver) is
/// reported by its message.
pub fn http_client(seconds: u64) -> (r: Result<HttpClient, String>)
    ensures
        r matches Ok(c) ==> c.timeout() == seconds,
{
    match build_http_client(seconds) {
        Ok(client) => Ok(client),
        Err(e) => Err(http_error_text(&e)),
    }
}

/// A file that a model asks to create: its path relative to the service
/// directory, and its full content.
#[derive(Debug, Clone)]
pub struct GeneratedFile {
    pub path: String,
    pub content: String,
}

/// A language model that answers prompts.
pub trait LlmProvider {
    /// `r` is an answer this model may give to `prompt` (models are not
    /// deterministic, so this is a relation, not a function). Unless an
    /// implementation says more of its model, any answer may come.
    open spec fn answers(&self, prompt: Seq<char>, r: Result<String, String>) -> bool {
        true
    }

    /// The model's answer to `prompt`, or a message saying why there is none.
    fn chat(&self, prompt: &str) -> (r: Result<String, String>)
        ensures
            self.answers(prompt@, r),
    ;

    /// The files the model asks to create for `prompt`.
    fn generate_files(&self, prompt: &str) -> Result<Vec<GeneratedFile>, String>;
}

pub const OPENAI_DEFAULT_MODEL: &'static str = "gpt-4o-mini";

pub const GEMINI_DEFAULT_MODEL: &'static str = "gemini-1.5-pro";

pub const OLLAMA_DEFAULT_MODEL: &'static str = "llama3";

pub const OPENAI_KEY_MISSING: &'static str = "openai_api_key is required";

pub const GEMINI_KEY_MISSING: &'static str = "gemini_api_key is required";

pub const UNKNOWN_PROVIDER_PREFIX: &'static str = "Unknown LLM provider: ";

/// Seconds before a request to OpenAI or Gemini times out.
pub const REMOTE_TIMEOUT_SECS: u64 = 120;

/// Seconds before a request to Ollama times out.
pub const OLLAMA_TIMEOUT_SECS: u64 = 300;

/// The endpoint of OpenAI's chat completions.
pub const OPENAI_CHAT_URL: &'static str = "https://api.openai.com/v1/chat/completions";

pub const GEMINI_URL_PREFIX: &'static str = "https://generativelanguage.googleapis.com/v1beta/models/";

pub const GEMINI_URL_MIDDLE: &'static str = ":generateContent?key=";

pub const OLLAMA_GENERATE_PATH: &'static str = "/api/generate";

pub const OLLAMA_JSON_INSTRUCTION: &'static str = "\n\nIMPORTANT: You must return the output as a strict JSON format exactly like this, without any markdown formatting or extra text outside the JSON block. Do not wrap it in ```json blocks:\n[{\"path\": \"app/main.py\", \"content\": \"print('hello')\"}]";

pub const UNEXPECTED_OLLAMA_JSON: &'static str = "Unexpected JSON structure from Ollama";

pub const OLLAMA_INVALID_JSON_PREFIX: &'static str = "Invalid JSON from Ollama: ";

/// The configured value, or the default when none is configured.
pub open spec fn or_default(v: Option<String>, default: Seq<char>) -> Seq<char> {
    match v {
        Some(s) => s@,
        None => default,
    }
}

fn clone_or(v: &Option<String>, default: &str) -> (r: String)
    ensures
        r@ == or_default(*v, default@),
{
    match v {
        Some(s) => s.clone(),
        None => owned(default),
    }
}

/// OpenAI's chat completions service.
pub struct OpenAiProvider {
    pub client: HttpClient,
    pub api_key: String,
    pub model: String,
}

/// Google's Gemini service.
pub struct GeminiProvider {
    pub client: HttpClient,
    pub api_key: String,
    pub model: String,
}

/// A local or remote Ollama server.
pub struct OllamaProvider {
    pub client: HttpClient,
    pub url: String,
    pub model: String,
}

impl OpenAiProvider {
    /// This provider was made from `config`: its key, its model (default
    /// "gpt-4o-mini") and a client with a 120 s timeout.
    pub open spec fn made_from(self, config: Config) -> bool {
        &&& config.openai_api_key matches Some(k) && self.api_key@ == k@
        &&& self.model@ == or_default(config.llm_model, OPENAI_DEFAULT_MODEL@)
        &&& self.client.timeout() == REMOTE_TIMEOUT_SECS
    }

    /// Requires `openai_api_key`; the HTTP client (120 s timeout) may fail
    /// to build, and then its error message is returned.
    pub fn new(config: &Config) -> (r: Result<Self, String>)
        ensures
            config.openai_api_key is None ==> (r matches Err(e) && e@ == OPENAI_KEY_MISSING@),
            r matches Ok(p) ==> p.made_from(*config),
    {
        if config.openai_api_key.is_none() {
            return Err(owned(OPENAI_KEY_MISSING));
        }
        Self::with_client(config, http_client(REMOTE_TIMEOUT_SECS))
    }

    /// The provider made from `config` and the outcome of building its HTTP
    /// client: the key is required first; then a client that failed to
    /// build gives its error message.
    pub fn with_client(config: &Config, client: Result<HttpClient, String>) -> (r: Result<
        Self,
        String,
    >)
        requires
            client matches Ok(c) ==> c.timeout() == REMOTE_TIMEOUT_SECS,
        ensures
            config.openai_api_key is None ==> (r matches Err(e) && e@ == OPENAI_KEY_MISSING@),
            config.openai_api_key is Some && client is Err ==> r == Err::<Self, String>(
                client->Err_0,
            ),
            config.openai_api_key is Some && client is Ok ==> (r matches Ok(p) && p.made_from(
                *config,
            ) && p.client == client->Ok_0),
    {
        let api_key = match &config.openai_api_key {
            Some(k) => k.clone(),
            None => return Err(owned(OPENAI_KEY_MISSING)),
        };
        let model = clone_or(&config.llm_model, OPENAI_DEFAULT_MODEL);
        let client = client?;
        Ok(OpenAiProvider { client, api_key, model })
    }
}

impl GeminiProvider {
    /// This provider was made from `config`: its key, its model (default
    /// "gemini-1.5-pro") and a client with a 120 s timeout.
    pub open spec fn made_from(self, config: Config) -> bool {
        &&& config.gemini_api_key matches Some(k) && self.api_key@ == k@
        &&& self.model@ == or_default(config.llm_model, GEMINI_DEFAULT_MODEL@)
        &&& self.client.timeout() == REMOTE_TIMEOUT_SECS
    }

    /// Requires `gemini_api_key`; the HTTP client (120 s timeout) may fail
    /// to build, and then its error message is returned.
    pub fn new(config: &Config) -> (r: Result<Self, String>)
        ensures
            config.gemini_api_key is None ==> (r matches Err(e) && e@ == GEMINI_KEY_MISSING@),
            r matches Ok(p) ==> p.made_from(*config),
    {
        if config.gemini_api_key.is_none() {
            return Err(owned(GEMINI_KEY_MISSING));
        }
        Self::with_client(config, http_client(REMOTE_TIMEOUT_SECS))
    }

    /// The provider made from `config` and the outcome of building its HTTP
    /// client: the key is required first; then a client that failed to
    /// build gives its error message.
    pub fn with_client(config: &Config, client: Result<HttpClient, String>) -> (r: Result<
        Self,
        String,
    >)
        requires
            client matches Ok(c) ==> c.timeout() == REMOTE_TIMEOUT_SECS,
        ensures
            config.gemini_api_key is None ==> (r matches Err(e) && e@ == GEMINI_KEY_MISSING@),
            config.gemini_api_key is Some && client is Err ==> r == Err::<Self, String>(
                client->Err_0,
            ),
            config.gemini_api_key is Some && client is Ok ==> (r matches Ok(p) && p.made_from(
                *config,
            ) && p.client == client->Ok_0),
    {
        let api_key = match &config.gemini_api_key {
            Some(k) => k.clone(),
            None => return Err(owned(GEMINI_KEY_MISSING)),
        };
        let model = clone_or(&config.llm_model, GEMINI_DEFAULT_MODEL);
        let client = client?;
        Ok(GeminiProvider { client, api_key, model })
    }
}

impl OllamaProvider {
    /// This provider was made from `config`: its server address (default
    /// "http://localhost:11434"), its model (default "llama3") and a client
    /// with a 300 s timeout.
    pub open spec fn made_from(self, config: Config) -> bool {
        &&& self.url@ == or_default(config.ollama_url, DEFAULT_OLLAMA_URL@)
        &&& self.model@ == or_default(config.llm_model, OLLAMA_DEFAULT_MODEL@)
        &&& self.client.timeout() == OLLAMA_TIMEOUT_SECS
    }

    /// Needs no credential; the HTTP client (300 s timeout) may fail to
    /// build, and then its error message is returned.
    pub fn new(config: &Config) -> (r: Result<Self, String>)
        ensures
            r matches Ok(p) ==> p.made_from(*config),
    {
        Self::with_client(config, http_client(OLLAMA_TIMEOUT_SECS))
    }

    /// The provider made from `config` and the outcome of building its HTTP
    /// client; a client that failed to build gives its error message.
    pub fn with_client(config: &Config, client: Result<HttpClient, String>) -> (r: Result<
        Self,
        String,
    >)
        requires
            client matches Ok(c) ==> c.timeout() == OLLAMA_TIMEOUT_SECS,
        ensures
            client is Err ==> r == Err::<Self, String>(client->Err_0),
            client is Ok ==> (r matches Ok(p) && p.made_from(*config) && p.client == client->Ok_0),
    {
        let url = clone_or(&config.ollama_url, DEFAULT_OLLAMA_URL);
        let model = clone_or(&config.llm_model, OLLAMA_DEFAULT_MODEL);
        let client = client?;
        Ok(OllamaProvider { client, url, model })
    }
}

/// A provider chosen by the settings.
pub enum Provider {
    OpenAi(OpenAiProvider),
    Gemini(GeminiProvider),
    Ollama(OllamaProvider),
}

/// The kinds of provider the settings can name.
#[derive(Debug, Clone, Copy, PartialEq, Eq, Structural)]
pub enum ProviderKind {
    OpenAi,
    Gemini,
    Ollama,
}

/// The provider name in the settings; "ollama" when none is given.
pub open spec fn provider_name(config: Config) -> Seq<char> {
    or_default(config.llm_provider, "ollama"@)
}

/// The kind that a lowercased provider name selects, if it is known.
pub open spec fn kind_named(lowered: Seq<char>) -> Option<ProviderKind> {
    if lowered == "openai"@ {
        Some(ProviderKind::OpenAi)
    } else if lowered == "gemini"@ {
        Some(ProviderKind::Gemini)
    } else if lowered == "ollama"@ {
        Some(ProviderKind::Ollama)
    } else {
        None
    }
}

/// The kind that the (lowercased) provider name selects, if it is known.
pub open spec fn selected_kind(config: Config) -> Option<ProviderKind> {
    kind_named(unicode_lowercase(provider_name(config)))
}

/// Seconds before a request to a provider of this kind times out.
pub open spec fn kind_timeout(kind: ProviderKind) -> u64 {
    match kind {
        ProviderKind::Ollama => OLLAMA_TIMEOUT_SECS,
        _ => REMOTE_TIMEOUT_SECS,
    }
}

/// The settings lack the key a provider of this kind needs.
pub open spec fn key_missing(config: Config, kind: ProviderKind) -> bool {
    match kind {
        ProviderKind::OpenAi => config.openai_api_key is None,
        ProviderKind::Gemini => config.gemini_api_key is None,
        ProviderKind::Ollama => false,
    }
}

/// The message reporting that the key of this kind is missing.
pub open spec fn key_missing_message(kind: ProviderKind) -> Seq<char> {
    match kind {
        ProviderKind::Gemini => GEMINI_KEY_MISSING@,
        _ => OPENAI_KEY_MISSING@,
    }
}

impl Provider {
    pub open spec fn kind(self) -> ProviderKind {
        match self {
            Provider::OpenAi(_) => ProviderKind::OpenAi,
            Provider::Gemini(_) => ProviderKind::Gemini,
            Provider::Ollama(_) => ProviderKind::Ollama,
        }
    }

    /// The provider was made from `config` with the settings of its kind.
    pub open spec fn made_from(self, config: Config) -> bool {
        match self {
            Provider::OpenAi(p) => p.made_from(config),
            Provider::Gemini(p) => p.made_from(config),
            Provider::Ollama(p) => p.made_from(config),
        }
    }
}

proof fn lemma_known_names()
    ensures
        kind_named("openai"@) == Some(ProviderKind::OpenAi),
        kind_named("gemini"@) == Some(ProviderKind::Gemini),
        kind_named("ollama"@) == Some(ProviderKind::Ollama),
        all_ascii("ollama"@),
        ascii_lowered("ollama"@) == "ollama"@,
{
    reveal_strlit("ollama");
    reveal_strlit("openai");
    reveal_strlit("gemini");
    assert("ollama"@ != "openai"@) by {
        assert("ollama"@[1] != "openai"@[1]);
    }
    assert("ollama"@ != "gemini"@) by {
        assert("ollama"@[0] != "gemini"@[0]);
    }
    assert("gemini"@ != "openai"@) by {
        assert("gemini"@[0] != "openai"@[0]);
    }
    assert("ollama"@ =~= seq!['o', 'l', 'l', 'a', 'm', 'a']);
    assert(ascii_lowered("ollama"@) =~= "ollama"@);
}

/// The kind of provider the settings name (case does not matter; "ollama"
/// when none is named), or "Unknown LLM provider: <name>".
pub fn provider_kind(config: &Config) -> (r: Result<ProviderKind, String>)
    ensures
        selected_kind(*config) matches Some(k) ==> r == Ok::<ProviderKind, String>(k),
        selected_kind(*config) is None ==> (r matches Err(e) && e@ == UNKNOWN_PROVIDER_PREFIX@
            + provider_name(*config)),
        config.llm_provider is None ==> selected_kind(*config) == Some(ProviderKind::Ollama),
        all_ascii(provider_name(*config)) ==> selected_kind(*config) == kind_named(
            ascii_lowered(provider_name(*config)),
        ),
{
    let name = clone_or(&config.llm_provider, "ollama");
    proof {
        lemma_known_names();
    }
    let lower = to_lowercase(name.as_str());
    if same_text(lower.as_str(), "openai") {
        Ok(ProviderKind::OpenAi)
    } else if same_text(lower.as_str(), "gemini") {
        Ok(ProviderKind::Gemini)
    } else if same_text(lower.as_str(), "ollama") {
        Ok(ProviderKind::Ollama)
    } else {
        Err(concat2(UNKNOWN_PROVIDER_PREFIX, name.as_str()))
    }
}

/// The provider of a given kind made from `config` and the outcome of
/// building its HTTP client: a missing key is reported first; then a client
/// that failed to build gives its error message; otherwise it succeeds.
pub fn provider_from_client(
    config: &Config,
    kind: ProviderKind,
    client: Result<HttpClient, String>,
) -> (r: Result<Provider, String>)
    requires
        client matches Ok(c) ==> c.timeout() == kind_timeout(kind),
    ensures
        key_missing(*config, kind) ==> (r matches Err(e) && e@ == key_missing_message(kind)),
        !key_missing(*config, kind) && client is Err ==> r == Err::<Provider, String>(
            client->Err_0,
        ),
        !key_missing(*config, kind) && client is Ok ==> (r matches Ok(p) && p.kind() == kind
            && p.made_from(*config)),
        r is Ok <==> (!key_missing(*config, kind) && client is Ok),
{
    match kind {
        ProviderKind::OpenAi => Ok(Provider::OpenAi(OpenAiProvider::with_client(config, client)?)),
        ProviderKind::Gemini => Ok(Provider::Gemini(GeminiProvider::with_client(config, client)?)),
        ProviderKind::Ollama => Ok(Provider::Ollama(OllamaProvider::with_client(config, client)?)),
    }
}

/// What holds of every outcome of selecting a provider from `config`: an
/// unknown name is refused with "Unknown LLM provider: <name>", a missing
/// key with the provider's own message, and a provider that comes back is
/// the selected kind made from the settings. (When the name is known and
/// the key present, the outcome still depends on building the HTTP
/// client.)
pub open spec fn provider_outcome(config: Config, r: Result<Provider, String>) -> bool {
    &&& selected_kind(config) is None ==> (r matches Err(e) && e@ == UNKNOWN_PROVIDER_PREFIX@
        + provider_name(config))
    &&& selected_kind(config) is Some && key_missing(config, selected_kind(config)->0) ==> (
    r matches Err(e) && e@ == key_missing_message(selected_kind(config)->0))
    &&& r matches Ok(p) ==> selected_kind(config) == Some(p.kind()) && p.made_from(config)
}

/// The provider that the settings select. An unknown name is refused with
/// "Unknown LLM provider: <name>"; a missing key with the provider's own
/// message (before any client is built). Otherwise the result is
/// `provider_from_client` for a client built with the kind's timeout
/// (120 s, or 300 s for Ollama); whether that build succeeds is decided by
/// the TLS backend and the system resolver. Must not be called inside an
/// async runtime, where reqwest's blocking client panics.
pub fn get_provider(config: &Config) -> (r: Result<Provider, String>)
    ensures
        provider_outcome(*config, r),
        config.llm_provider is None ==> selected_kind(*config) == Some(ProviderKind::Ollama),
        all_ascii(provider_name(*config)) ==> selected_kind(*config) == kind_named(
            ascii_lowered(provider_name(*config)),
        ),
{
    let kind = provider_kind(config)?;
    let missing = match kind {
        ProviderKind::OpenAi => config.openai_api_key.is_none(),
        ProviderKind::Gemini => config.gemini_api_key.is_none(),
        ProviderKind::Ollama => false,
    };
    if missing {
        return provider_from_client(config, kind, Err(String::new()));
    }
    let seconds = match kind {
        ProviderKind::Ollama => OLLAMA_TIMEOUT_SECS,
        _ => REMOTE_TIMEOUT_SECS,
    };
    provider_from_client(config, kind, http_client(seconds))
}

/// The endpoint of Gemini's `generateContent` for a model and key.
pub open spec fn gemini_url_text(model: Seq<char>, key: Seq<char>) -> Seq<char> {
    GEMINI_URL_PREFIX@ + model + GEMINI_URL_MIDDLE@ + key
}

/// The endpoint of Gemini's `generateContent` for a model and key.
pub fn gemini_url(model: &str, key: &str) -> (r: String)
    ensures
        r@ == gemini_url_text(model@, key@),
{
    let mut r = concat3(GEMINI_URL_PREFIX, model, GEMINI_URL_MIDDLE);
    r.append(key);
    r
}

/// The `generate` endpoint of an Ollama server.
pub fn ollama_generate_url(base: &str) -> (r: String)
    ensures
        r@ == base@ + OLLAMA_GENERATE_PATH@,
{
    concat2(base, OLLAMA_GENERATE_PATH)
}

/// The prompt sent to Ollama for files: the request followed by the
/// instruction to answer with a bare JSON array of files.
pub fn ollama_files_prompt(prompt: &str) -> (r: String)
    ensures
        r@ == prompt@ + OLLAMA_JSON_INSTRUCTION@,
{
    concat2(prompt, OLLAMA_JSON_INSTRUCTION)
}

/// Ollama's answer with surrounding white space and Markdown code fences
/// (```json or ``` at the start, ``` at the end) removed.
pub open spec fn unfenced(text: Seq<char>) -> Seq<char> {
    trimmed(
        stripped_end(stripped_start(stripped_start(trimmed(text), "```json"@), "```"@), "```"@),
    )
}

/// Removes white space and Markdown code fences around Ollama's answer.
pub fn strip_json_fences(text: &str) -> (r: String)
    ensures
        r@ == unfenced(text@),
{
    proof {
        reveal_strlit("```json");
        reveal_strlit("```");
    }
    let a = trim(text);
    let b = trim_start_matches(a.as_str(), "```json");
    let c = trim_start_matches(b.as_str(), "```");
    let d = trim_end_matches(c.as_str(), "```");
    trim(d.as_str())
}

/// Where the list of files is in Ollama's JSON answer.
#[derive(Debug, Clone, Copy, PartialEq, Eq, Structural)]
pub enum FilesLocation {
    /// The answer is the list itself.
    Whole,
    /// The answer is an object whose "files" entry is the list.
    FilesEntry,
}

/// An array is the list; otherwise an object with a "files" entry holds it;
/// anything else is refused.
pub fn ollama_files_location(is_array: bool, has_files_entry: bool) -> (r: Result<
    FilesLocation,
    String,
>)
    ensures
        is_array ==> r == Ok::<FilesLocation, String>(FilesLocation::Whole),
        !is_array && has_files_entry ==> r == Ok::<FilesLocation, String>(
            FilesLocation::FilesEntry,
        ),
        !is_array && !has_files_entry ==> (r matches Err(e) && e@ == UNEXPECTED_OLLAMA_JSON@),
{
    if is_array {
        Ok(FilesLocation::Whole)
    } else if has_files_entry {
        Ok(FilesLocation::FilesEntry)
    } else {
        Err(owned(UNEXPECTED_OLLAMA_JSON))
    }
}

/// The shape of the JSON document `text` as serde_json reads it: whether
/// it is an array and whether it has a "files" entry, or the parse error's
/// message when it is not JSON.
pub uninterp spec fn json_files_shape(text: Seq<char>) -> Result<(bool, bool), Seq<char>>;

/// A read shape with its error as a character sequence.
pub open spec fn shape_view(r: Result<(bool, bool), String>) -> Result<(bool, bool), Seq<char>> {
    match r {
        Ok(shape) => Ok(shape),
        Err(e) => Err(e@),
    }
}

/// Calls `serde_json::from_str::<serde_json::Value>(text)`; on success
/// gives `is_array()` and whether `get("files")` finds an entry, on failure
/// the error's `to_string()`. Claimed: the outcome is
/// `json_files_shape(text)`, a function of the text alone.
#[verifier::external_body]
fn parse_json_files_shape(text: &str) -> (r: Result<(bool, bool), String>)
    ensures
        shape_view(r) == json_files_shape(text@),
{
    match serde_json::from_str::<serde_json::Value>(text) {
        Ok(v) => Ok((v.is_array(), v.get("files").is_some())),
        Err(e) => Err(e.to_string()),
    }
}

/// Where the files are in Ollama's cleaned answer `text`, given its read
/// shape: "Invalid JSON from Ollama: <error>" when it is not JSON; then as
/// `ollama_files_location` decides.
pub open spec fn ollama_layout_of(text: Seq<char>, shape: Result<(bool, bool), Seq<char>>) -> Result<
    (Seq<char>, FilesLocation),
    Seq<char>,
> {
    match shape {
        Err(e) => Err(OLLAMA_INVALID_JSON_PREFIX@ + e),
        Ok((is_array, has_files)) => if is_array {
            Ok((text, FilesLocation::Whole))
        } else if has_files {
            Ok((text, FilesLocation::FilesEntry))
        } else {
            Err(UNEXPECTED_OLLAMA_JSON@)
        },
    }
}

/// A layout, or an error, with its texts as character sequences.
pub open spec fn layout_view(r: Result<(String, FilesLocation), String>) -> Result<
    (Seq<char>, FilesLocation),
    Seq<char>,
> {
    match r {
        Ok((t, l)) => Ok((t@, l)),
        Err(e) => Err(e@),
    }
}

/// Where the files are in Ollama's cleaned answer, given its read shape.
pub fn ollama_layout_from(text: String, shape: Result<(bool, bool), String>) -> (r: Result<
    (String, FilesLocation),
    String,
>)
    ensures
        layout_view(r) == ollama_layout_of(text@, shape_view(shape)),
{
    match shape {
        Err(e) => Err(concat2(OLLAMA_INVALID_JSON_PREFIX, e.as_str())),
        Ok((is_array, has_files)) => {
            let location = ollama_files_location(is_array, has_files)?;
            Ok((text, location))
        },
    }
}

/// Ollama's answer to a request for files, cleaned of white space and code
/// fences, with where the list of files is in it.
pub fn ollama_answer_layout(answer: &str) -> (r: Result<(String, FilesLocation), String>)
    ensures
        layout_view(r) == ollama_layout_of(unfenced(answer@), json_files_shape(unfenced(answer@))),
{
    let text = strip_json_fences(answer);
    let shape = parse_json_files_shape(text.as_str());
    ollama_layout_from(text, shape)
}

} // verus!
