//! The user's settings (`config.yaml`), their defaults, and where they are
//! looked for.

use vstd::prelude::*;
use vstd::string::*;
use crate::text::owned;

verus! {

/// Address of a local Ollama server, used when none is configured.
pub const DEFAULT_OLLAMA_URL: &'static str = "http://localhost:11434";

/// Name of the settings file.
pub const CONFIG_FILE_NAME: &'static str = "config.yaml";

/// Text written to a new settings file when none exists yet.
pub const DEFAULT_CONFIG_YAML: &'static str = "# Arquivo de configuracao gerado automaticamente
# github_token: \"seu_token_aqui\"
# default_author: \"Seu Nome\"

# Configuracoes de Inteligencia Artificial para 'ai-generate'
# llm_provider: \"openai\"           # \"openai\", \"gemini\", ou \"ollama\"
# llm_model: \"gpt-4o\"              # Ex: \"gpt-4o\", \"gemini-1.5-pro\", ou \"llama3\"
# openai_api_key: \"sk-...\"
# gemini_api_key: \"AIza...\"
ollama_url: \"http://localhost:11434\"
";

/// The user's settings. Every entry may be absent.
#[derive(Debug, Clone)]
pub struct Config {
    pub github_token: Option<String>,
    pub default_author: Option<String>,
    /// "openai", "gemini" or "ollama" (any letter case).
    pub llm_provider: Option<String>,
    /// The model name, e.g. "gpt-4o", "gemini-1.5-pro", "llama3".
    pub llm_model: Option<String>,
    pub openai_api_key: Option<String>,
    pub gemini_api_key: Option<String>,
    /// Base address of the Ollama server.
    pub ollama_url: Option<String>,
}

impl Default for Config {
    /// Nothing configured, except the address of a local Ollama server.
    fn default() -> (c: Self)
        ensures
            c.github_token is None,
            c.default_author is None,
            c.llm_provider is None,
            c.llm_model is None,
            c.openai_api_key is None,
            c.gemini_api_key is None,
            c.ollama_url matches Some(u) && u@ == DEFAULT_OLLAMA_URL@,
    {
        Config {
            github_token: None,
            default_author: None,
            llm_provider: None,
            llm_model: None,
            openai_api_key: None,
            gemini_api_key: None,
            ollama_url: Some(owned(DEFAULT_OLLAMA_URL)),
        }
    }
}

/// Where the settings file is read from.
#[derive(Debug, Clone, Copy, PartialEq, Eq, Structural)]
pub enum ConfigLocation {
    /// `config.yaml` in the current directory.
    CurrentDir,
    /// `config.yaml` beside the executable.
    ExecutableDir,
}

/// The settings file in the current directory wins; then the one beside
/// the executable; when neither exists, the current directory is used
/// (and a default file is created there).
pub fn config_location(in_current_dir: bool, beside_executable: bool) -> (l: ConfigLocation)
    ensures
        l == (if !in_current_dir && beside_executable {
            ConfigLocation::ExecutableDir
        } else {
            ConfigLocation::CurrentDir
        }),
{
    if in_current_dir {
        ConfigLocation::CurrentDir
    } else if beside_executable {
        ConfigLocation::ExecutableDir
    } else {
        ConfigLocation::CurrentDir
    }
}

/// The text of a freshly created settings file.
pub fn default_config_yaml() -> (s: String)
    ensures
        s@ == DEFAULT_CONFIG_YAML@,
{
    owned(DEFAULT_CONFIG_YAML)
}

} // verus!
