//! The resolved configuration of a run.
use vstd::prelude::*;
use vstd::string::StringExecFns;
use crate::git::texts;

verus! {

/// The settings of a run, resolved from the configuration file with defaults
/// filled in. The sampling knobs (temperature, top-p) are floating-point
/// values that the caller keeps beside this.
#[derive(Debug, Clone)]
pub struct AsumConfig {
    /// The backend to use: `ollama` or `gemini`.
    pub active_provider: String,
    /// The largest diff, in bytes, that is sent as it is.
    pub max_diff_length: usize,
    /// The pathspecs of the files whose changes are summarized.
    pub git_extensions: Vec<String>,
    /// The system-level instruction for the model.
    pub system_prompt: String,
    /// The prompt template, holding the `{{diff}}` placeholder.
    pub user_prompt: String,
    /// The largest number of tokens to generate.
    pub ai_num_predict: i32,
    /// The self-hosted backend's endpoint.
    pub ollama_url: Option<String>,
    /// The self-hosted backend's model.
    pub ollama_model: Option<String>,
    /// The cloud backend's API key.
    pub gemini_api_key: Option<String>,
    /// The cloud backend's model.
    pub gemini_model: Option<String>,
}

/// The instruction given to the model when the configuration sets none.
pub const DEFAULT_SYSTEM_PROMPT: &'static str = r#"# SYSTEM IDENTITY
You are an expert Git Commit Generator. Your goal is to produce high-quality, professional commit messages following Conventional Commits 1.0.0.

# STRICT RULES
1. MANDATORY HEADER: Every response MUST start with `<type>(<scope>): <description>`.
2. TYPES: Only use: feat, fix, docs, style, refactor, perf, test, build, ci, chore, revert.
3. DESCRIPTION: Use imperative mood, lowercase, no period, max 50 chars.
4. BODY (OPTIONAL): Use bullet points ("- ") to explain "what" and "why".
5. OUTPUT: Return ONLY the raw commit message. No preamble, no backticks, no markdown blocks.

# FEW-SHOT EXAMPLES

Example 1 (Simple Fix):
fix(ui): correct button alignment on mobile

Example 2 (Feature with Body):
feat(auth): implement oauth2 login flow

- add google and github provider support
- implement secure callback handling
- encrypt user tokens before storage

Example 3 (Breaking Change):
refactor(api)!: migrate to async/await syntax

- rewrite all controllers to be non-blocking
- update database driver to support pooling

BREAKING CHANGE: the synchronous API is no longer supported."#;

/// The prompt template used when the configuration sets none.
pub const DEFAULT_USER_PROMPT: &'static str = "[INPUT DIFF]\n{{diff}}\n\n[OUTPUT]";

/// The pathspecs summarized when the configuration lists none.
pub open spec fn default_extensions() -> Seq<Seq<char>> {
    seq![
        "*.java"@,
        "*.php"@,
        "*.js"@,
        "*.jsx"@,
        "*.ts"@,
        "*.tsx"@,
        "*.vue"@,
        "*.svelte"@,
        "*.scss"@,
        "*.css"@,
        "*.html"@,
        "*.rs"@,
        "*.py"@,
        "*.pyi"@,
        "*.go"@,
        "*.c"@,
        "*.cpp"@,
        "*.h"@,
        "*.hpp"@,
        "*.cs"@,
        "*.rb"@,
        "*.swift"@,
        "*.kt"@,
        "*.kts"@,
        "*.dart"@,
        "*.sh"@,
        "*.sql"@,
        "*.md"@,
        "*.yml"@,
        "*.yaml"@,
        "*.toml"@,
        "*.json"@,
    ]
}

/// The pathspecs summarized when the configuration lists none.
pub fn default_git_extensions() -> (r: Vec<String>)
    ensures
        texts(r@) == default_extensions(),
{
    let mut v: Vec<String> = Vec::new();
    v.push(String::from_str("*.java"));
    v.push(String::from_str("*.php"));
    v.push(String::from_str("*.js"));
    v.push(String::from_str("*.jsx"));
    v.push(String::from_str("*.ts"));
    v.push(String::from_str("*.tsx"));
    v.push(String::from_str("*.vue"));
    v.push(String::from_str("*.svelte"));
    v.push(String::from_str("*.scss"));
    v.push(String::from_str("*.css"));
    v.push(String::from_str("*.html"));
    v.push(String::from_str("*.rs"));
    v.push(String::from_str("*.py"));
    v.push(String::from_str("*.pyi"));
    v.push(String::from_str("*.go"));
    v.push(String::from_str("*.c"));
    v.push(String::from_str("*.cpp"));
    v.push(String::from_str("*.h"));
    v.push(String::from_str("*.hpp"));
    v.push(String::from_str("*.cs"));
    v.push(String::from_str("*.rb"));
    v.push(String::from_str("*.swift"));
    v.push(String::from_str("*.kt"));
    v.push(String::from_str("*.kts"));
    v.push(String::from_str("*.dart"));
    v.push(String::from_str("*.sh"));
    v.push(String::from_str("*.sql"));
    v.push(String::from_str("*.md"));
    v.push(String::from_str("*.yml"));
    v.push(String::from_str("*.yaml"));
    v.push(String::from_str("*.toml"));
    v.push(String::from_str("*.json"));
    assert(texts(v@) =~= default_extensions());
    v
}

/// The instruction given to the model when the configuration sets none.
pub fn default_system_prompt() -> (r: String)
    ensures
        r@ == DEFAULT_SYSTEM_PROMPT@,
{
    String::from_str(DEFAULT_SYSTEM_PROMPT)
}

/// The prompt template used when the configuration sets none.
pub fn default_user_prompt() -> (r: String)
    ensures
        r@ == DEFAULT_USER_PROMPT@,
{
    String::from_str(DEFAULT_USER_PROMPT)
}

} // verus!
