//! The summarization capability shared by both backends, and the choice of
//! backend from the configuration.
use vstd::prelude::*;
use vstd::string::StringExecFns;
use crate::config::AsumConfig;
use crate::error::SummarizeError;
use crate::gemini::GeminiProvider;
use crate::ollama::OllamaProvider;
use crate::sanitize::{sanitize_response, sanitize_idempotent, sanitized};
use crate::text::{chars_of, push_all, string_of, text_equals};

verus! {

broadcast use vstd::string::group_string_axioms;

/// What a backend needs to make its request. The sampling knobs
/// (temperature, top-p) are floating-point values that the caller keeps
/// beside this and adds when it puts the request on the wire.
#[derive(Debug, Clone)]
pub struct AIConfig {
    pub model: String,
    pub num_predict: i32,
    pub api_url: Option<String>,
    pub api_key: Option<String>,
    pub system_prompt: String,
    pub user_prompt: String,
}

/// The payload of a request, in the shape the endpoint expects.
#[derive(Debug, Clone)]
pub enum RequestBody {
    /// Self-hosted chat endpoint: a system message and a user message.
    Chat { model: String, system: String, user: String },
    /// Self-hosted generate endpoint: one flattened prompt.
    Generate { model: String, prompt: String },
    /// Cloud endpoint: a system instruction and one content part.
    Content { system: String, user: String },
}

/// One HTTP request to send: a POST of `body` as JSON to `url`, with
/// `num_predict` as the token budget.
#[derive(Debug, Clone)]
pub struct ProviderRequest {
    pub url: String,
    pub body: RequestBody,
    pub num_predict: i32,
}

/// What to do after a reply has come back.
#[derive(Debug)]
pub enum Step {
    /// Wait `delay_secs` seconds, then send the same request again.
    Retry { delay_secs: u64 },
    /// The summarization is over, with this outcome.
    Done(Result<String, SummarizeError>),
}

/// The capability every backend offers: a request for a diff, and the
/// decision that follows each reply. The caller sends the request, hands back
/// status and body text with the number of retries made so far, and goes on
/// until `Step::Done`.
pub trait Summarizer {
    /// Whether `r` is the backend's request for the diff `diff`.
    spec fn prepared(&self, diff: Seq<char>, r: Result<ProviderRequest, SummarizeError>) -> bool;

    /// Whether `r` is what follows a reply with `status` and `body` after
    /// `retries` retries.
    spec fn replied(&self, retries: u32, status: u16, body: Seq<char>, r: Step) -> bool;

    fn prepare(&self, diff: &str) -> (r: Result<ProviderRequest, SummarizeError>)
        ensures
            self.prepared(diff@, r),
    ;

    fn on_reply(&self, retries: u32, status: u16, body: &str) -> (r: Step)
        ensures
            self.replied(retries, status, body@, r),
    ;
}

/// The texts of an optional string.
pub open spec fn opt_view(o: Option<String>) -> Option<Seq<char>> {
    match o {
        Some(s) => Some(s@),
        None => None,
    }
}

/// Whether `r` is the outcome for the text field `text` of a reply: no such
/// field is a malformed reply; a text is cleaned into the message, and a text
/// of which nothing is left is an empty generation.
pub open spec fn reply_outcome(r: Result<String, SummarizeError>, text: Option<Seq<char>>) -> bool {
    match text {
        None => r == Err::<String, SummarizeError>(SummarizeError::MalformedResponse),
        Some(t) => if sanitized(t).len() > 0 {
            r matches Ok(m) && m@ == sanitized(t)
        } else {
            r == Err::<String, SummarizeError>(SummarizeError::EmptyGeneration)
        },
    }
}

/// Whether `m` is what cleaning hands out: not empty, and left as it is by a
/// further cleaning.
pub open spec fn is_clean_message(m: Seq<char>) -> bool {
    m.len() > 0 && sanitized(m) == m
}

/// The outcome for the text field of a reply: no such field is a malformed
/// reply, and a text is cleaned into the message.
pub fn finish_reply(text: Option<String>) -> (r: Result<String, SummarizeError>)
    ensures
        reply_outcome(r, opt_view(text)),
        r matches Ok(m) ==> is_clean_message(m@),
{
    match text {
        None => Err(SummarizeError::MalformedResponse),
        Some(t) => {
            let r = sanitize_response(&t);
            proof {
                sanitize_idempotent(t@);
            }
            r
        },
    }
}

/// An API key as it may appear in a log: its first and last four characters
/// around `...` when it is longer than eight characters, and `****` otherwise.
pub open spec fn masked(key: Seq<char>) -> Seq<char> {
    if key.len() > 8 {
        key.take(4) + "..."@ + key.subrange(key.len() - 4, key.len() as int)
    } else {
        "****"@
    }
}

/// Masks an API key for logging.
pub fn mask_api_key(key: &str) -> (r: String)
    ensures
        r@ == masked(key@),
{
    let k = chars_of(key);
    let n = k.len();
    if n > 8 {
        let mut out: Vec<char> = Vec::new();
        let mut i: usize = 0;
        while i < 4
            invariant
                i <= 4,
                n == k@.len(),
                n > 8,
                out@ == k@.take(i as int),
            decreases 4 - i,
        {
            out.push(k[i]);
            i = i + 1;
            assert(out@ =~= k@.take(i as int));
        }
        push_all(&mut out, &chars_of("..."));
        let ghost front = out@;
        let mut j: usize = n - 4;
        assert(out@ =~= front + k@.subrange(n - 4, j as int));
        while j < n
            invariant
                n > 8,
                n - 4 <= j <= n,
                n == k@.len(),
                out@ == front + k@.subrange(n - 4, j as int),
            decreases n - j,
        {
            let ghost before = out@;
            out.push(k[j]);
            assert(k@.subrange(n - 4, j + 1) =~= k@.subrange(n - 4, j as int).push(k@[j as int]));
            j = j + 1;
            assert(out@ =~= front + k@.subrange(n - 4, j as int));
        }
        string_of(&out)
    } else {
        String::from_str("****")
    }
}

/// The model name configured for a backend, empty where none is.
pub open spec fn model_or_empty(m: Option<String>) -> Seq<char> {
    match m {
        Some(s) => s@,
        None => Seq::empty(),
    }
}

/// Whether `ai` is what the configuration `c` gives a backend whose model is `model`.
pub open spec fn ai_config_for(c: AsumConfig, model: Seq<char>, ai: AIConfig) -> bool {
    &&& ai.model@ == model
    &&& ai.num_predict == c.ai_num_predict
    &&& ai.api_url == c.ollama_url
    &&& ai.api_key == c.gemini_api_key
    &&& ai.system_prompt == c.system_prompt
    &&& ai.user_prompt == c.user_prompt
}

/// The backend chosen by the configuration.
#[derive(Debug, Clone)]
pub enum Provider {
    Ollama(OllamaProvider),
    Gemini(GeminiProvider),
}

/// Builds the backend that `config.active_provider` names: `ollama` or
/// `gemini`. Any other name is a configuration error.
pub fn get_summarizer(config: AsumConfig) -> (r: Result<Provider, SummarizeError>)
    ensures
        config.active_provider@ == "ollama"@ ==> (r matches Ok(Provider::Ollama(p))
            && ai_config_for(config, model_or_empty(config.ollama_model), p.config)),
        config.active_provider@ == "gemini"@ ==> (r matches Ok(Provider::Gemini(p))
            && ai_config_for(config, model_or_empty(config.gemini_model), p.config)
            && p.base_url@ == crate::gemini::gemini_base_url()),
        config.active_provider@ != "ollama"@ && config.active_provider@ != "gemini"@ ==> (
        r matches Err(SummarizeError::UnknownProvider { name }) && name
            == config.active_provider),
{
    let is_ollama = text_equals(config.active_provider.as_str(), "ollama");
    let is_gemini = text_equals(config.active_provider.as_str(), "gemini");
    proof {
        reveal_strlit("ollama");
        reveal_strlit("gemini");
        assert("ollama"@[0] != "gemini"@[0]);
    }
    let chosen = if is_gemini {
        config.gemini_model
    } else if is_ollama {
        config.ollama_model
    } else {
        None
    };
    let model = match chosen {
        Some(m) => m,
        None => String::new(),
    };
    let ai = AIConfig {
        model,
        num_predict: config.ai_num_predict,
        api_url: config.ollama_url,
        api_key: config.gemini_api_key,
        system_prompt: config.system_prompt,
        user_prompt: config.user_prompt,
    };
    if is_ollama {
        Ok(Provider::Ollama(OllamaProvider::new(ai)))
    } else if is_gemini {
        Ok(Provider::Gemini(GeminiProvider::new(ai)))
    } else {
        Err(SummarizeError::UnknownProvider { name: config.active_provider })
    }
}

impl Summarizer for Provider {
    open spec fn prepared(&self, diff: Seq<char>, r: Result<ProviderRequest, SummarizeError>) -> bool {
        match self {
            Provider::Ollama(p) => p.prepared(diff, r),
            Provider::Gemini(p) => p.prepared(diff, r),
        }
    }

    open spec fn replied(&self, retries: u32, status: u16, body: Seq<char>, r: Step) -> bool {
        match self {
            Provider::Ollama(p) => p.replied(retries, status, body, r),
            Provider::Gemini(p) => p.replied(retries, status, body, r),
        }
    }

    fn prepare(&self, diff: &str) -> Result<ProviderRequest, SummarizeError> {
        match self {
            Provider::Ollama(p) => p.prepare(diff),
            Provider::Gemini(p) => p.prepare(diff),
        }
    }

    fn on_reply(&self, retries: u32, status: u16, body: &str) -> Step {
        match self {
            Provider::Ollama(p) => p.on_reply(retries, status, body),
            Provider::Gemini(p) => p.on_reply(retries, status, body),
        }
    }
}

} // verus!
