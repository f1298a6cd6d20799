//! The cloud backend, reached with an API key and retried on rate limits.
use vstd::prelude::*;
use vstd::string::StringExecFns;
use crate::error::{is_success, status_is_success, SummarizeError};
use crate::json::{json_text_at, json_text_of};
use crate::prompt::{generate_prompt, rendered};
use crate::summarizer::{
    finish_reply, is_clean_message, reply_outcome, AIConfig, ProviderRequest, RequestBody, Step,
    Summarizer,
};

verus! {

broadcast use vstd::string::group_string_axioms;

/// The status of a rate-limited reply.
pub const TOO_MANY_REQUESTS: u16 = 429;

/// How many times a rate-limited request is sent again.
pub const MAX_RETRIES: u32 = 3;

/// The base URL used when none is given.
pub open spec fn gemini_base_url() -> Seq<char> {
    "https://generativelanguage.googleapis.com"@
}

/// The delay, in seconds, before retry number `n + 1`: 2, 4, 8, ...
pub open spec fn backoff(n: nat) -> nat
    decreases n,
{
    if n == 0 {
        2
    } else {
        2 * backoff((n - 1) as nat)
    }
}

/// The URL of the content-generation call for `model`, with the key as the
/// `key` query parameter.
pub open spec fn content_url(base: Seq<char>, model: Seq<char>, key: Seq<char>) -> Seq<char> {
    base + "/v1beta/models/"@ + model + ":generateContent?key="@ + key
}

/// The delay, in seconds, before retry number `retries + 1`.
pub fn backoff_secs(retries: u32) -> (r: u64)
    requires
        retries < MAX_RETRIES,
    ensures
        r == backoff(retries as nat),
{
    let mut d: u64 = 2;
    let mut i: u32 = 0;
    while i < retries
        invariant
            i <= retries < MAX_RETRIES,
            d == backoff(i as nat),
            i == 0 ==> d == 2,
            i == 1 ==> d == 4,
            i == 2 ==> d == 8,
        decreases retries - i,
    {
        d = d * 2;
        i = i + 1;
    }
    d
}

/// The cloud backend.
#[derive(Debug, Clone)]
pub struct GeminiProvider {
    pub config: AIConfig,
    pub base_url: String,
}

impl GeminiProvider {
    pub fn new(config: AIConfig) -> (r: Self)
        ensures
            r.config == config,
            r.base_url@ == gemini_base_url(),
    {
        GeminiProvider {
            config,
            base_url: String::from_str("https://generativelanguage.googleapis.com"),
        }
    }

    /// A backend that talks to `url` in place of the public endpoint.
    pub fn new_with_url(config: AIConfig, url: String) -> (r: Self)
        ensures
            r.config == config,
            r.base_url == url,
    {
        GeminiProvider { config, base_url: url }
    }

    /// Whether `r` is the request for `diff`: without an API key a
    /// `MissingApiKey` failure; with one, a request to the content URL that
    /// carries the key, the system prompt, the rendered prompt and the
    /// configured token budget.
    pub open spec fn is_request_for(&self, diff: Seq<char>, r: Result<ProviderRequest, SummarizeError>) -> bool {
        match self.config.api_key {
            None => r == Err::<ProviderRequest, SummarizeError>(SummarizeError::MissingApiKey),
            Some(key) => r matches Ok(req) && req.url@ == content_url(
                self.base_url@,
                self.config.model@,
                key@,
            ) && req.num_predict == self.config.num_predict && (req.body matches RequestBody::Content {
                system,
                user,
            } && system == self.config.system_prompt && user@ == rendered(
                self.config.user_prompt@,
                diff,
            )),
        }
    }

    /// Whether `r` is what follows a reply with `status` and `body` after
    /// `retries` retries: a rate limit is retried after `backoff(retries)`
    /// seconds while fewer than `MAX_RETRIES` retries were made, and is given
    /// up after that; any other status outside 200..=299 fails at once with
    /// status and body; a success has its candidate text cleaned into the
    /// message.
    pub open spec fn is_step_for(&self, retries: u32, status: u16, body: Seq<char>, r: Step) -> bool {
        if status == TOO_MANY_REQUESTS {
            if retries < MAX_RETRIES {
                r matches Step::Retry { delay_secs } && delay_secs == backoff(retries as nat)
            } else {
                r matches Step::Done(Err(SummarizeError::RateLimitExhausted { body: b })) && b@
                    == body
            }
        } else if !is_success(status) {
            r matches Step::Done(Err(SummarizeError::UpstreamStatus { status: s, body: b })) && s
                == status && b@ == body
        } else {
            r matches Step::Done(res) && reply_outcome(
                res,
                json_text_of(body, "/candidates/0/content/parts/0/text"@),
            )
        }
    }

    /// The request for `diff`; without an API key it fails before any
    /// request exists.
    pub fn build_request(&self, diff: &str) -> (r: Result<ProviderRequest, SummarizeError>)
        ensures
            self.is_request_for(diff@, r),
    {
        let key = match &self.config.api_key {
            Some(k) => k,
            None => return Err(SummarizeError::MissingApiKey),
        };
        let prompt = generate_prompt(self.config.user_prompt.as_str(), diff);
        let mut url = self.base_url.clone();
        url.append("/v1beta/models/");
        url.append(self.config.model.as_str());
        url.append(":generateContent?key=");
        url.append(key.as_str());
        Ok(ProviderRequest {
            url,
            num_predict: self.config.num_predict,
            body: RequestBody::Content { system: self.config.system_prompt.clone(), user: prompt },
        })
    }

    /// What follows a reply with `status` and `body` after `retries` retries.
    pub fn next_step(&self, retries: u32, status: u16, body: &str) -> (r: Step)
        ensures
            self.is_step_for(retries, status, body@, r),
            r matches Step::Done(Ok(m)) ==> is_clean_message(m@),
    {
        if status == TOO_MANY_REQUESTS {
            if retries < MAX_RETRIES {
                return Step::Retry { delay_secs: backoff_secs(retries) };
            }
            return Step::Done(Err(SummarizeError::RateLimitExhausted { body: String::from_str(body) }));
        }
        if !status_is_success(status) {
            return Step::Done(
                Err(SummarizeError::UpstreamStatus { status, body: String::from_str(body) }),
            );
        }
        Step::Done(finish_reply(json_text_at(body, "/candidates/0/content/parts/0/text")))
    }
}

/// The backoff doubles from one retry to the next, starting at 2 seconds:
/// the three retries wait 2, 4 and 8 seconds.
pub proof fn backoff_doubles(n: nat)
    ensures
        backoff(n + 1) == 2 * backoff(n),
        backoff(0) == 2,
        backoff(1) == 4,
        backoff(2) == 8,
{
    reveal_with_fuel(backoff, 3);
}

impl Summarizer for GeminiProvider {
    open spec fn prepared(&self, diff: Seq<char>, r: Result<ProviderRequest, SummarizeError>) -> bool {
        self.is_request_for(diff, r)
    }

    open spec fn replied(&self, retries: u32, status: u16, body: Seq<char>, r: Step) -> bool {
        self.is_step_for(retries, status, body, r)
    }

    fn prepare(&self, diff: &str) -> Result<ProviderRequest, SummarizeError> {
        self.build_request(diff)
    }

    fn on_reply(&self, retries: u32, status: u16, body: &str) -> Step {
        self.next_step(retries, status, body)
    }
}

} // verus!
