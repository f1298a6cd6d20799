//! The self-hosted backend, with a chat endpoint and a generate endpoint.
use vstd::prelude::*;
use vstd::string::StringExecFns;
use crate::error::{is_success, status_is_success, SummarizeError};
use crate::json::{json_text_at, json_text_of};
use crate::prompt::{generate_prompt, rendered};
use crate::summarizer::{
    finish_reply, is_clean_message, opt_view, reply_outcome, AIConfig, ProviderRequest, RequestBody, Step,
    Summarizer,
};
use crate::text::{chars_of, ends_with, ends_with_text};

verus! {

broadcast use vstd::string::group_string_axioms;

/// The endpoint used when none is configured.
pub open spec fn default_ollama_url() -> Seq<char> {
    "http://localhost:11434/api/chat"@
}

/// The suffix that marks a generate endpoint.
pub open spec fn generate_suffix() -> Seq<char> {
    "/api/generate"@
}

/// The endpoint for a configured URL, or the default.
pub open spec fn endpoint_of(api_url: Option<String>) -> Seq<char> {
    match api_url {
        Some(u) => u@,
        None => default_ollama_url(),
    }
}

/// The flattened prompt of the generate endpoint: the system prompt, a blank
/// line, and the rendered user prompt.
pub open spec fn flattened_prompt(system: Seq<char>, user: Seq<char>) -> Seq<char> {
    system + seq!['\n', '\n'] + user
}

/// Which field holds the message: on a generate endpoint the `response`
/// field; otherwise `message.content`, or `response` where it is absent.
pub open spec fn picked<T>(generate: bool, content: Option<T>, response: Option<T>) -> Option<T> {
    if generate {
        response
    } else if content is Some {
        content
    } else {
        response
    }
}

/// Chooses the reply field that holds the message.
pub fn pick_reply(generate: bool, content: Option<String>, response: Option<String>) -> (r: Option<
    String,
>)
    ensures
        r == picked(generate, content, response),
{
    if generate {
        response
    } else {
        match content {
            Some(c) => Some(c),
            None => response,
        }
    }
}

/// Whether `url` is a generate endpoint: it ends with `/api/generate`.
pub fn is_generate_endpoint(url: &str) -> (r: bool)
    ensures
        r == ends_with(url@, generate_suffix()),
{
    ends_with_text(&chars_of(url), &chars_of("/api/generate"))
}

/// The self-hosted backend.
#[derive(Debug, Clone)]
pub struct OllamaProvider {
    pub config: AIConfig,
}

impl OllamaProvider {
    pub fn new(config: AIConfig) -> (r: Self)
        ensures
            r.config == config,
    {
        OllamaProvider { config }
    }

    /// The endpoint the request goes to.
    pub fn endpoint(&self) -> (r: String)
        ensures
            r@ == endpoint_of(self.config.api_url),
    {
        match &self.config.api_url {
            Some(u) => u.clone(),
            None => String::from_str("http://localhost:11434/api/chat"),
        }
    }

    /// Whether `r` is the request for `diff`: to the endpoint, with the
    /// configured token budget, in the chat shape, or in the flattened
    /// generate shape where the endpoint ends with `/api/generate`.
    pub open spec fn is_request_for(&self, diff: Seq<char>, r: ProviderRequest) -> bool {
        &&& r.url@ == endpoint_of(self.config.api_url)
        &&& r.num_predict == self.config.num_predict
        &&& if ends_with(r.url@, generate_suffix()) {
            r.body matches RequestBody::Generate { model, prompt } && model == self.config.model
                && prompt@ == flattened_prompt(
                self.config.system_prompt@,
                rendered(self.config.user_prompt@, diff),
            )
        } else {
            r.body matches RequestBody::Chat { model, system, user } && model == self.config.model
                && system == self.config.system_prompt && user@ == rendered(
                self.config.user_prompt@,
                diff,
            )
        }
    }

    /// Whether `r` is the outcome of a reply with `status` and `body`: a
    /// status outside 200..=299 fails at once; otherwise the text of the
    /// field that `picked` chooses between `message.content` and `response`
    /// is cleaned into the message.
    pub open spec fn is_outcome_for(&self, status: u16, body: Seq<char>, r: Result<
        String,
        SummarizeError,
    >) -> bool {
        if !is_success(status) {
            r matches Err(SummarizeError::UpstreamStatus { status: s, body: b }) && s == status
                && b@.len() == 0
        } else {
            reply_outcome(
                r,
                picked(
                    ends_with(endpoint_of(self.config.api_url), generate_suffix()),
                    json_text_of(body, "/message/content"@),
                    json_text_of(body, "/response"@),
                ),
            )
        }
    }

    /// The request for `diff`.
    pub fn build_request(&self, diff: &str) -> (r: ProviderRequest)
        ensures
            self.is_request_for(diff@, r),
    {
        let url = self.endpoint();
        let prompt = generate_prompt(self.config.user_prompt.as_str(), diff);
        let body = if is_generate_endpoint(url.as_str()) {
            let mut flat = self.config.system_prompt.clone();
            flat.append("\n\n");
            flat.append(prompt.as_str());
            proof {
                reveal_strlit("\n\n");
                assert(flat@ =~= flattened_prompt(self.config.system_prompt@, prompt@));
            }
            RequestBody::Generate { model: self.config.model.clone(), prompt: flat }
        } else {
            RequestBody::Chat {
                model: self.config.model.clone(),
                system: self.config.system_prompt.clone(),
                user: prompt,
            }
        };
        ProviderRequest { url, body, num_predict: self.config.num_predict }
    }

    /// The reply field that holds the message, given the `message.content`
    /// and `response` fields of a reply: on a generate endpoint `response`,
    /// otherwise `message.content`, or `response` where it is absent.
    pub fn reply_text(&self, content: Option<String>, response: Option<String>) -> (r: Option<
        String,
    >)
        ensures
            r == picked(
                ends_with(endpoint_of(self.config.api_url), generate_suffix()),
                content,
                response,
            ),
    {
        let url = self.endpoint();
        pick_reply(is_generate_endpoint(url.as_str()), content, response)
    }

    /// The outcome of a reply with `status` and `body`; no request is retried.
    pub fn read_reply(&self, status: u16, body: &str) -> (r: Result<String, SummarizeError>)
        ensures
            self.is_outcome_for(status, body@, r),
            r matches Ok(m) ==> is_clean_message(m@),
    {
        if !status_is_success(status) {
            return Err(SummarizeError::UpstreamStatus { status, body: String::new() });
        }
        let content = json_text_at(body, "/message/content");
        let response = json_text_at(body, "/response");
        let ghost generate = ends_with(endpoint_of(self.config.api_url), generate_suffix());
        let ghost c = content;
        let ghost p = response;
        let text = self.reply_text(content, response);
        assert(opt_view(text) == picked(generate, opt_view(c), opt_view(p)));
        finish_reply(text)
    }
}

impl Summarizer for OllamaProvider {
    open spec fn prepared(&self, diff: Seq<char>, r: Result<ProviderRequest, SummarizeError>) -> bool {
        r matches Ok(req) && self.is_request_for(diff, req)
    }

    open spec fn replied(&self, retries: u32, status: u16, body: Seq<char>, r: Step) -> bool {
        r matches Step::Done(res) && self.is_outcome_for(status, body, res)
    }

    fn prepare(&self, diff: &str) -> Result<ProviderRequest, SummarizeError> {
        Ok(self.build_request(diff))
    }

    fn on_reply(&self, _retries: u32, status: u16, body: &str) -> Step {
        Step::Done(self.read_reply(status, body))
    }
}

} // verus!
