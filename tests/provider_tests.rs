use asum::config::AsumConfig;
use asum::error::SummarizeError;
use asum::gemini::GeminiProvider;
use asum::ollama::{is_generate_endpoint, pick_reply, OllamaProvider};
use asum::summarizer::{
    get_summarizer, mask_api_key, AIConfig, Provider, RequestBody, Step, Summarizer,
};

fn ai_config(model: &str, api_url: Option<String>, api_key: Option<String>) -> AIConfig {
    AIConfig {
        model: model.to_string(),
        num_predict: 100,
        api_url,
        api_key,
        system_prompt: "sys".to_string(),
        user_prompt: "user".to_string(),
    }
}

fn asum_config(provider: &str, api_key: Option<&str>) -> AsumConfig {
    AsumConfig {
        active_provider: provider.to_string(),
        max_diff_length: 1000,
        git_extensions: vec![],
        system_prompt: "sys".to_string(),
        user_prompt: "user".to_string(),
        ai_num_predict: 100,
        ollama_url: Some("http://localhost:11434".to_string()),
        ollama_model: Some("llama3".to_string()),
        gemini_api_key: api_key.map(|k| k.to_string()),
        gemini_model: Some("gemini-pro".to_string()),
    }
}

#[test]
fn test_ollama_provider_new() {
    let provider = OllamaProvider::new(ai_config("llama3", None, None));
    assert_eq!(provider.config.model, "llama3");
}

#[test]
fn test_gemini_provider_new() {
    let provider = GeminiProvider::new(ai_config("gemini-pro", None, Some("key".to_string())));
    assert_eq!(provider.config.model, "gemini-pro");
    assert_eq!(provider.base_url, "https://generativelanguage.googleapis.com");
}

#[test]
fn test_api_key_masking_table_driven() {
    let cases = vec![
        ("", "****"),
        ("123", "****"),
        ("12345678", "****"),
        ("123456789", "1234...6789"),
        ("abcdefghijkl", "abcd...ijkl"),
    ];
    for (key, expected) in cases {
        assert_eq!(mask_api_key(key), expected, "Failed for key: {}", key);
    }
}

#[test]
fn ollama_default_endpoint_is_chat() {
    let provider = OllamaProvider::new(ai_config("llama3", None, None));
    let req = provider.build_request("fix");
    assert_eq!(req.url, "http://localhost:11434/api/chat");
    assert_eq!(req.num_predict, 100);
    match req.body {
        RequestBody::Chat { model, system, user } => {
            assert_eq!(model, "llama3");
            assert_eq!(system, "sys");
            assert_eq!(user, "user");
        }
        other => panic!("unexpected body {:?}", other),
    }
}

#[test]
fn ollama_generate_endpoint_flattens_prompt() {
    let mut cfg = ai_config("llama3", Some("http://h:1/api/generate".to_string()), None);
    cfg.user_prompt = "Changes: {{diff}}".to_string();
    let req = OllamaProvider::new(cfg).build_request("fix bug");
    assert_eq!(req.url, "http://h:1/api/generate");
    assert_eq!(req.num_predict, 100);
    match req.body {
        RequestBody::Generate { model, prompt } => {
            assert_eq!(model, "llama3");
            assert_eq!(prompt, "sys\n\nChanges: fix bug");
        }
        other => panic!("unexpected body {:?}", other),
    }
}

#[test]
fn generate_endpoint_detection() {
    assert!(is_generate_endpoint("http://x/api/generate"));
    assert!(!is_generate_endpoint("http://x/api/generate/"));
    assert!(!is_generate_endpoint("http://x/api/chat"));
    assert!(!is_generate_endpoint("generate"));
}

#[test]
fn reply_field_selection() {
    let c = Some("c".to_string());
    let r = Some("r".to_string());
    assert_eq!(pick_reply(true, c.clone(), r.clone()), r);
    assert_eq!(pick_reply(true, c.clone(), None), None);
    assert_eq!(pick_reply(false, c.clone(), r.clone()), c);
    assert_eq!(pick_reply(false, None, r.clone()), r);
}

#[test]
fn reply_text_follows_the_endpoint() {
    let c = Some("c".to_string());
    let r = Some("r".to_string());
    let chat = OllamaProvider::new(ai_config("llama3", None, None));
    assert_eq!(chat.reply_text(c.clone(), r.clone()), c);
    assert_eq!(chat.reply_text(None, r.clone()), r);
    let url = Some("http://h/api/generate".to_string());
    let generate = OllamaProvider::new(ai_config("llama3", url, None));
    assert_eq!(generate.reply_text(c.clone(), r.clone()), r);
    assert_eq!(generate.reply_text(c.clone(), None), None);
}

#[test]
fn ollama_chat_reply_is_read_from_message_content() {
    let provider = OllamaProvider::new(ai_config("llama3", None, None));
    let body = "{\"message\": {\"content\": \"feat: success\"}, \"response\": \"other\"}";
    assert_eq!(provider.read_reply(200, body).unwrap(), "feat: success");
    let body = "{\"response\": \"  fix: fallback  \\n\"}";
    assert_eq!(provider.read_reply(200, body).unwrap(), "fix: fallback");
}

#[test]
fn ollama_generate_reply_is_read_from_response() {
    let url = Some("http://127.0.0.1:9/api/generate".to_string());
    let provider = OllamaProvider::new(ai_config("llama3", url, None));
    let body = "{\"response\": \"feat: success from generate\"}";
    assert_eq!(provider.read_reply(200, body).unwrap(), "feat: success from generate");
    let body = "{\"message\": {\"content\": \"feat: chat\"}}";
    assert_eq!(provider.read_reply(200, body), Err(SummarizeError::MalformedResponse));
}

#[test]
fn ollama_error_status_is_not_retried() {
    let provider = OllamaProvider::new(ai_config("llama3", None, None));
    assert_eq!(
        provider.read_reply(500, "oops"),
        Err(SummarizeError::UpstreamStatus { status: 500, body: String::new() })
    );
    match provider.on_reply(0, 429, "") {
        Step::Done(Err(SummarizeError::UpstreamStatus { status, .. })) => assert_eq!(status, 429),
        other => panic!("unexpected step {:?}", other),
    }
}

#[test]
fn ollama_malformed_and_empty_replies() {
    let provider = OllamaProvider::new(ai_config("llama3", None, None));
    assert_eq!(provider.read_reply(200, "not json"), Err(SummarizeError::MalformedResponse));
    assert_eq!(provider.read_reply(200, "{}"), Err(SummarizeError::MalformedResponse));
    assert_eq!(
        provider.read_reply(200, "{\"message\": {\"content\": \"\\n \\n\"}}"),
        Err(SummarizeError::EmptyGeneration)
    );
}

#[test]
fn test_gemini_summarize_missing_key() {
    let provider = GeminiProvider::new(ai_config("gemini-pro", None, None));
    assert_eq!(provider.build_request("diff").unwrap_err(), SummarizeError::MissingApiKey);
    assert!(provider.prepare("diff").is_err());
}

#[test]
fn gemini_request_carries_key_and_prompt() {
    let mut cfg = ai_config("gemini-pro", None, Some("test_key".to_string()));
    cfg.user_prompt = "Changes: {{diff}}".to_string();
    let provider = GeminiProvider::new_with_url(cfg, "http://127.0.0.1:8".to_string());
    let req = provider.build_request("fix bug").unwrap();
    assert_eq!(req.url, "http://127.0.0.1:8/v1beta/models/gemini-pro:generateContent?key=test_key");
    assert_eq!(req.num_predict, 100);
    match req.body {
        RequestBody::Content { system, user } => {
            assert_eq!(system, "sys");
            assert_eq!(user, "Changes: fix bug");
        }
        other => panic!("unexpected body {:?}", other),
    }
}

#[test]
fn gemini_backoff_then_success() {
    let provider = GeminiProvider::new(ai_config("gemini-pro", None, Some("k".to_string())));
    let body = "{\"candidates\": [{\"content\": {\"parts\": [{\"text\": \"fix: gemini success\"}]}}]}";
    let replies = [(429u16, "slow down"), (429u16, "slow down"), (200u16, body)];
    let mut delays = Vec::new();
    let mut retries = 0u32;
    let mut outcome = None;
    for (status, text) in replies {
        match provider.next_step(retries, status, text) {
            Step::Retry { delay_secs } => {
                delays.push(delay_secs);
                retries += 1;
            }
            Step::Done(r) => {
                outcome = Some(r);
                break;
            }
        }
    }
    assert_eq!(delays, vec![2, 4]);
    assert_eq!(outcome.unwrap().unwrap(), "fix: gemini success");
}

#[test]
fn gemini_rate_limit_exhausted_after_three_retries() {
    let provider = GeminiProvider::new(ai_config("gemini-pro", None, Some("k".to_string())));
    let mut delays = Vec::new();
    for retries in 0..3u32 {
        match provider.next_step(retries, 429, "busy") {
            Step::Retry { delay_secs } => delays.push(delay_secs),
            other => panic!("unexpected step {:?}", other),
        }
    }
    assert_eq!(delays, vec![2, 4, 8]);
    match provider.next_step(3, 429, "busy") {
        Step::Done(Err(SummarizeError::RateLimitExhausted { body })) => assert_eq!(body, "busy"),
        other => panic!("unexpected step {:?}", other),
    }
}

#[test]
fn gemini_server_error_is_not_retried() {
    let provider = GeminiProvider::new(ai_config("gemini-pro", None, Some("k".to_string())));
    match provider.next_step(0, 500, "Internal") {
        Step::Done(Err(SummarizeError::UpstreamStatus { status, body })) => {
            assert_eq!(status, 500);
            assert_eq!(body, "Internal");
        }
        other => panic!("unexpected step {:?}", other),
    }
}

#[test]
fn gemini_reply_without_text_is_malformed() {
    let provider = GeminiProvider::new(ai_config("gemini-pro", None, Some("k".to_string())));
    match provider.next_step(0, 200, "{\"candidates\": []}") {
        Step::Done(Err(e)) => assert_eq!(e, SummarizeError::MalformedResponse),
        other => panic!("unexpected step {:?}", other),
    }
}

#[test]
fn get_summarizer_ollama() {
    match get_summarizer(asum_config("ollama", None)).unwrap() {
        Provider::Ollama(p) => {
            assert_eq!(p.config.model, "llama3");
            assert_eq!(p.config.api_url.as_deref(), Some("http://localhost:11434"));
        }
        other => panic!("unexpected provider {:?}", other),
    }
}

#[test]
fn test_get_summarizer_gemini_long_key() {
    match get_summarizer(asum_config("gemini", Some("very_long_api_key_for_testing"))).unwrap() {
        Provider::Gemini(p) => {
            assert_eq!(p.config.model, "gemini-pro");
            assert_eq!(p.config.api_key.as_deref(), Some("very_long_api_key_for_testing"));
        }
        other => panic!("unexpected provider {:?}", other),
    }
}

#[test]
fn test_get_summarizer_unknown() {
    match get_summarizer(asum_config("unknown", None)) {
        Err(SummarizeError::UnknownProvider { name }) => assert_eq!(name, "unknown"),
        other => panic!("Expected error, got {:?}", other),
    }
}

#[test]
fn test_ollama_summarize_success() {
    let url = Some("http://127.0.0.1:9".to_string());
    let provider = OllamaProvider::new(ai_config("llama3", url, None));
    let body = "{\"message\": {\"content\": \"feat: success\"}}";
    match provider.on_reply(0, 200, body) {
        Step::Done(r) => assert_eq!(r.unwrap(), "feat: success"),
        other => panic!("unexpected step {:?}", other),
    }
}

#[test]
fn test_ollama_summarize_generate_endpoint_success() {
    let url = Some("http://127.0.0.1:9/api/generate".to_string());
    let provider = OllamaProvider::new(ai_config("llama3", url, None));
    let body = "{\"response\": \"feat: success from generate\"}";
    match provider.on_reply(0, 200, body) {
        Step::Done(r) => assert_eq!(r.unwrap(), "feat: success from generate"),
        other => panic!("unexpected step {:?}", other),
    }
}

#[test]
fn test_gemini_summarize_success() {
    let cfg = ai_config("gemini-pro", None, Some("test_key".to_string()));
    let provider = GeminiProvider::new_with_url(cfg, "http://127.0.0.1:9".to_string());
    assert!(provider.prepare("diff").is_ok());
    let body = "{\"candidates\": [{\"content\": {\"parts\": [{\"text\": \"fix: gemini success\"}]}}]}";
    match provider.on_reply(0, 200, body) {
        Step::Done(r) => assert_eq!(r.unwrap(), "fix: gemini success"),
        other => panic!("unexpected step {:?}", other),
    }
}
