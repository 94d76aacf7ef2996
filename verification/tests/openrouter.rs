use ats::config::{OpenRouterConfig, RetriesConfig};
use ats::openrouter::{
    build_body, classify_status, extract_prompt_tokens, is_context_exceeded_error,
    map_reqwest_error, parse_success, prompt_tokens_in, read_reply, read_reply_bytes,
    serialise_messages, CompletionStep, OpenRouterClient, MAX_BODY_SNIPPET,
};
use ats::ports::{
    ChatMessage, ChatRole, LlmCallRecord, LlmError, LlmRequest, LlmResponse, TokenUsage,
};
use ats::text::snippet;
use serde_json::Value;

fn json(text: &str) -> Value {
    serde_json::from_str(text).unwrap()
}

fn sample_request() -> LlmRequest {
    LlmRequest {
        stage: "keywords",
        model: "x/y".into(),
        temperature: Value::from(0.0),
        seed: Some(42),
        messages: vec![
            ChatMessage { role: ChatRole::System, content: "sys".into() },
            ChatMessage { role: ChatRole::User, content: "hello".into() },
        ],
        response_format: Some(json(r#"{"type": "json_schema"}"#)),
    }
}

#[test]
fn build_body_includes_seed_and_response_format() {
    let body = build_body(&sample_request());
    assert_eq!(body["model"], "x/y");
    assert_eq!(body["seed"], 42);
    assert_eq!(body["response_format"]["type"], "json_schema");
    assert_eq!(body["messages"][0]["role"], "system");
}

#[test]
fn build_body_omits_optional_fields_when_absent() {
    let mut req = sample_request();
    req.seed = None;
    req.response_format = None;
    let body = build_body(&req);
    assert!(body.get("seed").is_none(), "seed should be omitted");
    assert!(body.get("response_format").is_none(), "response_format should be omitted");
    assert_eq!(
        body,
        json(
            r#"{"model":"x/y","temperature":0.0,"messages":[
                {"role":"system","content":"sys"},{"role":"user","content":"hello"}]}"#
        )
    );
}

#[test]
fn messages_are_kept_as_compact_json() {
    let messages = vec![
        ChatMessage { role: ChatRole::Assistant, content: "a \"b\"\n".into() },
        ChatMessage { role: ChatRole::User, content: "é".into() },
    ];
    assert_eq!(
        serialise_messages(&messages),
        r#"[{"content":"a \"b\"\n","role":"assistant"},{"content":"é","role":"user"}]"#
    );
    assert_eq!(serialise_messages(&vec![]), "[]");
}

#[test]
fn parse_success_extracts_content_and_usage() {
    let raw = json(
        r#"{
        "choices": [{
            "message": {"role": "assistant", "content": "hi"}
        }],
        "usage": {"prompt_tokens": 10, "completion_tokens": 5, "total_tokens": 15}
    }"#,
    );
    let resp = parse_success(&raw).unwrap();
    assert_eq!(resp.content, "hi");
    assert_eq!(resp.usage.total, 15);
    assert_eq!(resp.raw, raw);
}

#[test]
fn parse_success_derives_total_when_missing() {
    let raw = json(
        r#"{
        "choices": [{"message": {"content": "ok"}}],
        "usage": {"prompt_tokens": 7, "completion_tokens": 3}
    }"#,
    );
    let resp = parse_success(&raw).unwrap();
    assert_eq!(resp.usage.total, 10);
}

#[test]
fn usage_reads_only_non_negative_integers() {
    let raw = json(
        r#"{"choices":[{"message":{"content":""}}],
            "usage":{"prompt_tokens":-1,"completion_tokens":2.0,"total_tokens":"9"}}"#,
    );
    assert_eq!(parse_success(&raw).unwrap().usage, TokenUsage::zero());
    let raw = json(
        r#"{"choices":[{"message":{"content":"x"}},{}],
            "usage":{"prompt_tokens":18446744073709551615,"total_tokens":7}}"#,
    );
    assert_eq!(
        parse_success(&raw).unwrap().usage,
        TokenUsage { prompt: u64::MAX, completion: 0, total: 7 }
    );
    assert_eq!(
        parse_success(&json(r#"{"choices":[{"message":{"content":"x"}}]}"#)).unwrap().usage,
        TokenUsage::zero()
    );
}

#[test]
fn other_shapes_are_no_success() {
    for text in [
        "{}",
        "[]",
        r#"{"choices":[]}"#,
        r#"{"choices":{"0":{"message":{"content":"x"}}}}"#,
        r#"{"choices":[{"message":{}}]}"#,
        r#"{"choices":[{"message":{"content":null}}]}"#,
        r#"{"choices":[{"text":"x"}]}"#,
    ] {
        assert!(parse_success(&json(text)).is_none(), "{text}");
    }
}

#[test]
fn classify_429_is_transient() {
    let err = classify_status(429, "rate limit reached", "x/y");
    assert!(matches!(err, LlmError::Transient(_)));
    assert_eq!(
        err.to_string(),
        "transient: rate limited (429 Too Many Requests): rate limit reached"
    );
}

#[test]
fn classify_500_series_is_transient() {
    for code in [500u16, 502, 503, 504] {
        let err = classify_status(code, "boom", "x/y");
        assert!(
            matches!(err, LlmError::Transient(_)),
            "status {code} should be transient, got {err:?}"
        );
    }
    assert_eq!(
        classify_status(503, "boom", "x/y").to_string(),
        "transient: server error 503 Service Unavailable"
    );
    assert_eq!(
        classify_status(599, "boom", "x/y").to_string(),
        "transient: server error 599 <unknown status code>"
    );
}

#[test]
fn classify_401_and_403_is_auth() {
    for code in [401u16, 403] {
        let err = classify_status(code, "nope", "x/y");
        assert!(matches!(err, LlmError::Auth(_)));
    }
    assert_eq!(classify_status(401, "nope", "x/y").to_string(), "auth: 401 Unauthorized: nope");
}

#[test]
fn classify_400_context_exceeded_matches_openai_format() {
    let body = r#"{"error":{"message":"too long","code":"context_length_exceeded"}}"#;
    let err = classify_status(400, body, "x/y");
    match err {
        LlmError::ContextExceeded { model, .. } => assert_eq!(model, "x/y"),
        other => panic!("expected ContextExceeded, got {other:?}"),
    }
}

#[test]
fn classify_400_context_exceeded_matches_openrouter_plain_text() {
    let body = "This model's maximum context length is 4096 tokens.";
    let err = classify_status(400, body, "x/y");
    assert!(matches!(err, LlmError::ContextExceeded { .. }));
}

#[test]
fn classify_400_unrelated_is_other() {
    let err = classify_status(400, "bad parameter: foo", "x/y");
    assert!(matches!(err, LlmError::Other(_)));
    assert_eq!(err.to_string(), "llm-other: 400 Bad Request: bad parameter: foo");
}

#[test]
fn classify_404_is_other() {
    let err = classify_status(404, "nope", "x/y");
    assert!(matches!(err, LlmError::Other(_)));
}

#[test]
fn classification_covers_the_edges_of_the_codes() {
    assert_eq!(
        classify_status(100, "", "m").to_string(),
        "llm-other: 100 Continue: "
    );
    assert!(matches!(classify_status(600, "x", "m"), LlmError::Other(_)));
    assert_eq!(
        classify_status(999, "x", "m").to_string(),
        "llm-other: 999 <unknown status code>: x"
    );
}

#[test]
fn is_context_exceeded_detects_all_patterns() {
    let status = 400;
    assert!(is_context_exceeded_error(status, "error code context_length_exceeded happened"));
    assert!(is_context_exceeded_error(status, "maximum context length is 4096"));
    assert!(is_context_exceeded_error(status, "Context Window exceeded"));
    assert!(!is_context_exceeded_error(status, "bad argument: foo"));
    assert!(!is_context_exceeded_error(200, "context length"));
    // The code itself is matched in its own case only.
    assert!(!is_context_exceeded_error(status, "CONTEXT_LENGTH_EXCEEDED"));
    assert!(is_context_exceeded_error(status, "MAXIMUM CONTEXT"));
}

#[test]
fn extract_prompt_tokens_reads_error_field() {
    let body = r#"{"error":{"message":"too long","prompt_tokens":9001}}"#;
    assert_eq!(extract_prompt_tokens(body), Some(9001));
}

#[test]
fn extract_prompt_tokens_falls_back_to_usage_field() {
    let body = r#"{"error":{"message":"x"},"usage":{"prompt_tokens":1234}}"#;
    assert_eq!(extract_prompt_tokens(body), Some(1234));
}

#[test]
fn extract_prompt_tokens_returns_none_when_absent() {
    assert_eq!(extract_prompt_tokens("{}"), None);
    assert_eq!(extract_prompt_tokens("not json"), None);
}

#[test]
fn prompt_tokens_that_do_not_fit_are_none() {
    let body = json(r#"{"error":{"prompt_tokens":4294967296},"usage":{"prompt_tokens":1}}"#);
    assert_eq!(prompt_tokens_in(&body), None);
    let body = json(r#"{"error":{"prompt_tokens":4294967295}}"#);
    assert_eq!(prompt_tokens_in(&body), Some(u32::MAX));
    let body = json(r#"{"error":{"prompt_tokens":-4},"usage":{"prompt_tokens":1}}"#);
    assert_eq!(prompt_tokens_in(&body), Some(1));
}

#[test]
fn snippet_truncates_long_bodies() {
    let long: String = "a".repeat(MAX_BODY_SNIPPET + 50);
    let s = snippet(&long, MAX_BODY_SNIPPET);
    assert!(s.chars().count() <= MAX_BODY_SNIPPET + 1, "got {}", s.len());
    assert!(s.ends_with('…'));
    assert_eq!(s, format!("{}…", "a".repeat(500)));
}

#[test]
fn snippet_passes_short_bodies_through() {
    assert_eq!(snippet("hi", MAX_BODY_SNIPPET), "hi");
    let exact = "é".repeat(MAX_BODY_SNIPPET);
    assert_eq!(snippet(&exact, MAX_BODY_SNIPPET), exact);
}

#[test]
fn network_failures_are_transient() {
    for (timeout, connect, request) in
        [(true, false, false), (false, true, false), (false, false, true), (true, true, true)]
    {
        let err = map_reqwest_error(timeout, connect, request, "lost");
        assert_eq!(err.to_string(), "transient: network: lost");
    }
    assert_eq!(
        map_reqwest_error(false, false, false, "odd").to_string(),
        "llm-other: reqwest: odd"
    );
}

fn sample_client(max_attempts: u32, backoff_ms: Vec<u64>) -> OpenRouterClient {
    let cfg = OpenRouterConfig { api_key: "k".into(), base_url: "http://127.0.0.1".into() };
    let retries = RetriesConfig {
        llm_transient_max_attempts: max_attempts,
        llm_transient_backoff_ms: backoff_ms,
        schema_validation_max_attempts: 3,
    };
    OpenRouterClient::new(&cfg, &retries)
}

/// Makes a call against scripted replies; also gives the waits between attempts.
fn complete(
    client: &OpenRouterClient,
    replies: &[(u16, &str)],
) -> (Result<LlmResponse, LlmError>, Vec<LlmCallRecord>, Vec<u64>) {
    let request = sample_request();
    let mut records = Vec::new();
    let mut waits = Vec::new();
    let mut attempt = 1;
    loop {
        let (status, body) = replies[(attempt as usize - 1).min(replies.len() - 1)];
        let result = read_reply(status, body, &request.model);
        match client.on_attempt(&request, attempt, result, "now".into()) {
            CompletionStep::Done { response, record } => {
                records.push(record);
                return (Ok(response), records, waits);
            }
            CompletionStep::Retry { record, next_attempt, delay_ms } => {
                records.push(record);
                waits.push(delay_ms);
                attempt = next_attempt;
            }
            CompletionStep::Failed { error, record } => {
                records.push(record);
                return (Err(error), records, waits);
            }
        }
    }
}

const BODY_OK: &str = r#"{
    "choices": [{"message": {"role": "assistant", "content": "hello"}}],
    "usage": {"prompt_tokens": 10, "completion_tokens": 5, "total_tokens": 15}
}"#;

#[test]
fn transient_then_success_records_three_attempts() {
    let client = sample_client(3, vec![0, 0, 0]);
    let (result, records, _) =
        complete(&client, &[(429, "rate limited"), (500, "server error"), (200, BODY_OK)]);
    let resp = result.unwrap();
    assert_eq!(resp.content, "hello");
    assert_eq!(resp.usage.total, 15);

    assert_eq!(records.len(), 3);
    assert_eq!(records[0].outcome, "transient");
    assert_eq!(records[1].outcome, "transient");
    assert_eq!(records[2].outcome, "ok");
    assert_eq!(records[2].usage.total, 15);
    assert_eq!(records[0].usage, TokenUsage::zero());
    assert_eq!(records[0].response, "transient: rate limited (429 Too Many Requests): rate limited");
    assert_eq!(records[2].response, "hello");
    assert_eq!(
        records[2].prompt,
        r#"[{"content":"sys","role":"system"},{"content":"hello","role":"user"}]"#
    );
    assert_eq!((records[2].stage.as_str(), records[2].seed), ("keywords", Some(42)));
    let attempts: Vec<u32> = records.iter().map(|r| r.attempt).collect();
    assert_eq!(attempts, vec![1, 2, 3]);
}

#[test]
fn exhausts_retries_returns_transient_error() {
    let client = sample_client(5, vec![0, 0, 0, 0, 0]);
    let (result, records, _) = complete(&client, &[(500, "boom")]);
    let err = result.unwrap_err();
    assert!(matches!(err, LlmError::Transient(_)), "got {err:?}");
    assert_eq!(records.len(), 5);
    assert!(records.iter().all(|r| r.outcome == "transient"));
}

#[test]
fn auth_fails_fast_records_one_attempt() {
    let client = sample_client(3, vec![0, 0, 0]);
    let (result, records, _) = complete(&client, &[(401, "invalid key")]);
    let err = result.unwrap_err();
    assert!(matches!(err, LlmError::Auth(_)), "got {err:?}");
    assert_eq!(records.len(), 1);
    assert_eq!(records[0].outcome, "auth");
}

#[test]
fn context_exceeded_fails_fast() {
    let body = r#"{"error":{"message":"Maximum context length is 4096 tokens","code":"context_length_exceeded"}}"#;
    let client = sample_client(3, vec![0, 0, 0]);
    let (result, records, _) = complete(&client, &[(400, body)]);
    match result.unwrap_err() {
        LlmError::ContextExceeded { model, .. } => assert_eq!(model, "x/y"),
        other => panic!("expected ContextExceeded, got {other:?}"),
    }
    assert_eq!(records.len(), 1);
    assert_eq!(records[0].outcome, "context-exceeded");
}

#[test]
fn non_json_success_body_becomes_other() {
    let client = sample_client(3, vec![0, 0, 0]);
    let (result, records, _) = complete(&client, &[(200, "not-json")]);
    let err = result.unwrap_err();
    assert!(matches!(err, LlmError::Other(_)), "got {err:?}");
    assert_eq!(err.to_string(), "llm-other: non-json response: not-json");
    assert_eq!(records.len(), 1);
    assert_eq!(records[0].outcome, "other");
}

#[test]
fn unexpected_shape_becomes_other() {
    let (result, _, _) = complete(&sample_client(3, vec![]), &[(299, "{}")]);
    assert_eq!(result.unwrap_err().to_string(), "llm-other: unexpected response shape: {}");
}

#[test]
fn waits_follow_the_backoff_and_stay_at_its_last_entry() {
    let client = sample_client(5, vec![1000, 2000]);
    let (_, _, waits) = complete(&client, &[(500, "boom")]);
    assert_eq!(waits, vec![1000, 2000, 2000, 2000]);
    let (_, _, waits) = complete(&sample_client(3, vec![]), &[(500, "boom")]);
    assert_eq!(waits, vec![0, 0]);
    assert_eq!(client.sleep_for(0), 1000);
    assert_eq!(client.sleep_for(7), 2000);
}

#[test]
fn a_call_always_has_an_attempt() {
    let client = sample_client(0, vec![5]);
    assert_eq!(client.max_attempts(), 1);
    let (result, records, waits) = complete(&client, &[(500, "boom")]);
    assert!(result.is_err());
    assert_eq!((records.len(), waits.len()), (1, 0));
}

#[test]
fn endpoint_drops_trailing_slashes() {
    let cfg = OpenRouterConfig { api_key: "k".into(), base_url: "https://h/api//".into() };
    let retries = RetriesConfig {
        llm_transient_max_attempts: 1,
        llm_transient_backoff_ms: vec![],
        schema_validation_max_attempts: 1,
    };
    let client = OpenRouterClient::new(&cfg, &retries);
    assert_eq!(client.endpoint(), "https://h/api/chat/completions");
    assert_eq!(client.api_key, "k");
}

#[test]
fn bytes_of_a_reply_are_decoded() {
    let ok = r#"{"choices":[{"message":{"content":"naïve – résumé"}}]}"#;
    let reply = read_reply_bytes(200, ok.as_bytes(), "x/y").unwrap();
    assert_eq!(reply.content, "naïve – résumé");
    assert_eq!(reply.usage, TokenUsage::zero());
}

#[test]
fn bytes_that_are_no_text_are_replaced() {
    let err = read_reply_bytes(404, b"gone \xff!", "x/y").unwrap_err();
    assert_eq!(err.to_string(), "llm-other: 404 Not Found: gone \u{fffd}!");
}
