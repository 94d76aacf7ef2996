//! The chat-completion protocol: what is sent, how a reply is read, how a
//! failure is classed, and when a failed attempt is repeated.

use vstd::prelude::*;
use serde_json::Value;
use crate::config::{OpenRouterConfig, RetriesConfig};
use crate::json;
use crate::json::Tree;
use crate::ports::{ChatMessage, LlmCallRecord, LlmError, LlmRequest, LlmResponse, TokenUsage};
use crate::text;

verus! {

/// How much of the body of a reply goes into an error.
pub const MAX_BODY_SNIPPET: usize = 500;

// ---------------------------------------------------------------------------
// Requests
// ---------------------------------------------------------------------------

/// A message as JSON.
pub open spec fn message_tree(m: ChatMessage) -> Tree {
    Tree::Object(
        Map::empty().insert("role"@, Tree::Text(m.role.wire_name())).insert(
            "content"@,
            Tree::Text(m.content@),
        ),
    )
}

/// Messages as JSON, in order.
pub open spec fn messages_tree(messages: Seq<ChatMessage>) -> Tree {
    Tree::List(Seq::new(messages.len(), |i: int| message_tree(messages[i])))
}

/// The body of a request. Seed and structured-output block stand in it only
/// where the request has them.
pub open spec fn body_tree(req: LlmRequest) -> Tree {
    let base = Map::empty().insert("model"@, Tree::Text(req.model@)).insert(
        "temperature"@,
        json::json_tree(req.temperature),
    ).insert("messages"@, messages_tree(req.messages@));
    let seeded = match req.seed {
        Some(seed) => base.insert("seed"@, Tree::Int(seed as int)),
        None => base,
    };
    Tree::Object(
        match req.response_format {
            Some(f) => seeded.insert("response_format"@, json::json_tree(f)),
            None => seeded,
        },
    )
}

fn serialise_message(m: &ChatMessage) -> (r: Value)
    ensures
        json::json_tree(r) == message_tree(*m),
{
    let mut out = json::empty_object();
    json::insert_member(&mut out, "role", json::text_value(m.role.as_str()));
    json::insert_member(&mut out, "content", json::text_value(m.content.as_str()));
    out
}

fn messages_value(messages: &Vec<ChatMessage>) -> (r: Value)
    ensures
        json::json_tree(r) == messages_tree(messages@),
{
    let mut out: Vec<Value> = Vec::new();
    for i in 0..messages.len()
        invariant
            out@.len() == i,
            forall|k: int|
                0 <= k < i ==> json::json_tree(#[trigger] out@[k]) == message_tree(messages@[k]),
    {
        out.push(serialise_message(&messages[i]));
    }
    assert(json::trees(out@) =~= Seq::new(
        messages@.len(),
        |i: int| message_tree(messages@[i]),
    ));
    json::list_value(out)
}

/// The messages of a request as the audit log keeps them: compact JSON.
pub fn serialise_messages(messages: &Vec<ChatMessage>) -> (r: String)
    ensures
        r@ == json::json_compact(messages_tree(messages@)),
{
    let value = messages_value(messages);
    json::compact_text(&value)
}

/// The body of a request.
pub fn build_body(req: &LlmRequest) -> (r: Value)
    ensures
        json::json_tree(r) == body_tree(*req),
{
    let mut out = json::empty_object();
    json::insert_member(&mut out, "model", json::text_value(req.model.as_str()));
    json::insert_member(&mut out, "temperature", req.temperature.clone());
    json::insert_member(&mut out, "messages", messages_value(&req.messages));
    if let Some(seed) = req.seed {
        json::insert_member(&mut out, "seed", json::signed_value(seed));
    }
    if let Some(f) = &req.response_format {
        json::insert_member(&mut out, "response_format", f.clone());
    }
    out
}

// ---------------------------------------------------------------------------
// Replies
// ---------------------------------------------------------------------------

/// A count of tokens, zero where there is none.
pub open spec fn token_count(usage: Tree, key: Seq<char>) -> u64 {
    match json::tree_member(usage, key) {
        Some(n) => match json::tree_unsigned(n) {
            Some(k) => k as u64,
            None => 0,
        },
        None => 0,
    }
}

/// The sum of two counts, modulo 2^64.
pub open spec fn wrapped_sum(a: u64, b: u64) -> u64 {
    if a + b <= u64::MAX {
        (a + b) as u64
    } else {
        (a + b - u64::MAX - 1) as u64
    }
}

/// `usage` has a total of its own.
pub open spec fn has_total(usage: Tree) -> bool {
    match json::tree_member(usage, "total_tokens"@) {
        Some(n) => json::tree_unsigned(n) is Some,
        None => false,
    }
}

/// The usage of a reply: counts that are missing are zero, and a total that is
/// missing is the sum of the other two.
pub open spec fn usage_of(usage: Tree) -> TokenUsage {
    let prompt = token_count(usage, "prompt_tokens"@);
    let completion = token_count(usage, "completion_tokens"@);
    TokenUsage {
        prompt,
        completion,
        total: if has_total(usage) {
            token_count(usage, "total_tokens"@)
        } else {
            wrapped_sum(prompt, completion)
        },
    }
}

/// The content of the first choice of a reply.
pub open spec fn reply_content(body: Tree) -> Option<Seq<char>> {
    match json::tree_member(body, "choices"@) {
        Some(choices) => match json::tree_element(choices, 0) {
            Some(first) => match json::tree_path2(first, "message"@, "content"@) {
                Some(content) => json::tree_text(content),
                None => None,
            },
            None => None,
        },
        None => None,
    }
}

/// The usage of a reply, all zero where it states none.
pub open spec fn reply_usage(body: Tree) -> TokenUsage {
    match json::tree_member(body, "usage"@) {
        Some(u) => usage_of(u),
        None => TokenUsage::none(),
    }
}

fn count_of(v: &Value, key: &str) -> (r: u64)
    ensures
        r == token_count(json::json_tree(*v), key@),
{
    match json::member(v, key) {
        Some(n) => match json::as_unsigned(n) {
            Some(k) => k,
            None => 0,
        },
        None => 0,
    }
}

fn parse_usage(v: &Value) -> (r: TokenUsage)
    ensures
        r == usage_of(json::json_tree(*v)),
{
    let prompt = count_of(v, "prompt_tokens");
    let completion = count_of(v, "completion_tokens");
    let stated: Option<u64> = match json::member(v, "total_tokens") {
        Some(n) => json::as_unsigned(n),
        None => None,
    };
    let total: u64 = match stated {
        Some(n) => n,
        None => prompt.wrapping_add(completion),
    };
    TokenUsage { prompt, completion, total }
}

/// The reply in the body of a successful call, where the body has the expected
/// shape.
pub fn parse_success(body: &Value) -> (r: Option<LlmResponse>)
    ensures
        r is Some <==> reply_content(json::json_tree(*body)) is Some,
        r matches Some(x) ==> {
            &&& reply_content(json::json_tree(*body)) == Some(x.content@)
            &&& x.usage == reply_usage(json::json_tree(*body))
            &&& json::json_tree(x.raw) == json::json_tree(*body)
        },
{
    let choices = json::as_list(json::member(body, "choices")?)?;
    if choices.len() == 0 {
        return None;
    }
    let content = json::as_text(json::member2(&choices[0], "message", "content")?)?;
    let usage = match json::member(body, "usage") {
        Some(u) => parse_usage(u),
        None => TokenUsage::zero(),
    };
    Some(LlmResponse { content: content.to_string(), usage, raw: body.clone() })
}

// ---------------------------------------------------------------------------
// Failures
// ---------------------------------------------------------------------------

/// The canonical reason of an HTTP status, as `StatusCode` displays it behind
/// the code.
pub uninterp spec fn status_reason(code: u16) -> Seq<char>;

/// An HTTP status in words: its code and its canonical reason.
pub open spec fn status_text(code: u16) -> Seq<char> {
    text::numeral(code as nat) + " "@ + status_reason(code)
}

/// `reqwest::StatusCode::from_u16`, which accepts the codes from 100 to 999, and
/// the `Display` form of the status: the code and its canonical reason.
#[verifier::external_body]
fn describe_status(code: u16) -> (r: String)
    requires
        100 <= code <= 999,
    ensures
        r@ == text::numeral(code as nat) + " "@ + status_reason(code),
{
    reqwest::StatusCode::from_u16(code).map(|s| s.to_string()).unwrap_or_default()
}

/// A body that says that the prompt is longer than the context window.
pub open spec fn mentions_context(body: Seq<char>) -> bool {
    ||| text::occurs(body, "context_length_exceeded"@)
    ||| text::occurs(text::ascii_lowercase(body), "context length"@)
    ||| text::occurs(text::ascii_lowercase(body), "maximum context"@)
    ||| text::occurs(text::ascii_lowercase(body), "context window"@)
}

/// Whether a failure means that the prompt is longer than the context window.
pub fn is_context_exceeded_error(status: u16, body: &str) -> (r: bool)
    ensures
        r == (status == 400 && mentions_context(body@)),
{
    if status != 400 {
        return false;
    }
    if text::contains(body, "context_length_exceeded") {
        return true;
    }
    let lowered = text::to_ascii_lowercase(body);
    text::contains(lowered.as_str(), "context length") || text::contains(
        lowered.as_str(),
        "maximum context",
    ) || text::contains(lowered.as_str(), "context window")
}

/// The number of prompt tokens that a failure states: in its error, else in its
/// usage; nothing where it does not fit 32 bits.
pub open spec fn stated_prompt_tokens(body: Tree) -> Option<u32> {
    match path_unsigned(body, "error"@, "prompt_tokens"@) {
        Some(n) => fit_u32(n),
        None => match path_unsigned(body, "usage"@, "prompt_tokens"@) {
            Some(n) => fit_u32(n),
            None => None,
        },
    }
}

/// The number at a path of two keys.
pub open spec fn path_unsigned(t: Tree, outer: Seq<char>, inner: Seq<char>) -> Option<nat> {
    match json::tree_path2(t, outer, inner) {
        Some(n) => json::tree_unsigned(n),
        None => None,
    }
}

/// The number, where it fits 32 bits.
pub open spec fn fit_u32(n: nat) -> Option<u32> {
    if n <= u32::MAX {
        Some(n as u32)
    } else {
        None
    }
}

/// The number of prompt tokens that the text of a failure states.
pub open spec fn body_prompt_tokens(body: Seq<char>) -> Option<u32> {
    match json::json_parsed(body) {
        Ok(t) => stated_prompt_tokens(t),
        Err(_) => None,
    }
}

fn unsigned_at(v: &Value, outer: &str, inner: &str) -> (r: Option<u64>)
    ensures
        r is Some <==> path_unsigned(json::json_tree(*v), outer@, inner@) is Some,
        r matches Some(n) ==> path_unsigned(json::json_tree(*v), outer@, inner@) == Some(n as nat),
{
    match json::member2(v, outer, inner) {
        Some(n) => json::as_unsigned(n),
        None => None,
    }
}

fn narrow(n: u64) -> (r: Option<u32>)
    ensures
        r == fit_u32(n as nat),
{
    if n <= u32::MAX as u64 {
        Some(n as u32)
    } else {
        None
    }
}

/// The number of prompt tokens that a parsed failure states.
pub fn prompt_tokens_in(body: &Value) -> (r: Option<u32>)
    ensures
        r == stated_prompt_tokens(json::json_tree(*body)),
{
    match unsigned_at(body, "error", "prompt_tokens") {
        Some(n) => narrow(n),
        None => match unsigned_at(body, "usage", "prompt_tokens") {
            Some(n) => narrow(n),
            None => None,
        },
    }
}

/// The number of prompt tokens that the text of a failure states.
pub fn extract_prompt_tokens(body: &str) -> (r: Option<u32>)
    ensures
        r == body_prompt_tokens(body@),
{
    match json::parse(body) {
        Ok(v) => prompt_tokens_in(&v),
        Err(_) => None,
    }
}

/// The first characters of a body, as an error shows them.
pub open spec fn body_snippet(body: Seq<char>) -> Seq<char> {
    text::snipped(body, MAX_BODY_SNIPPET as nat)
}

/// The error for a status that is no success. Rate limits and server failures
/// are transient; refused credentials and exceeded context windows are told
/// apart from all other refusals.
pub open spec fn is_status_error(
    status: u16,
    body: Seq<char>,
    model: Seq<char>,
    e: LlmError,
) -> bool {
    if status == 429 {
        e matches LlmError::Transient(m) && m@ == "rate limited ("@ + status_text(status) + "): "@
            + body_snippet(body)
    } else if 500 <= status <= 599 {
        e matches LlmError::Transient(m) && m@ == "server error "@ + status_text(status)
    } else if status == 401 || status == 403 {
        e matches LlmError::Auth(m) && m@ == status_text(status) + ": "@ + body_snippet(body)
    } else if status == 400 && mentions_context(body) {
        e matches LlmError::ContextExceeded { model: n, message: m, prompt_tokens: t } && n@
            == model && m@ == body_snippet(body) && t == body_prompt_tokens(body)
    } else {
        e matches LlmError::Other(m) && m@ == status_text(status) + ": "@ + body_snippet(body)
    }
}

/// Classes a status that is no success.
pub fn classify_status(status: u16, body: &str, model: &str) -> (r: LlmError)
    requires
        100 <= status <= 999,
    ensures
        is_status_error(status, body@, model@, r),
{
    let shown = text::snippet(body, MAX_BODY_SNIPPET);
    let described = describe_status(status);
    if status == 429 {
        let mut m = text::concat3("rate limited (", described.as_str(), "): ");
        m.push_str(shown.as_str());
        return LlmError::Transient(m);
    }
    if 500 <= status && status <= 599 {
        return LlmError::Transient(text::concat2("server error ", described.as_str()));
    }
    let refused = text::concat3(described.as_str(), ": ", shown.as_str());
    if status == 401 || status == 403 {
        return LlmError::Auth(refused);
    }
    if is_context_exceeded_error(status, body) {
        let prompt_tokens = extract_prompt_tokens(body);
        return LlmError::ContextExceeded {
            model: model.to_string(),
            message: shown,
            prompt_tokens,
        };
    }
    LlmError::Other(refused)
}

/// Classes a call that brought no reply: timeouts, failed connections and failed
/// requests are transient.
pub fn map_reqwest_error(timeout: bool, connect: bool, request: bool, cause: &str) -> (r: LlmError)
    ensures
        timeout || connect || request ==> (r matches LlmError::Transient(m) && m@ == "network: "@
            + cause@),
        !(timeout || connect || request) ==> (r matches LlmError::Other(m) && m@ == "reqwest: "@
            + cause@),
{
    if timeout || connect || request {
        LlmError::Transient(text::concat2("network: ", cause))
    } else {
        LlmError::Other(text::concat2("reqwest: ", cause))
    }
}

/// A status of success.
pub open spec fn is_success(status: u16) -> bool {
    200 <= status <= 299
}

/// What a reply with this status and body comes to.
pub open spec fn is_reading(
    status: u16,
    body: Seq<char>,
    model: Seq<char>,
    r: Result<LlmResponse, LlmError>,
) -> bool {
    if is_success(status) {
        match json::json_parsed(body) {
            Err(_) => r matches Err(LlmError::Other(m)) && m@ == "non-json response: "@
                + body_snippet(body),
            Ok(t) => match reply_content(t) {
                None => r matches Err(LlmError::Other(m)) && m@ == "unexpected response shape: "@
                    + body_snippet(body),
                Some(content) => r matches Ok(x) && x.content@ == content && x.usage == reply_usage(
                    t,
                ) && json::json_tree(x.raw) == t,
            },
        }
    } else {
        r matches Err(e) && is_status_error(status, body, model, e)
    }
}

/// Reads a reply: the response of a success, or the error of anything else.
pub fn read_reply(status: u16, body: &str, model: &str) -> (r: Result<LlmResponse, LlmError>)
    requires
        100 <= status <= 999,
    ensures
        is_reading(status, body@, model@, r),
{
    if !(200 <= status && status <= 299) {
        return Err(classify_status(status, body, model));
    }
    let shown = text::snippet(body, MAX_BODY_SNIPPET);
    match json::parse(body) {
        Err(_) => Err(LlmError::Other(text::concat2("non-json response: ", shown.as_str()))),
        Ok(raw) => match parse_success(&raw) {
            Some(x) => Ok(x),
            None => Err(
                LlmError::Other(text::concat2("unexpected response shape: ", shown.as_str())),
            ),
        },
    }
}

/// The text of bytes that may not be UTF-8: what `String::from_utf8_lossy`
/// returns.
pub uninterp spec fn lossy_text(bytes: Seq<u8>) -> Seq<char>;

/// `String::from_utf8_lossy`. Bytes that are UTF-8 are decoded as they are; what
/// replaces those that are not is left to the name.
#[verifier::external_body]
fn text_of_bytes(bytes: &[u8]) -> (r: String)
    ensures
        r@ == lossy_text(bytes@),
        vstd::utf8::valid_utf8(bytes@) ==> r@ == vstd::utf8::decode_utf8(bytes@),
{
    String::from_utf8_lossy(bytes).into_owned()
}

/// Reads the bytes of a reply: the response of a success, or the error of
/// anything else.
pub fn read_reply_bytes(status: u16, bytes: &[u8], model: &str) -> (r: Result<LlmResponse, LlmError>)
    requires
        100 <= status <= 999,
    ensures
        is_reading(status, lossy_text(bytes@), model@, r),
{
    let body = text_of_bytes(bytes);
    read_reply(status, body.as_str(), model)
}

// ---------------------------------------------------------------------------
// Attempts
// ---------------------------------------------------------------------------

/// A client of the chat-completion endpoint.
pub struct OpenRouterClient {
    pub api_key: String,
    pub base_url: String,
    pub max_attempts: u32,
    pub backoff_ms: Vec<u64>,
}

/// What comes after an attempt. Every attempt leaves a record.
pub enum CompletionStep {
    /// There is a response.
    Done { response: LlmResponse, record: LlmCallRecord },
    /// Wait, then try again.
    Retry { record: LlmCallRecord, next_attempt: u32, delay_ms: u64 },
    /// The call has failed.
    Failed { error: LlmError, record: LlmCallRecord },
}

/// `s` without its trailing slashes.
pub open spec fn without_trailing_slashes(s: Seq<char>) -> Seq<char>
    decreases s.len(),
{
    if s.len() > 0 && s.last() == '/' {
        without_trailing_slashes(s.drop_last())
    } else {
        s
    }
}

/// The wait behind the attempt with the index `idx`: its own entry of the
/// backoff, else the last entry, else none.
pub open spec fn backoff_delay(backoff: Seq<u64>, idx: int) -> u64 {
    if idx < backoff.len() {
        backoff[idx]
    } else if backoff.len() > 0 {
        backoff.last()
    } else {
        0
    }
}

/// The record of an attempt.
pub open spec fn is_attempt_record(
    record: LlmCallRecord,
    req: LlmRequest,
    attempt: u32,
    outcome: Seq<char>,
    response: Seq<char>,
    usage: TokenUsage,
    timestamp: Seq<char>,
) -> bool {
    &&& record.timestamp@ == timestamp
    &&& record.stage@ == req.stage@
    &&& record.model@ == req.model@
    &&& json::json_tree(record.temperature) == json::json_tree(req.temperature)
    &&& record.seed == req.seed
    &&& record.prompt@ == json::json_compact(messages_tree(req.messages@))
    &&& record.response@ == response
    &&& record.usage == usage
    &&& record.attempt == attempt
    &&& record.outcome@ == outcome
}

fn trim_slashes(s: &str) -> (r: String)
    ensures
        r@ == without_trailing_slashes(s@),
{
    let chars = text::chars_of(s);
    let mut end: usize = chars.len();
    assert(s@.take(end as int) =~= s@);
    while end > 0 && chars[end - 1] == '/'
        invariant
            chars@ == s@,
            end <= chars@.len(),
            without_trailing_slashes(s@) == without_trailing_slashes(s@.take(end as int)),
        decreases end,
    {
        assert(s@.take(end as int).drop_last() =~= s@.take(end - 1));
        end -= 1;
    }
    assert(chars@.subrange(0, end as int) =~= s@.take(end as int));
    text::string_of_range(&chars, 0, end)
}

fn attempt_record(
    req: &LlmRequest,
    attempt: u32,
    outcome: &str,
    response: &str,
    usage: TokenUsage,
    timestamp: String,
) -> (r: LlmCallRecord)
    ensures
        is_attempt_record(r, *req, attempt, outcome@, response@, usage, timestamp@),
{
    LlmCallRecord {
        timestamp,
        stage: req.stage.to_string(),
        model: req.model.clone(),
        temperature: req.temperature.clone(),
        seed: req.seed,
        prompt: serialise_messages(&req.messages),
        response: response.to_string(),
        usage,
        attempt,
        outcome: outcome.to_string(),
    }
}

impl OpenRouterClient {
    /// A client for the configured endpoint. At least one attempt is made,
    /// whatever the configuration allows.
    pub fn new(cfg: &OpenRouterConfig, retries: &RetriesConfig) -> (r: Self)
        ensures
            r.api_key@ == cfg.api_key@,
            r.base_url@ == without_trailing_slashes(cfg.base_url@),
            r.max_attempts == if retries.llm_transient_max_attempts == 0 {
                1
            } else {
                retries.llm_transient_max_attempts
            },
            r.backoff_ms@ == retries.llm_transient_backoff_ms@,
    {
        let mut backoff_ms: Vec<u64> = Vec::new();
        for i in 0..retries.llm_transient_backoff_ms.len()
            invariant
                backoff_ms@ == retries.llm_transient_backoff_ms@.take(i as int),
        {
            backoff_ms.push(retries.llm_transient_backoff_ms[i]);
            assert(backoff_ms@ =~= retries.llm_transient_backoff_ms@.take(i + 1));
        }
        assert(backoff_ms@ =~= retries.llm_transient_backoff_ms@);
        OpenRouterClient {
            api_key: cfg.api_key.clone(),
            base_url: trim_slashes(cfg.base_url.as_str()),
            max_attempts: if retries.llm_transient_max_attempts == 0 {
                1
            } else {
                retries.llm_transient_max_attempts
            },
            backoff_ms,
        }
    }

    /// How many attempts a call has.
    pub fn max_attempts(&self) -> (r: u32)
        ensures
            r == self.max_attempts,
    {
        self.max_attempts
    }

    /// The address that requests are sent to.
    pub fn endpoint(&self) -> (r: String)
        ensures
            r@ == self.base_url@ + "/chat/completions"@,
    {
        text::concat2(self.base_url.as_str(), "/chat/completions")
    }

    /// The wait, in milliseconds, behind the attempt with the index `idx`.
    pub fn sleep_for(&self, idx: usize) -> (r: u64)
        ensures
            r == backoff_delay(self.backoff_ms@, idx as int),
    {
        if idx < self.backoff_ms.len() {
            self.backoff_ms[idx]
        } else if self.backoff_ms.len() > 0 {
            self.backoff_ms[self.backoff_ms.len() - 1]
        } else {
            0
        }
    }

    /// The step that an attempt leads to.
    pub open spec fn attempt_leads_to(
        self,
        req: LlmRequest,
        attempt: u32,
        result: Result<LlmResponse, LlmError>,
        timestamp: Seq<char>,
        step: CompletionStep,
    ) -> bool {
        match result {
            Ok(response) => step matches CompletionStep::Done { response: x, record } && {
                &&& x == response
                &&& is_attempt_record(
                    record,
                    req,
                    attempt,
                    "ok"@,
                    response.content@,
                    response.usage,
                    timestamp,
                )
            },
            Err(error) => if error is Transient && attempt < self.max_attempts {
                step matches CompletionStep::Retry { record, next_attempt, delay_ms } && {
                    &&& next_attempt == attempt + 1
                    &&& delay_ms == backoff_delay(self.backoff_ms@, attempt - 1)
                    &&& is_attempt_record(
                        record,
                        req,
                        attempt,
                        error.tag(),
                        error.text(),
                        TokenUsage::none(),
                        timestamp,
                    )
                }
            } else {
                step matches CompletionStep::Failed { error: e, record } && {
                    &&& e == error
                    &&& is_attempt_record(
                        record,
                        req,
                        attempt,
                        error.tag(),
                        error.text(),
                        TokenUsage::none(),
                        timestamp,
                    )
                }
            },
        }
    }

    /// What comes after an attempt: a response ends the call; so does a failure
    /// that is not transient, and the last attempt; any other failure is tried
    /// again after a wait. `timestamp` is the time that the record is given.
    pub fn on_attempt(
        &self,
        req: &LlmRequest,
        attempt: u32,
        result: Result<LlmResponse, LlmError>,
        timestamp: String,
    ) -> (r: CompletionStep)
        requires
            1 <= attempt <= self.max_attempts,
        ensures
            self.attempt_leads_to(*req, attempt, result, timestamp@, r),
    {
        match result {
            Ok(response) => {
                let record = attempt_record(
                    req,
                    attempt,
                    "ok",
                    response.content.as_str(),
                    response.usage,
                    timestamp,
                );
                CompletionStep::Done { response, record }
            },
            Err(error) => {
                let record = attempt_record(
                    req,
                    attempt,
                    error.outcome_tag(),
                    error.to_string().as_str(),
                    TokenUsage::zero(),
                    timestamp,
                );
                let transient: bool = match &error {
                    LlmError::Transient(_) => true,
                    _ => false,
                };
                if transient && attempt < self.max_attempts {
                    CompletionStep::Retry {
                        record,
                        next_attempt: attempt + 1,
                        delay_ms: self.sleep_for((attempt - 1) as usize),
                    }
                } else {
                    CompletionStep::Failed { error, record }
                }
            },
        }
    }
}

// ---------------------------------------------------------------------------
// Laws
// ---------------------------------------------------------------------------

/// A call that took these attempts: it began with the first, every attempt but
/// the last was followed by the next, and only after a transient failure with
/// attempts left.
pub open spec fn is_call(
    client: OpenRouterClient,
    attempts: Seq<u32>,
    results: Seq<Result<LlmResponse, LlmError>>,
) -> bool {
    &&& attempts.len() == results.len()
    &&& attempts.len() > 0
    &&& attempts[0] == 1
    &&& forall|i: int|
        0 <= i < attempts.len() - 1 ==> {
            &&& (#[trigger] results[i]) matches Err(e) && e is Transient
            &&& attempts[i] < client.max_attempts
            &&& attempts[i + 1] == attempts[i] + 1
        }
}

/// A call makes no more attempts than it has, numbers them from one, and goes on
/// after nothing but a transient failure: a response, refused credentials, an
/// exceeded context window or any other failure is always its last attempt.
pub proof fn call_is_bounded_and_fails_fast(
    client: OpenRouterClient,
    attempts: Seq<u32>,
    results: Seq<Result<LlmResponse, LlmError>>,
)
    requires
        is_call(client, attempts, results),
        client.max_attempts >= 1,
    ensures
        attempts.len() <= client.max_attempts,
        forall|i: int| 0 <= i < attempts.len() ==> #[trigger] attempts[i] == i + 1,
        forall|i: int|
            0 <= i < results.len() && !((#[trigger] results[i]) matches Err(e) && e is Transient)
                ==> i == results.len() - 1,
{
    lemma_attempts_count_up(client, attempts, results, attempts.len() - 1);
    if attempts.len() > 1 {
        let i = attempts.len() - 2;
        assert(results[i] is Err);
        assert(attempts[i] < client.max_attempts);
    }
}

proof fn lemma_attempts_count_up(
    client: OpenRouterClient,
    attempts: Seq<u32>,
    results: Seq<Result<LlmResponse, LlmError>>,
    k: int,
)
    requires
        is_call(client, attempts, results),
        0 <= k < attempts.len(),
    ensures
        forall|i: int| 0 <= i <= k ==> #[trigger] attempts[i] == i + 1,
    decreases k,
{
    if k > 0 {
        lemma_attempts_count_up(client, attempts, results, k - 1);
        assert(results[k - 1] is Err);
        assert(attempts[k - 1] == k);
    }
}

} // verus!
