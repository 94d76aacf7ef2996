//! What the stages exchange with the outside: chat requests and replies, audit
//! records, and the errors of the adapters.

use vstd::prelude::*;
use serde_json::Value;
use crate::error::LlmClass;
use crate::text;

verus! {

/// Token usage of one call, or of several together.
#[derive(Debug, Clone, Copy, PartialEq, Eq, Structural)]
pub struct TokenUsage {
    pub prompt: u64,
    pub completion: u64,
    pub total: u64,
}

impl TokenUsage {
    /// No tokens at all.
    pub open spec fn none() -> TokenUsage {
        TokenUsage { prompt: 0, completion: 0, total: 0 }
    }

    /// No tokens at all.
    pub fn zero() -> (r: TokenUsage)
        ensures
            r == TokenUsage::none(),
    {
        TokenUsage { prompt: 0, completion: 0, total: 0 }
    }

    /// The sums with another usage fit their 64 bits.
    pub open spec fn fits(self, other: TokenUsage) -> bool {
        &&& self.prompt + other.prompt <= u64::MAX
        &&& self.completion + other.completion <= u64::MAX
        &&& self.total + other.total <= u64::MAX
    }

    /// The two usages together.
    pub open spec fn sum(self, other: TokenUsage) -> TokenUsage {
        TokenUsage {
            prompt: (self.prompt + other.prompt) as u64,
            completion: (self.completion + other.completion) as u64,
            total: (self.total + other.total) as u64,
        }
    }

    /// Whether the sums with another usage fit their 64 bits.
    pub fn can_add(&self, other: &TokenUsage) -> (r: bool)
        ensures
            r == self.fits(*other),
    {
        self.prompt <= u64::MAX - other.prompt && self.completion <= u64::MAX - other.completion
            && self.total <= u64::MAX - other.total
    }

    /// The two usages together.
    pub fn plus(&self, other: &TokenUsage) -> (r: TokenUsage)
        requires
            self.fits(*other),
        ensures
            r == self.sum(*other),
            r.prompt == self.prompt + other.prompt,
            r.completion == self.completion + other.completion,
            r.total == self.total + other.total,
    {
        TokenUsage {
            prompt: self.prompt + other.prompt,
            completion: self.completion + other.completion,
            total: self.total + other.total,
        }
    }
}

impl Default for TokenUsage {
    fn default() -> (r: Self)
        ensures
            r == TokenUsage::none(),
    {
        TokenUsage::zero()
    }
}

/// The usages of a sequence of calls, each sum taken without a bound.
#[verifier::ext_equal]
pub struct UsageTotal {
    pub prompt: nat,
    pub completion: nat,
    pub total: nat,
}

/// The usages of a sequence of calls together.
pub open spec fn usage_total(usages: Seq<TokenUsage>) -> UsageTotal
    decreases usages.len(),
{
    if usages.len() == 0 {
        UsageTotal { prompt: 0, completion: 0, total: 0 }
    } else {
        let before = usage_total(usages.drop_last());
        UsageTotal {
            prompt: before.prompt + usages.last().prompt as nat,
            completion: before.completion + usages.last().completion as nat,
            total: before.total + usages.last().total as nat,
        }
    }
}

/// `u` is exactly the usages of a sequence of calls together.
pub open spec fn totals(u: TokenUsage, usages: Seq<TokenUsage>) -> bool {
    usage_total(usages) == (UsageTotal {
        prompt: u.prompt as nat,
        completion: u.completion as nat,
        total: u.total as nat,
    })
}

/// Adding one more usage to a total gives the total with it.
pub proof fn lemma_totals_push(u: TokenUsage, usages: Seq<TokenUsage>, next: TokenUsage)
    requires
        totals(u, usages),
        u.fits(next),
    ensures
        totals(u.sum(next), usages.push(next)),
{
    assert(usages.push(next).drop_last() =~= usages);
}

/// One call of the language model as the audit log keeps it.
#[derive(Debug, Clone)]
pub struct LlmCallRecord {
    pub timestamp: String,
    pub stage: String,
    pub model: String,
    /// A JSON number.
    pub temperature: Value,
    pub seed: Option<i64>,
    pub prompt: String,
    pub response: String,
    pub usage: TokenUsage,
    pub attempt: u32,
    pub outcome: String,
}

/// Keeps audit records in memory until there is a run folder to write them to.
pub struct VecAuditSink {
    pub records: Vec<LlmCallRecord>,
}

impl VecAuditSink {
    /// A sink without a record.
    pub fn new() -> (r: Self)
        ensures
            r.records@ == Seq::<LlmCallRecord>::empty(),
    {
        VecAuditSink { records: Vec::new() }
    }

    /// Adds a record behind the others.
    pub fn record(&mut self, call: LlmCallRecord)
        ensures
            final(self).records@ == old(self).records@.push(call),
    {
        self.records.push(call);
    }

    /// Hands out all records, in the order in which they came, and keeps none.
    pub fn take(&mut self) -> (r: Vec<LlmCallRecord>)
        ensures
            r@ == old(self).records@,
            final(self).records@ == Seq::<LlmCallRecord>::empty(),
    {
        let mut out: Vec<LlmCallRecord> = Vec::new();
        std::mem::swap(&mut out, &mut self.records);
        out
    }
}

impl Default for VecAuditSink {
    fn default() -> (r: Self)
        ensures
            r.records@ == Seq::<LlmCallRecord>::empty(),
    {
        VecAuditSink::new()
    }
}

/// Who speaks in a chat.
#[derive(Debug, Clone, Copy, PartialEq, Eq, Structural)]
pub enum ChatRole {
    System,
    User,
    Assistant,
}

impl ChatRole {
    /// The name of the role on the wire.
    pub open spec fn wire_name(self) -> Seq<char> {
        match self {
            ChatRole::System => "system"@,
            ChatRole::User => "user"@,
            ChatRole::Assistant => "assistant"@,
        }
    }

    /// The name of the role on the wire.
    pub fn as_str(&self) -> (r: &'static str)
        ensures
            r@ == self.wire_name(),
    {
        match self {
            ChatRole::System => "system",
            ChatRole::User => "user",
            ChatRole::Assistant => "assistant",
        }
    }
}

/// One message of a chat.
#[derive(Debug, Clone, PartialEq, Eq)]
pub struct ChatMessage {
    pub role: ChatRole,
    pub content: String,
}

/// A chat request of any stage.
#[derive(Debug, Clone)]
pub struct LlmRequest {
    /// The stage that asks, for the audit log.
    pub stage: &'static str,
    pub model: String,
    /// A JSON number.
    pub temperature: Value,
    pub seed: Option<i64>,
    pub messages: Vec<ChatMessage>,
    /// Structured-output block, forwarded as it stands.
    pub response_format: Option<Value>,
}

/// What the stages read of a reply.
#[derive(Debug, Clone)]
pub struct LlmResponse {
    pub content: String,
    pub usage: TokenUsage,
    /// The whole body of the reply.
    pub raw: Value,
}

/// A chat of a system message and a user message.
pub open spec fn is_chat(messages: Seq<ChatMessage>, system: Seq<char>, user: Seq<char>) -> bool {
    &&& messages.len() == 2
    &&& messages[0].role == ChatRole::System
    &&& messages[0].content@ == system
    &&& messages[1].role == ChatRole::User
    &&& messages[1].content@ == user
}

/// A chat of a system message and a user message.
pub fn chat(system: &str, user: &str) -> (r: Vec<ChatMessage>)
    ensures
        is_chat(r@, system@, user@),
{
    let mut out: Vec<ChatMessage> = Vec::new();
    out.push(ChatMessage { role: ChatRole::System, content: system.to_string() });
    out.push(ChatMessage { role: ChatRole::User, content: user.to_string() });
    out
}

/// Why a chat request failed.
#[derive(Debug, Clone)]
pub enum LlmError {
    /// Network failure, rate limit or server failure: worth another attempt.
    Transient(String),
    /// The credentials were refused.
    Auth(String),
    /// The prompt is longer than the context window of the model.
    ContextExceeded { model: String, message: String, prompt_tokens: Option<u32> },
    /// Any other refusal, or a reply that cannot be read.
    Other(String),
}

impl LlmError {
    /// The class has the message of the error.
    pub open spec fn class_of(self, c: LlmClass) -> bool {
        match self {
            LlmError::Transient(m) => c matches LlmClass::Transient(n) && n@ == m@,
            LlmError::Auth(m) => c matches LlmClass::Auth(n) && n@ == m@,
            LlmError::ContextExceeded { model, message, prompt_tokens } => c
                matches LlmClass::ContextExceeded(n) && n@ == model@ + ": "@ + message@,
            LlmError::Other(m) => c matches LlmClass::Other(n) && n@ == m@,
        }
    }

    /// The audit tag of the error.
    pub open spec fn tag(self) -> Seq<char> {
        match self {
            LlmError::Transient(_) => "transient"@,
            LlmError::Auth(_) => "auth"@,
            LlmError::ContextExceeded { model, message, prompt_tokens } => "context-exceeded"@,
            LlmError::Other(_) => "other"@,
        }
    }

    /// The message of the error.
    pub open spec fn text(self) -> Seq<char> {
        match self {
            LlmError::Transient(m) => "transient: "@ + m@,
            LlmError::Auth(m) => "auth: "@ + m@,
            LlmError::ContextExceeded { model, message, prompt_tokens } =>
                "context-exceeded (model `"@ + model@ + "`): "@ + message@,
            LlmError::Other(m) => "llm-other: "@ + m@,
        }
    }

    /// The class that the error has for the command line.
    pub fn class(&self) -> (r: LlmClass)
        ensures
            self.class_of(r),
    {
        match self {
            LlmError::Transient(m) => LlmClass::Transient(m.clone()),
            LlmError::Auth(m) => LlmClass::Auth(m.clone()),
            LlmError::ContextExceeded { model, message, prompt_tokens: _ } =>
                LlmClass::ContextExceeded(text::concat3(model.as_str(), ": ", message.as_str())),
            LlmError::Other(m) => LlmClass::Other(m.clone()),
        }
    }

    /// The tag that an audit record has for the error.
    pub fn outcome_tag(&self) -> (r: &'static str)
        ensures
            r@ == self.tag(),
    {
        match self {
            LlmError::Transient(_) => "transient",
            LlmError::Auth(_) => "auth",
            LlmError::ContextExceeded { model: _, message: _, prompt_tokens: _ } =>
                "context-exceeded",
            LlmError::Other(_) => "other",
        }
    }

    /// The message of the error.
    pub fn to_string(&self) -> (r: String)
        ensures
            r@ == self.text(),
    {
        match self {
            LlmError::Transient(m) => text::concat2("transient: ", m.as_str()),
            LlmError::Auth(m) => text::concat2("auth: ", m.as_str()),
            LlmError::ContextExceeded { model, message, prompt_tokens: _ } => {
                let mut out = text::concat3("context-exceeded (model `", model.as_str(), "`): ");
                out.push_str(message.as_str());
                out
            },
            LlmError::Other(m) => text::concat2("llm-other: ", m.as_str()),
        }
    }
}

/// Markdown-to-PDF failures.
#[derive(Debug)]
pub enum PdfError {
    Render(String),
}

impl PdfError {
    /// The message of the error.
    pub open spec fn text(self) -> Seq<char> {
        match self {
            PdfError::Render(m) => "render: "@ + m@,
        }
    }

    /// The message of the error.
    pub fn to_string(&self) -> (r: String)
        ensures
            r@ == self.text(),
    {
        match self {
            PdfError::Render(m) => text::concat2("render: ", m.as_str()),
        }
    }
}

} // verus!
