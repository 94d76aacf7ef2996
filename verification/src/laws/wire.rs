//! What goes over the wire and into `run.json`: requests say what they ask, replies are
//! read for what they say, and failures are told apart.

use vstd::prelude::*;
use crate::audit;
use crate::audit::RunFolder;
use crate::config;
use crate::config::ModelStageConfig;
use crate::json;
use crate::json::Tree;
use crate::openrouter;
use crate::ports::{ChatRole, LlmError, LlmRequest, LlmResponse, TokenUsage};
use crate::text;

verus! {

/// A name of a member that differs from another one.
proof fn lemma_names_of_a_body()
    ensures
        "model"@ != "temperature"@,
        "model"@ != "messages"@,
        "model"@ != "seed"@,
        "model"@ != "response_format"@,
        "temperature"@ != "messages"@,
        "temperature"@ != "seed"@,
        "temperature"@ != "response_format"@,
        "messages"@ != "seed"@,
        "messages"@ != "response_format"@,
        "seed"@ != "response_format"@,
        "role"@ != "content"@,
{
    reveal_strlit("model");
    reveal_strlit("temperature");
    reveal_strlit("messages");
    reveal_strlit("seed");
    reveal_strlit("response_format");
    reveal_strlit("role");
    reveal_strlit("content");
    assert("model"@.len() == 5);
    assert("temperature"@.len() == 11);
    assert("messages"@.len() == 8);
    assert("seed"@.len() == 4);
    assert("response_format"@.len() == 15);
    assert("role"@.len() == 4);
    assert("content"@.len() == 7);
}

/// The name of a role on the wire.
pub open spec fn role_name(role: ChatRole) -> Seq<char> {
    match role {
        ChatRole::System => "system"@,
        ChatRole::User => "user"@,
        ChatRole::Assistant => "assistant"@,
    }
}

/// The body of a request names the model and its temperature, and holds every message in
/// order, with its role and its text. Seed and structured-output block are in it where the
/// request has them, and nowhere else.
pub proof fn body_says_what_is_asked(q: LlmRequest)
    ensures
        openrouter::body_tree(q) matches Tree::Object(m) && {
            &&& m["model"@] == Tree::Text(q.model@) && m.dom().contains("model"@)
            &&& m["temperature"@] == json::json_tree(q.temperature) && m.dom().contains(
                "temperature"@,
            )
            &&& m.dom().contains("messages"@) && (m["messages"@] matches Tree::List(items) && {
                &&& items.len() == q.messages@.len()
                &&& forall|i: int|
                    0 <= i < items.len() ==> (#[trigger] items[i] matches Tree::Object(o) && {
                        &&& o.dom().contains("role"@) && o["role"@] == Tree::Text(
                            role_name(q.messages@[i].role),
                        )
                        &&& o.dom().contains("content"@) && o["content"@] == Tree::Text(
                            q.messages@[i].content@,
                        )
                    })
            })
            &&& m.dom().contains("seed"@) <==> q.seed is Some
            &&& q.seed matches Some(n) ==> m["seed"@] == Tree::Int(n as int)
            &&& m.dom().contains("response_format"@) <==> q.response_format is Some
            &&& q.response_format matches Some(f) ==> m["response_format"@] == json::json_tree(f)
        },
{
    lemma_names_of_a_body();
}

/// A reply whose first choice has a message with a content reads as that content, with the
/// counts that its usage states; a total that is not stated is the sum of the others.
pub proof fn reply_is_read_for_its_first_choice(
    body: Map<Seq<char>, Tree>,
    choices: Seq<Tree>,
    choice: Map<Seq<char>, Tree>,
    message: Map<Seq<char>, Tree>,
    content: Seq<char>,
    usage: Map<Seq<char>, Tree>,
    prompt: u64,
    completion: u64,
    total: u64,
)
    requires
        body.dom().contains("choices"@),
        body["choices"@] == Tree::List(choices),
        choices.len() > 0,
        choices[0] == Tree::Object(choice),
        choice.dom().contains("message"@),
        choice["message"@] == Tree::Object(message),
        message.dom().contains("content"@),
        message["content"@] == Tree::Text(content),
        body.dom().contains("usage"@),
        body["usage"@] == Tree::Object(usage),
        usage.dom().contains("prompt_tokens"@),
        usage["prompt_tokens"@] == Tree::Int(prompt as int),
        usage.dom().contains("completion_tokens"@),
        usage["completion_tokens"@] == Tree::Int(completion as int),
    ensures
        openrouter::reply_content(Tree::Object(body)) == Some(content),
        openrouter::reply_usage(Tree::Object(body)).prompt == prompt,
        openrouter::reply_usage(Tree::Object(body)).completion == completion,
        usage.dom().contains("total_tokens"@) && usage["total_tokens"@] == Tree::Int(total as int)
            ==> openrouter::reply_usage(Tree::Object(body)).total == total,
        !usage.dom().contains("total_tokens"@) && prompt + completion <= u64::MAX ==>
            openrouter::reply_usage(Tree::Object(body)).total == prompt + completion,
{
}

/// A status is read for what it means: success is the range of two hundred, rate limits and
/// server failures are transient, refused credentials are told apart, and everything else is
/// for good. Where the body is quoted, it is quoted from its start.
pub proof fn statuses_are_told_apart(
    status: u16,
    body: Seq<char>,
    model: Seq<char>,
    r: Result<LlmResponse, LlmError>,
)
    requires
        100 <= status <= 999,
        openrouter::is_reading(status, body, model, r),
    ensures
        r is Ok ==> 200 <= status < 300,
        (r matches Err(LlmError::Transient(_))) <==> (status == 429 || 500 <= status < 600),
        (r matches Err(LlmError::Auth(_))) <==> (status == 401 || status == 403),
        (r matches Err(LlmError::ContextExceeded { model: n, message, prompt_tokens }))
            ==> status == 400,
        r matches Err(LlmError::ContextExceeded { model: n, message, prompt_tokens }) ==> n@
            == model,
        200 <= status < 300 && r is Err ==> r matches Err(LlmError::Other(_)),
{
}

/// The message of a model failure.
pub open spec fn said(e: LlmError) -> Seq<char> {
    match e {
        LlmError::Transient(m) => m@,
        LlmError::Auth(m) => m@,
        LlmError::ContextExceeded { model, message, prompt_tokens } => message@,
        LlmError::Other(m) => m@,
    }
}

/// A refusal quotes the body of the reply, up to five hundred characters of it, unless the
/// server itself has failed. A refused request is told as too long where the body says so.
pub proof fn refusals_quote_the_body(
    status: u16,
    body: Seq<char>,
    model: Seq<char>,
    e: LlmError,
)
    requires
        100 <= status <= 999,
        !(200 <= status < 300),
        openrouter::is_reading(status, body, model, Err(e)),
    ensures
        !(500 <= status < 600) ==> text::occurs(said(e), text::snipped(body, 500)),
        !(e is ContextExceeded) ==> text::occurs(said(e), text::numeral(status as nat)),
        e is ContextExceeded <==> status == 400 && {
            ||| text::occurs(body, "context_length_exceeded"@)
            ||| text::occurs(text::ascii_lowercase(body), "context length"@)
            ||| text::occurs(text::ascii_lowercase(body), "maximum context"@)
            ||| text::occurs(text::ascii_lowercase(body), "context window"@)
        },
{
    let cut = text::snipped(body, 500);
    let n = text::numeral(status as nat);
    let st = openrouter::status_text(status);
    let reason = openrouter::status_reason(status);
    lemma_self(cut);
    lemma_self(n);
    text::lemma_occurs_in_front(n, " "@, n);
    text::lemma_occurs_in_front(n + " "@, reason, n);
    text::lemma_occurs_behind("rate limited ("@, st, n);
    text::lemma_occurs_in_front("rate limited ("@ + st, "): "@, n);
    text::lemma_occurs_in_front("rate limited ("@ + st + "): "@, cut, n);
    text::lemma_occurs_behind("rate limited ("@ + st + "): "@, cut, cut);
    text::lemma_occurs_behind("server error "@, st, n);
    text::lemma_occurs_in_front(st, ": "@, n);
    text::lemma_occurs_in_front(st + ": "@, cut, n);
    text::lemma_occurs_behind(st + ": "@, cut, cut);
}

proof fn lemma_self(s: Seq<char>)
    ensures
        text::occurs(s, s),
{
    assert(s.subrange(0, s.len() as int) =~= s);
    assert(text::stands_at(s, s, 0));
}

/// Two counts are added modulo two to the sixty-fourth.
pub proof fn missing_total_is_a_sum(a: u64, b: u64)
    ensures
        openrouter::wrapped_sum(a, b) as int == (a as int + b as int) % 0x1_0000_0000_0000_0000int,
{
}

// ---------------------------------------------------------------------------
// run.json
// ---------------------------------------------------------------------------

proof fn lemma_names_of_a_record()
    ensures
        "started_at"@ != "finished_at"@,
        "started_at"@ != "command"@,
        "started_at"@ != "slug"@,
        "started_at"@ != "args_summary"@,
        "started_at"@ != "outcome"@,
        "started_at"@ != "exit_code"@,
        "started_at"@ != "config_snapshot"@,
        "started_at"@ != "token_usage_total"@,
        "finished_at"@ != "command"@,
        "finished_at"@ != "slug"@,
        "finished_at"@ != "args_summary"@,
        "finished_at"@ != "outcome"@,
        "finished_at"@ != "exit_code"@,
        "finished_at"@ != "config_snapshot"@,
        "finished_at"@ != "token_usage_total"@,
        "command"@ != "slug"@,
        "command"@ != "args_summary"@,
        "command"@ != "outcome"@,
        "command"@ != "exit_code"@,
        "command"@ != "config_snapshot"@,
        "command"@ != "token_usage_total"@,
        "slug"@ != "args_summary"@,
        "slug"@ != "outcome"@,
        "slug"@ != "exit_code"@,
        "slug"@ != "config_snapshot"@,
        "slug"@ != "token_usage_total"@,
        "args_summary"@ != "outcome"@,
        "args_summary"@ != "exit_code"@,
        "args_summary"@ != "config_snapshot"@,
        "args_summary"@ != "token_usage_total"@,
        "outcome"@ != "exit_code"@,
        "outcome"@ != "config_snapshot"@,
        "outcome"@ != "token_usage_total"@,
        "exit_code"@ != "config_snapshot"@,
        "exit_code"@ != "token_usage_total"@,
        "config_snapshot"@ != "token_usage_total"@,
{
    reveal_strlit("started_at");
    reveal_strlit("finished_at");
    reveal_strlit("command");
    reveal_strlit("slug");
    reveal_strlit("args_summary");
    reveal_strlit("outcome");
    reveal_strlit("exit_code");
    reveal_strlit("config_snapshot");
    reveal_strlit("token_usage_total");
    assert("started_at"@.len() == 10);
    assert("finished_at"@.len() == 11);
    assert("command"@.len() == 7 && "command"@[0] == 'c');
    assert("slug"@.len() == 4);
    assert("args_summary"@.len() == 12);
    assert("outcome"@.len() == 7 && "outcome"@[0] == 'o');
    assert("exit_code"@.len() == 9);
    assert("config_snapshot"@.len() == 15);
    assert("token_usage_total"@.len() == 17);
}

/// `run.json` tells when the run started and finished, its command, its slug where it has
/// one, its outcome and exit code, what it was called with, and the tokens it has spent.
pub proof fn record_tells_the_run(
    run: RunFolder,
    started: Seq<char>,
    finished: Seq<char>,
    outcome: Seq<char>,
    exit_code: i32,
)
    ensures
        ({
            let m = run.base_members(started, finished, outcome, exit_code);
            &&& m.dom().contains("started_at"@) && m["started_at"@] == Tree::Text(started)
            &&& m.dom().contains("finished_at"@) && m["finished_at"@] == Tree::Text(finished)
            &&& m.dom().contains("command"@) && m["command"@] == Tree::Text(run.command@)
            &&& m.dom().contains("slug"@) <==> run.slug is Some
            &&& run.slug matches Some(s) ==> m["slug"@] == Tree::Text(s@)
            &&& m.dom().contains("args_summary"@) && m["args_summary"@] == json::json_tree(
                run.args_summary,
            )
            &&& m.dom().contains("outcome"@) && m["outcome"@] == Tree::Text(outcome)
            &&& m.dom().contains("exit_code"@) && m["exit_code"@] == Tree::Int(exit_code as int)
            &&& m.dom().contains("config_snapshot"@) && m["config_snapshot"@] == json::json_tree(
                run.config_snapshot,
            )
            &&& m.dom().contains("token_usage_total"@) && m["token_usage_total"@]
                == audit::usage_tree(run.token_usage_total)
        }),
{
    lemma_names_of_a_record();
}

/// Token usage on record states the three counts.
pub proof fn usage_on_record_states_its_counts(u: TokenUsage)
    ensures
        audit::usage_tree(u) matches Tree::Object(m) && {
            &&& m.dom().contains("prompt"@) && m["prompt"@] == Tree::Int(u.prompt as int)
            &&& m.dom().contains("completion"@) && m["completion"@] == Tree::Int(
                u.completion as int,
            )
            &&& m.dom().contains("total"@) && m["total"@] == Tree::Int(u.total as int)
        },
{
    reveal_strlit("prompt");
    reveal_strlit("completion");
    reveal_strlit("total");
    assert("prompt"@.len() == 6 && "completion"@.len() == 10 && "total"@.len() == 5);
}

/// A model on record states its name, its temperature and its seed.
pub proof fn model_on_record_states_its_sampling(m: ModelStageConfig)
    ensures
        config::model_tree(m) matches Tree::Object(o) && {
            &&& o.dom().contains("name"@) && o["name"@] == Tree::Text(m.name@)
            &&& o.dom().contains("temperature"@) && o["temperature"@] == json::json_tree(
                m.temperature,
            )
            &&& o.dom().contains("seed"@) && o["seed"@] == Tree::Int(m.seed as int)
        },
{
    reveal_strlit("name");
    reveal_strlit("temperature");
    reveal_strlit("seed");
    assert("name"@.len() == 4 && "temperature"@.len() == 11 && "seed"@.len() == 4);
    assert("name"@[0] == 'n' && "seed"@[0] == 's');
}

} // verus!
