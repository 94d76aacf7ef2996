//! Attempts at the model: when there is another one, how long it waits, and what is kept
//! of each.

use vstd::prelude::*;
use crate::decode;
use crate::domain::KeywordSet;
use crate::json;
use crate::json::Tree;
use crate::openrouter;
use crate::openrouter::{CompletionStep, OpenRouterClient};
use crate::ports::{LlmCallRecord, LlmError, LlmRequest, LlmResponse, TokenUsage};
use crate::schema;
use crate::stage::keywords;
use crate::stage::keywords::{KeywordExtraction, KeywordStep};
use crate::text;

verus! {

/// A reply that reads as a catalogue ends the extraction; any other is asked for again
/// while there are attempts left, and fails the extraction on the last one. The tokens of
/// every reply count.
pub proof fn extraction_goes_on_while_it_may(
    x: KeywordExtraction,
    response: LlmResponse,
    parsed: Result<KeywordSet, String>,
    timestamp: Seq<char>,
    step: KeywordStep,
)
    requires
        x.wf(),
        x.usage_total.fits(response.usage),
        x.step_after(response, parsed, timestamp, step),
    ensures
        step is Done <==> parsed is Ok,
        step is Retry <==> parsed is Err && x.attempt < x.max_attempts,
        step is Failed <==> parsed is Err && x.attempt == x.max_attempts,
        step matches KeywordStep::Done(outcome) ==> Ok::<KeywordSet, String>(outcome.set) == parsed
            && outcome.markdown@ == keywords::markdown_view(outcome.set)
            && outcome.usage_total.total == x.usage_total.total + response.usage.total
            && outcome.usage_total.prompt == x.usage_total.prompt + response.usage.prompt
            && outcome.usage_total.completion == x.usage_total.completion
            + response.usage.completion,
        step matches KeywordStep::Retry { next, record } ==> next.posting_md@ == x.posting_md@
            && next.attempt == x.attempt + 1 && next.max_attempts == x.max_attempts
            && next.usage_total.total == x.usage_total.total + response.usage.total
            && record.attempt == x.attempt && record.usage == response.usage && record.outcome@
            == "schema-invalid"@ && record.timestamp@ == timestamp,
{
}

/// The message of an extraction that has run out of attempts tells the last reason.
pub proof fn exhausted_extraction_tells_the_reason(max: u32, reason: Seq<char>, content: Seq<char>)
    ensures
        text::occurs(keywords::exhausted_message(max, reason, content), reason),
        content.len() <= 500 ==> text::occurs(
            keywords::exhausted_message(max, reason, content),
            content,
        ),
        text::occurs(keywords::exhausted_message(max, reason, content), text::numeral(max as nat)),
{
    let a = "keyword extraction: "@;
    let n = text::numeral(max as nat);
    let b = " attempts exceeded schema validation (last error: "@;
    let c = "; last response: "@;
    let cut = text::snipped(content, 500);
    lemma_self(n);
    lemma_self(reason);
    lemma_self(cut);
    text::lemma_occurs_behind(a, n, n);
    text::lemma_occurs_in_front(a + n, b, n);
    text::lemma_occurs_in_front(a + n + b, reason, n);
    text::lemma_occurs_in_front(a + n + b + reason, c, n);
    text::lemma_occurs_in_front(a + n + b + reason + c, cut, n);
    text::lemma_occurs_in_front(a + n + b + reason + c + cut, ")"@, n);
    text::lemma_occurs_behind(a + n + b, reason, reason);
    text::lemma_occurs_in_front(a + n + b + reason, c, reason);
    text::lemma_occurs_in_front(a + n + b + reason + c, cut, reason);
    text::lemma_occurs_in_front(a + n + b + reason + c + cut, ")"@, reason);
    text::lemma_occurs_behind(a + n + b + reason + c, cut, cut);
    text::lemma_occurs_in_front(a + n + b + reason + c + cut, ")"@, cut);
}

proof fn lemma_self(s: Seq<char>)
    ensures
        text::occurs(s, s),
{
    assert(s.subrange(0, s.len() as int) =~= s);
    assert(text::stands_at(s, s, 0));
}

/// A catalogue is accepted where its text is JSON, meets the schema of the call, and reads
/// as a catalogue; and nowhere else.
pub proof fn catalogue_passes_three_times(content: Seq<char>, s: Tree)
    requires
        schema::keyword_schema() == Ok::<Tree, Seq<char>>(s),
    ensures
        keywords::content_problem(content) is None <==> {
            &&& json::json_parsed(content) is Ok
            &&& schema::schema_verdict(s, json::json_parsed(content)->Ok_0) matches Ok(None)
            &&& <KeywordSet as decode::Decode>::problem(
                json::json_parsed(content)->Ok_0,
                Seq::empty(),
            ) is None
        },
{
}

/// The record of an attempt tells the stage, the model and its sampling, the messages, and
/// what came of them.
pub proof fn record_tells_the_attempt(
    record: LlmCallRecord,
    q: LlmRequest,
    attempt: u32,
    outcome: Seq<char>,
    response: Seq<char>,
    usage: TokenUsage,
    timestamp: Seq<char>,
)
    requires
        openrouter::is_attempt_record(record, q, attempt, outcome, response, usage, timestamp),
    ensures
        record.stage@ == q.stage@,
        record.model@ == q.model@,
        json::json_tree(record.temperature) == json::json_tree(q.temperature),
        record.seed == q.seed,
        record.prompt@ == json::json_compact(openrouter::messages_tree(q.messages@)),
        record.response@ == response,
        record.usage == usage,
        record.attempt == attempt,
        record.outcome@ == outcome,
        record.timestamp@ == timestamp,
{
}

/// The wait behind an attempt is the entry of its place; the last entry stands for all
/// places beyond, and without entries there is no wait.
pub proof fn waits_follow_the_backoff(backoff: Seq<u64>, i: int)
    requires
        i >= 0,
    ensures
        i < backoff.len() ==> openrouter::backoff_delay(backoff, i) == backoff[i],
        i >= backoff.len() && backoff.len() > 0 ==> openrouter::backoff_delay(backoff, i)
            == backoff[backoff.len() - 1],
        backoff.len() == 0 ==> openrouter::backoff_delay(backoff, i) == 0,
{
}

/// The address of the endpoint loses the slashes at its end, and nothing else.
pub proof fn address_loses_trailing_slashes_alone(s: Seq<char>)
    ensures
        ({
            let r = openrouter::without_trailing_slashes(s);
            &&& r.len() <= s.len()
            &&& r == s.take(r.len() as int)
            &&& r.len() > 0 ==> r.last() != '/'
            &&& forall|i: int| r.len() <= i < s.len() ==> s[i] == '/'
        }),
    decreases s.len(),
{
    if s.len() > 0 && s.last() == '/' {
        let before = s.drop_last();
        address_loses_trailing_slashes_alone(before);
        let r = openrouter::without_trailing_slashes(s);
        assert(before.take(r.len() as int) =~= s.take(r.len() as int));
        assert forall|i: int| r.len() <= i < s.len() implies s[i] == '/' by {
            if i < before.len() {
                assert(s[i] == before[i]);
            }
        }
    } else {
        assert(s.take(s.len() as int) =~= s);
    }
}

/// The record that a step keeps of its attempt.
pub open spec fn record_of(step: CompletionStep) -> LlmCallRecord {
    match step {
        CompletionStep::Done { response, record } => record,
        CompletionStep::Retry { record, next_attempt, delay_ms } => record,
        CompletionStep::Failed { error, record } => record,
    }
}

/// A call goes on after a transient failure alone, and only while there are attempts left:
/// with the next attempt, after the wait of its place. A response and any other failure are
/// handed back as they are. Every attempt leaves a record, with the tokens of a response
/// and with the words of a failure.
pub proof fn call_goes_on_after_transient_failures_alone(
    client: OpenRouterClient,
    q: LlmRequest,
    attempt: u32,
    result: Result<LlmResponse, LlmError>,
    timestamp: Seq<char>,
    step: CompletionStep,
)
    requires
        1 <= attempt <= client.max_attempts,
        client.attempt_leads_to(q, attempt, result, timestamp, step),
    ensures
        step is Done <==> result is Ok,
        step matches CompletionStep::Done { response, record } ==> result == Ok::<
            LlmResponse,
            LlmError,
        >(response),
        step is Retry <==> (result matches Err(LlmError::Transient(_))) && attempt
            < client.max_attempts,
        step matches CompletionStep::Retry { record, next_attempt, delay_ms } ==> next_attempt
            == attempt + 1 && next_attempt <= client.max_attempts && (attempt
            <= client.backoff_ms@.len() ==> delay_ms == client.backoff_ms@[attempt - 1]),
        step matches CompletionStep::Failed { error, record } ==> result == Err::<
            LlmResponse,
            LlmError,
        >(error),
        record_of(step).attempt == attempt,
        record_of(step).stage@ == q.stage@,
        record_of(step).model@ == q.model@,
        record_of(step).timestamp@ == timestamp,
        result matches Ok(response) ==> record_of(step).usage == response.usage && record_of(
            step,
        ).response@ == response.content@ && record_of(step).outcome@ == "ok"@,
        result matches Err(e) ==> record_of(step).usage == (TokenUsage {
            prompt: 0,
            completion: 0,
            total: 0,
        }) && record_of(step).response@ == e.text() && record_of(step).outcome@ == e.tag(),
{
}

} // verus!
