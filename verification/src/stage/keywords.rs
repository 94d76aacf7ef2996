//! Keyword extraction: one catalogue per posting.
//!
//! The model is asked for a JSON document; the document is validated against
//! the keyword schema and read into a [`KeywordSet`]. A document that fails is
//! recorded and asked for again, up to a number of attempts. A failed call ends
//! the stage at once.

use vstd::prelude::*;
use serde_json::Value;
use crate::assets;
use crate::config::ModelStageConfig;
use crate::decode::Decode;
use crate::domain::{
    CertificationKeyword, HardSkill, IndustryTerm, JobTitle, KeywordSet, SoftSkill,
};
use crate::error::AtsError;
use crate::json;
use crate::json::Tree;
use crate::ports;
use crate::ports::{LlmCallRecord, LlmError, LlmRequest, LlmResponse, TokenUsage};
use crate::schema;
use crate::schema::{Violation, ViolationModel};
use crate::stage::ranking;
use crate::text;

verus! {

// ---------------------------------------------------------------------------
// The catalogue as Markdown
// ---------------------------------------------------------------------------

/// A remark behind a score, where there is something to remark.
pub open spec fn remark(label: Seq<char>, value: Seq<char>) -> Seq<char> {
    if text::trimmed(value).len() == 0 {
        Seq::empty()
    } else {
        ", "@ + label + " "@ + text::trimmed(value)
    }
}

/// The start of a bullet: the term and its score.
pub open spec fn bullet_head(term: Seq<char>, score: i32) -> Seq<char> {
    "- "@ + term + " (score "@ + text::signed_numeral(score as int)
}

/// The bullet of a hard skill.
pub open spec fn hard_line(k: HardSkill) -> Seq<char> {
    bullet_head(k.primary_term@, k.importance_score) + remark("cluster"@, k.semantic_cluster@)
        + remark("acronym"@, k.acronym@) + ")\n"@
}

/// The bullet of a soft skill.
pub open spec fn soft_line(k: SoftSkill) -> Seq<char> {
    bullet_head(k.primary_term@, k.importance_score) + remark("cluster"@, k.semantic_cluster@)
        + ")\n"@
}

/// The bullet of an industry term.
pub open spec fn industry_line(k: IndustryTerm) -> Seq<char> {
    bullet_head(k.primary_term@, k.importance_score) + remark("acronym"@, k.acronym@) + ")\n"@
}

/// The bullet of a certification.
pub open spec fn certification_line(k: CertificationKeyword) -> Seq<char> {
    bullet_head(k.primary_term@, k.importance_score) + ")\n"@
}

/// The bullet of a job title.
pub open spec fn title_line(k: JobTitle) -> Seq<char> {
    bullet_head(k.primary_term@, k.importance_score) + ")\n"@
}

/// The lines at the indices of an order, one behind the other.
pub open spec fn picked(lines: Seq<Seq<char>>, order: Seq<int>) -> Seq<char>
    decreases order.len(),
{
    if order.len() == 0 {
        Seq::empty()
    } else {
        picked(lines, order.drop_last()) + lines[order.last()]
    }
}

/// A category: its heading, and its lines by descending score.
pub open spec fn category(heading: Seq<char>, lines: Seq<Seq<char>>, scores: Seq<i32>) -> Seq<
    char,
> {
    "## "@ + heading + "\n"@ + picked(lines, ranking::ranking(scores))
}

/// The category of the hard skills.
pub open spec fn hard_category(items: Seq<HardSkill>) -> Seq<char> {
    category(
        "Hard Skills and Tools"@,
        Seq::new(items.len(), |i: int| hard_line(items[i])),
        Seq::new(items.len(), |i: int| items[i].importance_score),
    )
}

/// The category of the soft skills.
pub open spec fn soft_category(items: Seq<SoftSkill>) -> Seq<char> {
    category(
        "Soft Skills and Competencies"@,
        Seq::new(items.len(), |i: int| soft_line(items[i])),
        Seq::new(items.len(), |i: int| items[i].importance_score),
    )
}

/// The category of the industry terms.
pub open spec fn industry_category(items: Seq<IndustryTerm>) -> Seq<char> {
    category(
        "Industry-Specific Terminology"@,
        Seq::new(items.len(), |i: int| industry_line(items[i])),
        Seq::new(items.len(), |i: int| items[i].importance_score),
    )
}

/// The category of the certifications.
pub open spec fn certification_category(items: Seq<CertificationKeyword>) -> Seq<char> {
    category(
        "Certifications and Credentials"@,
        Seq::new(items.len(), |i: int| certification_line(items[i])),
        Seq::new(items.len(), |i: int| items[i].importance_score),
    )
}

/// The category of the job titles.
pub open spec fn title_category(items: Seq<JobTitle>) -> Seq<char> {
    category(
        "Job Titles and Seniority"@,
        Seq::new(items.len(), |i: int| title_line(items[i])),
        Seq::new(items.len(), |i: int| items[i].importance_score),
    )
}

/// The catalogue as Markdown: the five categories, a blank line apart.
pub open spec fn markdown_view(set: KeywordSet) -> Seq<char> {
    hard_category(set.hard_skills_and_tools@) + "\n"@ + soft_category(
        set.soft_skills_and_competencies@,
    ) + "\n"@ + industry_category(set.industry_specific_terminology@) + "\n"@
        + certification_category(set.certifications_and_credentials@) + "\n"@ + title_category(
        set.job_titles_and_seniority@,
    )
}

fn head_of_bullet(term: &str, score: i32) -> (r: String)
    ensures
        r@ == bullet_head(term@, score),
{
    let mut out = text::concat3("- ", term, " (score ");
    out.push_str(text::signed_decimal(score).as_str());
    out
}

fn push_optional(out: &mut String, label: &str, value: &str)
    ensures
        final(out)@ == old(out)@ + remark(label@, value@),
{
    let trimmed = text::trim(value);
    if trimmed.as_str().is_empty() {
        assert(out@ =~= old(out)@ + remark(label@, value@));
        return;
    }
    out.push_str(", ");
    out.push_str(label);
    out.push_str(" ");
    out.push_str(trimmed.as_str());
    assert(out@ =~= old(out)@ + remark(label@, value@));
}

/// Appends a category: its heading, and its lines by descending score.
fn push_section(out: &mut String, heading: &str, lines: &Vec<String>, scores: &Vec<i32>)
    requires
        lines@.len() == scores@.len(),
    ensures
        final(out)@ == old(out)@ + category(heading@, text::views(lines@), scores@),
{
    out.push_str("## ");
    out.push_str(heading);
    out.push_str("\n");
    let order = ranking::rank(scores);
    let ghost head = out@;
    let ghost all = ranking::indices(order@);
    assert(out@ =~= head + picked(text::views(lines@), all.take(0)));
    for k in 0..order.len()
        invariant
            all == ranking::indices(order@),
            ranking::in_range(all, scores@.len()),
            lines@.len() == scores@.len(),
            out@ == head + picked(text::views(lines@), all.take(k as int)),
    {
        assert(all[k as int] == order@[k as int]);
        out.push_str(lines[order[k]].as_str());
        assert(all.take(k + 1).drop_last() =~= all.take(k as int));
        assert(out@ =~= head + picked(text::views(lines@), all.take(k + 1)));
    }
    assert(all.take(all.len() as int) =~= all);
    assert(out@ =~= old(out)@ + category(heading@, text::views(lines@), scores@));
}

fn push_hard(out: &mut String, items: &Vec<HardSkill>)
    ensures
        final(out)@ == old(out)@ + hard_category(items@),
{
    let mut lines: Vec<String> = Vec::new();
    let mut scores: Vec<i32> = Vec::new();
    for i in 0..items.len()
        invariant
            lines@.len() == i,
            scores@.len() == i,
            forall|k: int| 0 <= k < i ==> (#[trigger] lines@[k])@ == hard_line(items@[k]),
            forall|k: int| 0 <= k < i ==> #[trigger] scores@[k] == items@[k].importance_score,
    {
        let item = &items[i];
        let mut line = head_of_bullet(item.primary_term.as_str(), item.importance_score);
        push_optional(&mut line, "cluster", item.semantic_cluster.as_str());
        push_optional(&mut line, "acronym", item.acronym.as_str());
        line.push_str(")\n");
        lines.push(line);
        scores.push(item.importance_score);
    }
    assert(text::views(lines@) =~= Seq::new(items@.len(), |i: int| hard_line(items@[i])));
    assert(scores@ =~= Seq::new(items@.len(), |i: int| items@[i].importance_score));
    push_section(out, "Hard Skills and Tools", &lines, &scores);
}

fn push_soft(out: &mut String, items: &Vec<SoftSkill>)
    ensures
        final(out)@ == old(out)@ + soft_category(items@),
{
    let mut lines: Vec<String> = Vec::new();
    let mut scores: Vec<i32> = Vec::new();
    for i in 0..items.len()
        invariant
            lines@.len() == i,
            scores@.len() == i,
            forall|k: int| 0 <= k < i ==> (#[trigger] lines@[k])@ == soft_line(items@[k]),
            forall|k: int| 0 <= k < i ==> #[trigger] scores@[k] == items@[k].importance_score,
    {
        let item = &items[i];
        let mut line = head_of_bullet(item.primary_term.as_str(), item.importance_score);
        push_optional(&mut line, "cluster", item.semantic_cluster.as_str());
        line.push_str(")\n");
        lines.push(line);
        scores.push(item.importance_score);
    }
    assert(text::views(lines@) =~= Seq::new(items@.len(), |i: int| soft_line(items@[i])));
    assert(scores@ =~= Seq::new(items@.len(), |i: int| items@[i].importance_score));
    push_section(out, "Soft Skills and Competencies", &lines, &scores);
}

fn push_industry(out: &mut String, items: &Vec<IndustryTerm>)
    ensures
        final(out)@ == old(out)@ + industry_category(items@),
{
    let mut lines: Vec<String> = Vec::new();
    let mut scores: Vec<i32> = Vec::new();
    for i in 0..items.len()
        invariant
            lines@.len() == i,
            scores@.len() == i,
            forall|k: int| 0 <= k < i ==> (#[trigger] lines@[k])@ == industry_line(items@[k]),
            forall|k: int| 0 <= k < i ==> #[trigger] scores@[k] == items@[k].importance_score,
    {
        let item = &items[i];
        let mut line = head_of_bullet(item.primary_term.as_str(), item.importance_score);
        push_optional(&mut line, "acronym", item.acronym.as_str());
        line.push_str(")\n");
        lines.push(line);
        scores.push(item.importance_score);
    }
    assert(text::views(lines@) =~= Seq::new(items@.len(), |i: int| industry_line(items@[i])));
    assert(scores@ =~= Seq::new(items@.len(), |i: int| items@[i].importance_score));
    push_section(out, "Industry-Specific Terminology", &lines, &scores);
}

fn push_certifications(out: &mut String, items: &Vec<CertificationKeyword>)
    ensures
        final(out)@ == old(out)@ + certification_category(items@),
{
    let mut lines: Vec<String> = Vec::new();
    let mut scores: Vec<i32> = Vec::new();
    for i in 0..items.len()
        invariant
            lines@.len() == i,
            scores@.len() == i,
            forall|k: int| 0 <= k < i ==> (#[trigger] lines@[k])@ == certification_line(items@[k]),
            forall|k: int| 0 <= k < i ==> #[trigger] scores@[k] == items@[k].importance_score,
    {
        let item = &items[i];
        let mut line = head_of_bullet(item.primary_term.as_str(), item.importance_score);
        line.push_str(")\n");
        lines.push(line);
        scores.push(item.importance_score);
    }
    assert(text::views(lines@) =~= Seq::new(items@.len(), |i: int| certification_line(items@[i])));
    assert(scores@ =~= Seq::new(items@.len(), |i: int| items@[i].importance_score));
    push_section(out, "Certifications and Credentials", &lines, &scores);
}

fn push_titles(out: &mut String, items: &Vec<JobTitle>)
    ensures
        final(out)@ == old(out)@ + title_category(items@),
{
    let mut lines: Vec<String> = Vec::new();
    let mut scores: Vec<i32> = Vec::new();
    for i in 0..items.len()
        invariant
            lines@.len() == i,
            scores@.len() == i,
            forall|k: int| 0 <= k < i ==> (#[trigger] lines@[k])@ == title_line(items@[k]),
            forall|k: int| 0 <= k < i ==> #[trigger] scores@[k] == items@[k].importance_score,
    {
        let item = &items[i];
        let mut line = head_of_bullet(item.primary_term.as_str(), item.importance_score);
        line.push_str(")\n");
        lines.push(line);
        scores.push(item.importance_score);
    }
    assert(text::views(lines@) =~= Seq::new(items@.len(), |i: int| title_line(items@[i])));
    assert(scores@ =~= Seq::new(items@.len(), |i: int| items@[i].importance_score));
    push_section(out, "Job Titles and Seniority", &lines, &scores);
}

/// The catalogue as Markdown, each category by descending score.
pub fn to_markdown(set: &KeywordSet) -> (r: String)
    ensures
        r@ == markdown_view(*set),
{
    let mut out: String = String::new();
    push_hard(&mut out, &set.hard_skills_and_tools);
    out.push_str("\n");
    push_soft(&mut out, &set.soft_skills_and_competencies);
    out.push_str("\n");
    push_industry(&mut out, &set.industry_specific_terminology);
    out.push_str("\n");
    push_certifications(&mut out, &set.certifications_and_credentials);
    out.push_str("\n");
    push_titles(&mut out, &set.job_titles_and_seniority);
    assert(out@ =~= markdown_view(*set));
    out
}

// ---------------------------------------------------------------------------
// Reading the reply
// ---------------------------------------------------------------------------

/// What is wrong with a value whose verdict is known, where something is.
pub open spec fn verdict_problem(
    t: Tree,
    verdict: Result<Option<ViolationModel>, Seq<char>>,
) -> Option<Seq<char>> {
    match verdict {
        Err(e) => Some("keyword schema: "@ + e),
        Ok(Some(v)) => Some("schema violation: "@ + v.message),
        Ok(None) => match KeywordSet::problem(t, Seq::empty()) {
            Some(p) => Some("deserialise KeywordSet: "@ + p.reason),
            None => None,
        },
    }
}

/// What is wrong with a value, where something is.
pub open spec fn value_problem(t: Tree) -> Option<Seq<char>> {
    match schema::keyword_schema() {
        Err(e) => Some("keyword schema: "@ + e),
        Ok(s) => verdict_problem(t, schema::schema_verdict(s, t)),
    }
}

/// What is wrong with the text of a reply, where something is.
pub open spec fn content_problem(content: Seq<char>) -> Option<Seq<char>> {
    match json::json_parsed(content) {
        Err(e) => Some("content is not valid JSON: "@ + e),
        Ok(t) => value_problem(t),
    }
}

/// The catalogue of a value whose verdict is known.
pub fn read_keywords(value: &Value, verdict: Result<Option<Violation>, String>) -> (r: Result<
    KeywordSet,
    String,
>)
    ensures
        match r {
            Ok(set) => verdict_problem(json::json_tree(*value), schema::verdict_model(verdict))
                is None && KeywordSet::decodes(json::json_tree(*value), set),
            Err(e) => verdict_problem(json::json_tree(*value), schema::verdict_model(verdict))
                == Some(e@),
        },
{
    match verdict {
        Ok(None) => {},
        Ok(Some(v)) => {
            return Err(text::concat2("schema violation: ", v.message.as_str()));
        },
        Err(e) => {
            return Err(text::concat2("keyword schema: ", e.as_str()));
        },
    }
    proof {
        reveal_strlit("");
        assert(""@ =~= Seq::<char>::empty());
    }
    match KeywordSet::decode(value, "") {
        Ok(set) => Ok(set),
        Err(e) => Err(text::concat2("deserialise KeywordSet: ", e.reason.as_str())),
    }
}

/// Validates a value against the keyword schema and reads the catalogue.
pub fn parse_keywords_from_value(value: &Value) -> (r: Result<KeywordSet, String>)
    ensures
        match r {
            Ok(set) => value_problem(json::json_tree(*value)) is None && KeywordSet::decodes(
                json::json_tree(*value),
                set,
            ),
            Err(e) => value_problem(json::json_tree(*value)) == Some(e@),
        },
{
    let keyword_schema = match schema::load_keyword_schema() {
        Ok(s) => s,
        Err(e) => {
            return Err(text::concat2("keyword schema: ", e.as_str()));
        },
    };
    let verdict = schema::first_violation(&keyword_schema, value);
    read_keywords(value, verdict)
}

/// Reads the catalogue out of the text of a reply.
pub fn validate_and_parse(content: &str) -> (r: Result<KeywordSet, String>)
    ensures
        match r {
            Ok(set) => content_problem(content@) is None && KeywordSet::decodes(
                json::json_parsed(content@)->Ok_0,
                set,
            ),
            Err(e) => content_problem(content@) == Some(e@),
        },
{
    let value = match json::parse(content) {
        Ok(v) => v,
        Err(e) => {
            return Err(text::concat2("content is not valid JSON: ", e.as_str()));
        },
    };
    parse_keywords_from_value(&value)
}

// ---------------------------------------------------------------------------
// The stage
// ---------------------------------------------------------------------------

/// Postings with fewer words than this are worth a warning.
pub const LOW_SIGNAL_WORD_THRESHOLD: usize = 200;

/// Whether a posting has too few words to promise a good catalogue.
pub fn is_low_signal(posting_md: &str) -> (r: bool)
    ensures
        r == (text::words(posting_md@).len() < LOW_SIGNAL_WORD_THRESHOLD),
{
    let words = text::split_words(posting_md);
    assert(text::views(words@).len() == words@.len());
    words.len() < LOW_SIGNAL_WORD_THRESHOLD
}

/// What the stage hands on: the catalogue, its Markdown view, and the tokens of
/// all attempts together.
#[derive(Debug, Clone)]
pub struct KeywordExtractionOutcome {
    pub set: KeywordSet,
    pub markdown: String,
    pub usage_total: TokenUsage,
}

/// An extraction that waits for the reply to its current attempt.
pub struct KeywordExtraction {
    pub posting_md: String,
    pub model: ModelStageConfig,
    pub response_format: Value,
    pub max_attempts: u32,
    /// The current attempt, counted from one.
    pub attempt: u32,
    /// The tokens of the attempts before the current one.
    pub usage_total: TokenUsage,
}

/// What comes after a reply.
pub enum KeywordStep {
    /// The catalogue is there.
    Done(KeywordExtractionOutcome),
    /// The reply did not hold a catalogue: record it, and ask again.
    Retry { next: KeywordExtraction, record: LlmCallRecord },
    /// The stage has failed. A reply without a catalogue is still to be recorded.
    Failed { error: AtsError, record: Option<LlmCallRecord> },
}

/// The record of a reply that did not hold a catalogue.
pub open spec fn is_invalid_record(
    record: LlmCallRecord,
    state: KeywordExtraction,
    response: LlmResponse,
    reason: Seq<char>,
    timestamp: Seq<char>,
) -> bool {
    &&& record.timestamp@ == timestamp
    &&& record.stage@ == "keywords"@
    &&& record.model@ == state.model.name@
    &&& json::json_tree(record.temperature) == json::json_tree(state.model.temperature)
    &&& record.seed == Some(state.model.seed)
    &&& record.prompt@ == text::snipped(state.posting_md@, 2_000)
    &&& record.response@ == "[schema-invalid: "@ + reason + "] "@ + text::snipped(
        response.content@,
        4_000,
    )
    &&& record.usage == response.usage
    &&& record.attempt == state.attempt
    &&& record.outcome@ == "schema-invalid"@
}

/// The message of an extraction that is out of attempts.
pub open spec fn exhausted_message(
    max_attempts: u32,
    reason: Seq<char>,
    content: Seq<char>,
) -> Seq<char> {
    "keyword extraction: "@ + text::numeral(max_attempts as nat)
        + " attempts exceeded schema validation (last error: "@ + reason + "; last response: "@
        + text::snipped(content, 500) + ")"@
}

impl KeywordExtraction {
    /// The current attempt is one of those allowed.
    pub open spec fn wf(self) -> bool {
        1 <= self.attempt <= self.max_attempts
    }

    /// `next` is this extraction at its next attempt, after a reply that cost
    /// `usage`.
    pub open spec fn followed_by(self, next: KeywordExtraction, usage: TokenUsage) -> bool {
        &&& next.posting_md == self.posting_md
        &&& next.model == self.model
        &&& next.response_format == self.response_format
        &&& next.max_attempts == self.max_attempts
        &&& self.attempt < self.max_attempts
        &&& next.attempt == self.attempt + 1
        &&& self.usage_total.fits(usage)
        &&& next.usage_total == self.usage_total.sum(usage)
    }

    /// The step after a reply, given what reading the reply came to.
    pub open spec fn step_after(
        self,
        response: LlmResponse,
        parsed: Result<KeywordSet, String>,
        timestamp: Seq<char>,
        step: KeywordStep,
    ) -> bool {
        match parsed {
            Ok(set) => step matches KeywordStep::Done(outcome) && {
                &&& outcome.set == set
                &&& outcome.markdown@ == markdown_view(set)
                &&& outcome.usage_total == self.usage_total.sum(response.usage)
            },
            Err(reason) => if self.attempt < self.max_attempts {
                step matches KeywordStep::Retry { next, record } && {
                    &&& self.followed_by(next, response.usage)
                    &&& is_invalid_record(record, self, response, reason@, timestamp)
                }
            } else {
                step matches KeywordStep::Failed { error, record } && {
                    &&& error matches AtsError::SchemaInvalid(m) && m@ == exhausted_message(
                        self.max_attempts,
                        reason@,
                        response.content@,
                    )
                    &&& record matches Some(rec) && is_invalid_record(
                        rec,
                        self,
                        response,
                        reason@,
                        timestamp,
                    )
                }
            },
        }
    }

    /// Begins an extraction. At least one attempt has to be allowed.
    pub fn start(posting_md: &str, model: &ModelStageConfig, schema_max_attempts: u32) -> (r: Result<
        KeywordExtraction,
        AtsError,
    >)
        ensures
            r is Ok <==> schema_max_attempts >= 1 && schema::keyword_format() is Ok,
            r matches Ok(s) ==> {
                &&& s.wf()
                &&& s.posting_md@ == posting_md@
                &&& model.same(s.model)
                &&& schema::keyword_format() == Ok::<Tree, Seq<char>>(
                    json::json_tree(s.response_format),
                )
                &&& s.max_attempts == schema_max_attempts
                &&& s.attempt == 1
                &&& s.usage_total == TokenUsage::none()
            },
            schema_max_attempts == 0 ==> (r matches Err(AtsError::Other(m)) && m@
                == "schema_validation_max_attempts must be >= 1"@),
            schema_max_attempts > 0 ==> (r matches Err(e) ==> (e matches AtsError::Other(m)
                && schema::keyword_format() matches Err(cause) && m@ == "keyword schema: "@
                + cause)),
    {
        if schema_max_attempts == 0 {
            return Err(
                AtsError::Other("schema_validation_max_attempts must be >= 1".to_string()),
            );
        }
        let response_format = match schema::keyword_response_format() {
            Ok(v) => v,
            Err(e) => {
                return Err(AtsError::Other(text::concat2("keyword schema: ", e.as_str())));
            },
        };
        Ok(
            KeywordExtraction {
                posting_md: posting_md.to_string(),
                model: model.copied(),
                response_format,
                max_attempts: schema_max_attempts,
                attempt: 1,
                usage_total: TokenUsage::zero(),
            },
        )
    }

    /// `r` is the request of this extraction.
    pub open spec fn is_request(self, r: LlmRequest) -> bool {
        &&& r.stage@ == "keywords"@
        &&& r.model@ == self.model.name@
        &&& json::json_tree(r.temperature) == json::json_tree(self.model.temperature)
        &&& r.seed == Some(self.model.seed)
        &&& ports::is_chat(r.messages@, assets::PROMPT_KEYWORD_EXTRACTION@, self.posting_md@)
        &&& r.response_format matches Some(f) && json::json_tree(f) == json::json_tree(
            self.response_format,
        )
    }

    /// The request of the current attempt; it is the same in every attempt.
    pub fn request(&self) -> (r: LlmRequest)
        ensures
            self.is_request(r),
    {
        LlmRequest {
            stage: "keywords",
            model: self.model.name.clone(),
            temperature: self.model.temperature.clone(),
            seed: Some(self.model.seed),
            messages: ports::chat(assets::PROMPT_KEYWORD_EXTRACTION, self.posting_md.as_str()),
            response_format: Some(self.response_format.clone()),
        }
    }

    fn invalid_record(&self, response: &LlmResponse, reason: &str, timestamp: String) -> (r:
        LlmCallRecord)
        ensures
            is_invalid_record(r, *self, *response, reason@, timestamp@),
    {
        let mut body = text::concat3("[schema-invalid: ", reason, "] ");
        body.push_str(text::snippet(response.content.as_str(), 4_000).as_str());
        LlmCallRecord {
            timestamp,
            stage: "keywords".to_string(),
            model: self.model.name.clone(),
            temperature: self.model.temperature.clone(),
            seed: Some(self.model.seed),
            prompt: text::snippet(self.posting_md.as_str(), 2_000),
            response: body,
            usage: response.usage,
            attempt: self.attempt,
            outcome: "schema-invalid".to_string(),
        }
    }

    /// The step after a reply, given what reading the reply came to.
    pub fn on_parsed(
        self,
        response: LlmResponse,
        parsed: Result<KeywordSet, String>,
        timestamp: String,
    ) -> (r: KeywordStep)
        requires
            self.wf(),
            self.usage_total.fits(response.usage),
        ensures
            self.step_after(response, parsed, timestamp@, r),
    {
        let usage_total = self.usage_total.plus(&response.usage);
        match parsed {
            Ok(set) => {
                let markdown = to_markdown(&set);
                KeywordStep::Done(KeywordExtractionOutcome { set, markdown, usage_total })
            },
            Err(reason) => {
                let record = self.invalid_record(&response, reason.as_str(), timestamp);
                if self.attempt < self.max_attempts {
                    let next = KeywordExtraction {
                        posting_md: self.posting_md,
                        model: self.model,
                        response_format: self.response_format,
                        max_attempts: self.max_attempts,
                        attempt: self.attempt + 1,
                        usage_total,
                    };
                    KeywordStep::Retry { next, record }
                } else {
                    let mut message = text::concat3(
                        "keyword extraction: ",
                        text::decimal(self.max_attempts as u64).as_str(),
                        " attempts exceeded schema validation (last error: ",
                    );
                    message.push_str(reason.as_str());
                    message.push_str("; last response: ");
                    message.push_str(text::snippet(response.content.as_str(), 500).as_str());
                    message.push_str(")");
                    KeywordStep::Failed {
                        error: AtsError::SchemaInvalid(message),
                        record: Some(record),
                    }
                }
            },
        }
    }

    /// The step after the reply to the current attempt, or after its failure.
    /// `timestamp` is the time that a record is given.
    pub fn on_reply(self, reply: Result<LlmResponse, LlmError>, timestamp: String) -> (r:
        KeywordStep)
        requires
            self.wf(),
            reply matches Ok(response) ==> self.usage_total.fits(response.usage),
        ensures
            match reply {
                Err(e) => r matches KeywordStep::Failed { error, record } && {
                    &&& error matches AtsError::Llm(c) && e.class_of(c)
                    &&& record is None
                },
                Ok(response) => exists|parsed: Result<KeywordSet, String>|
                    {
                        &&& #[trigger] self.step_after(response, parsed, timestamp@, r)
                        &&& reads_as(response.content@, parsed)
                    },
            },
    {
        match reply {
            Err(e) => KeywordStep::Failed { error: AtsError::Llm(e.class()), record: None },
            Ok(response) => {
                let parsed = validate_and_parse(response.content.as_str());
                let ghost outcome = parsed;
                let step = self.on_parsed(response, parsed, timestamp);
                assert(self.step_after(response, outcome, timestamp@, step));
                step
            },
        }
    }
}

/// Reading the text of a reply comes to `parsed`.
pub open spec fn reads_as(content: Seq<char>, parsed: Result<KeywordSet, String>) -> bool {
    match parsed {
        Ok(set) => content_problem(content) is None && KeywordSet::decodes(
            json::json_parsed(content)->Ok_0,
            set,
        ),
        Err(reason) => content_problem(content) == Some(reason@),
    }
}

// ---------------------------------------------------------------------------
// Laws
// ---------------------------------------------------------------------------

/// A sequence of states in which each follows the one before, after a reply with
/// the usage at the same place.
pub open spec fn is_run(states: Seq<KeywordExtraction>, usages: Seq<TokenUsage>) -> bool {
    &&& states.len() == usages.len() + 1
    &&& states[0].attempt == 1
    &&& states[0].usage_total == TokenUsage::none()
    &&& forall|i: int|
        0 <= i < usages.len() ==> (#[trigger] states[i]).followed_by(states[i + 1], usages[i])
}

/// However a run of an extraction goes, the attempt of a state is one more than
/// the number of replies so far, never more than the attempts allowed, and its
/// usage is exactly that of the replies so far, of which every one is counted.
pub proof fn run_counts_attempts_and_tokens(
    states: Seq<KeywordExtraction>,
    usages: Seq<TokenUsage>,
)
    requires
        is_run(states, usages),
        states[0].wf(),
    ensures
        states.last().attempt == usages.len() + 1,
        states.last().attempt <= states[0].max_attempts,
        ports::totals(states.last().usage_total, usages),
    decreases usages.len(),
{
    if usages.len() > 0 {
        let n = usages.len() - 1;
        let earlier = states.drop_last();
        let paid = usages.drop_last();
        assert forall|i: int| 0 <= i < paid.len() implies (#[trigger] earlier[i]).followed_by(
            earlier[i + 1],
            paid[i],
        ) by {
            assert(states[i].followed_by(states[i + 1], usages[i]));
        }
        run_counts_attempts_and_tokens(earlier, paid);
        assert(states[n].followed_by(states[n + 1], usages[n]));
        assert(earlier.last() == states[n]);
        ports::lemma_totals_push(states[n].usage_total, paid, usages[n]);
        assert(paid.push(usages[n]) =~= usages);
        lemma_max_is_kept(states, usages, n);
    }
}

proof fn lemma_max_is_kept(states: Seq<KeywordExtraction>, usages: Seq<TokenUsage>, k: int)
    requires
        is_run(states, usages),
        0 <= k < states.len(),
    ensures
        states[k].max_attempts == states[0].max_attempts,
    decreases k,
{
    if k > 0 {
        lemma_max_is_kept(states, usages, k - 1);
        assert(states[k - 1].followed_by(states[k], usages[k - 1]));
    }
}

/// The view of a catalogue ends with exactly one newline.
pub proof fn markdown_ends_with_one_newline(set: KeywordSet)
    ensures
        markdown_view(set).len() >= 2,
        markdown_view(set).last() == '\n',
        markdown_view(set)[markdown_view(set).len() - 2] != '\n',
{
    reveal_strlit("## ");
    reveal_strlit("Job Titles and Seniority");
    reveal_strlit("\n");
    reveal_strlit(")\n");
    let items = set.job_titles_and_seniority@;
    let lines = Seq::new(items.len(), |i: int| title_line(items[i]));
    let scores = Seq::new(items.len(), |i: int| items[i].importance_score);
    let order = ranking::ranking(scores);
    ranking::ranking_is_a_stable_descending_sort(scores);
    let last = title_category(items);
    let head = "## "@ + "Job Titles and Seniority"@ + "\n"@;
    assert(last == head + picked(lines, order));
    if order.len() == 0 {
        assert(last =~= head);
        assert(last.last() == '\n' && last[last.len() - 2] == 'y');
    } else {
        let before = picked(lines, order.drop_last());
        let line = lines[order.last()];
        assert(order.last() == order[order.len() - 1]);
        assert(line == title_line(items[order.last()]));
        let start = bullet_head(
            items[order.last()].primary_term@,
            items[order.last()].importance_score,
        );
        assert(line == start + ")\n"@);
        assert(line.last() == '\n' && line[line.len() - 2] == ')');
        assert(last =~= (head + before) + line);
    }
    let all = markdown_view(set);
    assert(all.last() == last.last());
    assert(all[all.len() - 2] == last[last.len() - 2]);
}

} // verus!
