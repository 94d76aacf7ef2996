//! Scraping: the rendered page becomes a job posting with one call.
//!
//! There is no second attempt: a reply that cannot be read fails the stage.

use vstd::prelude::*;
use serde_json::Value;
use crate::assets;
use crate::config::ModelStageConfig;
use crate::decode;
use crate::decode::{Decode, DecodeError, Problem};
use crate::domain::JobPosting;
use crate::error::{AtsError, ScrapeClass};
use crate::json;
use crate::json::Tree;
use crate::ports;
use crate::ports::{LlmError, LlmRequest, LlmResponse, TokenUsage};
use crate::schema;
use crate::scrape_port::ScrapeError;
use crate::text;

verus! {

/// The posting, and the tokens of the call.
#[derive(Debug, Clone)]
pub struct ScrapeStageOutcome {
    pub posting: JobPosting,
    pub usage: TokenUsage,
}

/// How long the page may take to settle, and the model that reads it.
#[derive(Debug, Clone)]
pub struct ScrapeStageConfig {
    pub idle_timeout_ms: u64,
    pub model: ModelStageConfig,
}

/// The failure of a page that could not be fetched.
pub fn scrape_error_to_ats(err: ScrapeError) -> (r: AtsError)
    ensures
        r == page_error(err),
{
    AtsError::Scrape(ScrapeClass::from(err))
}

/// `q` is the request that turns a page into a posting.
pub open spec fn is_request(html: Seq<char>, model: ModelStageConfig, q: LlmRequest) -> bool {
    &&& q.stage@ == "scrape"@
    &&& q.model@ == model.name@
    &&& json::json_tree(q.temperature) == json::json_tree(model.temperature)
    &&& q.seed == Some(model.seed)
    &&& ports::is_chat(q.messages@, assets::PROMPT_SCRAPE_TO_MARKDOWN@, html)
    &&& q.response_format matches Some(f) && schema::scrape_format() == Ok::<Tree, Seq<char>>(
        json::json_tree(f),
    )
}

/// The request for a page, or the error of a structured-output block that does
/// not parse.
pub open spec fn is_request_or_error(
    html: Seq<char>,
    model: ModelStageConfig,
    r: Result<LlmRequest, AtsError>,
) -> bool {
    match schema::scrape_format() {
        Ok(_) => r matches Ok(q) && is_request(html, model, q),
        Err(cause) => r matches Err(AtsError::Other(m)) && m@ == "posting schema: "@ + cause,
    }
}

/// The request that turns a page into a posting.
pub fn request(html: &str, model: &ModelStageConfig) -> (r: Result<LlmRequest, AtsError>)
    ensures
        is_request_or_error(html@, *model, r),
{
    let format = match schema::scrape_response_format() {
        Ok(v) => v,
        Err(e) => {
            return Err(AtsError::Other(text::concat2("posting schema: ", e.as_str())));
        },
    };
    Ok(
        LlmRequest {
            stage: "scrape",
            model: model.name.clone(),
            temperature: model.temperature.clone(),
            seed: Some(model.seed),
            messages: ports::chat(assets::PROMPT_SCRAPE_TO_MARKDOWN, html),
            response_format: Some(format),
        },
    )
}

/// The error for a page that could not be fetched.
pub open spec fn page_error(e: ScrapeError) -> AtsError {
    AtsError::Scrape(e.class_spec())
}

/// The request that follows the fetched page, or the failure to fetch it.
pub fn on_page(page: Result<String, ScrapeError>, model: &ModelStageConfig) -> (r: Result<
    LlmRequest,
    AtsError,
>)
    ensures
        match page {
            Err(e) => r == Err::<LlmRequest, AtsError>(page_error(e)),
            Ok(html) => is_request_or_error(html@, *model, r),
        },
{
    match page {
        Err(e) => Err(scrape_error_to_ats(e)),
        Ok(html) => request(html.as_str(), model),
    }
}

/// A posting is an object with its title and its body, or a list of the two. The
/// title of an object may be missing.
impl Decode for JobPosting {
    open spec fn problem(t: Tree, path: Seq<char>) -> Option<Problem> {
        match t {
            Tree::Object(m) => decode::first_of(
                seq![
                    decode::field_problem::<String>(m, "markdown"@, path),
                    decode::field_problem::<String>(m, "title"@, path),
                    decode::missing_problem(m, "markdown"@, path),
                ],
            ),
            Tree::List(items) => if items.len() == 2 {
                decode::elements_problem::<String>(items, path, 0)
            } else {
                decode::object_problem(t, path)
            },
            _ => decode::object_problem(t, path),
        }
    }

    open spec fn decodes(t: Tree, x: Self) -> bool {
        match t {
            Tree::Object(m) => {
                &&& decode::field_decodes::<String>(m, "markdown"@, x.markdown)
                &&& if m.dom().contains("title"@) {
                    decode::field_decodes::<String>(m, "title"@, x.title)
                } else {
                    x.title@ == Seq::<char>::empty()
                }
            },
            Tree::List(items) => {
                &&& items.len() == 2
                &&& String::decodes(items[0], x.title)
                &&& String::decodes(items[1], x.markdown)
            },
            _ => false,
        }
    }

    fn decode(v: &Value, path: &str) -> (r: Result<Self, DecodeError>) {
        proof {
            reveal_with_fuel(decode::first_of, 4);
        }
        if let Some(items) = json::as_list(v) {
            if items.len() == 2 {
                let mut texts: Vec<String> = Vec::<String>::decode(v, path)?;
                let markdown = texts.remove(1);
                let title = texts.remove(0);
                return Ok(JobPosting { title, markdown });
            }
        }
        decode::expect_object(v, path)?;
        let markdown = decode::field::<String>(v, "markdown", path)?;
        let title = decode::field::<String>(v, "title", path)?;
        let markdown = decode::required(markdown, "markdown", path)?;
        let title = match title {
            Some(s) => s,
            None => String::new(),
        };
        Ok(JobPosting { title, markdown })
    }
}

/// Why the text of a reply holds no posting, where it holds none.
pub open spec fn reply_problem(content: Seq<char>) -> Option<Seq<char>> {
    let trimmed = text::trimmed(content);
    if trimmed.len() == 0 {
        Some("scrape-to-markdown LLM returned empty content"@)
    } else {
        match json::json_parsed(trimmed) {
            Err(e) => Some("scrape-to-markdown LLM returned non-JSON content: "@ + e),
            Ok(t) => value_problem(t),
        }
    }
}

/// Why a value holds no posting, where it holds none.
pub open spec fn value_problem(t: Tree) -> Option<Seq<char>> {
    match JobPosting::problem(t, Seq::empty()) {
        Some(p) => Some("scrape-to-markdown LLM returned non-JSON content: "@ + p.reason),
        None => None,
    }
}

/// The posting of a parsed reply. The title may be missing; the body may not.
pub fn posting_from_value(value: &Value) -> (r: Result<JobPosting, AtsError>)
    ensures
        match r {
            Ok(posting) => value_problem(json::json_tree(*value)) is None && JobPosting::decodes(
                json::json_tree(*value),
                posting,
            ),
            Err(e) => e matches AtsError::Other(m) && value_problem(json::json_tree(*value))
                == Some(m@),
        },
{
    proof {
        reveal_strlit("");
        assert(""@ =~= Seq::<char>::empty());
    }
    match JobPosting::decode(value, "") {
        Ok(posting) => Ok(posting),
        Err(e) => Err(
            AtsError::Other(
                text::concat2(
                    "scrape-to-markdown LLM returned non-JSON content: ",
                    e.reason.as_str(),
                ),
            ),
        ),
    }
}

/// The posting out of the text of a reply. Of members that are repeated in the
/// text the last one counts. The message for a member that is missing or of a
/// wrong type does not tell its line and column, and that for a value that can
/// hold no posting says that a map was expected.
pub fn parse_llm_output(content: &str) -> (r: Result<JobPosting, AtsError>)
    ensures
        match r {
            Ok(posting) => reply_problem(content@) is None && JobPosting::decodes(
                json::json_parsed(text::trimmed(content@))->Ok_0,
                posting,
            ),
            Err(e) => e matches AtsError::Other(m) && reply_problem(content@) == Some(m@),
        },
{
    let trimmed = text::trim(content);
    if trimmed.as_str().is_empty() {
        return Err(AtsError::Other("scrape-to-markdown LLM returned empty content".to_string()));
    }
    match json::parse(trimmed.as_str()) {
        Ok(value) => posting_from_value(&value),
        Err(e) => Err(
            AtsError::Other(
                text::concat2("scrape-to-markdown LLM returned non-JSON content: ", e.as_str()),
            ),
        ),
    }
}

/// The outcome of the stage that a reply of the model comes to.
pub open spec fn is_outcome(
    reply: Result<LlmResponse, LlmError>,
    r: Result<ScrapeStageOutcome, AtsError>,
) -> bool {
    match reply {
        Err(e) => r matches Err(AtsError::Llm(c)) && e.class_of(c),
        Ok(response) => match r {
            Ok(o) => {
                &&& reply_problem(response.content@) is None
                &&& JobPosting::decodes(
                    json::json_parsed(text::trimmed(response.content@))->Ok_0,
                    o.posting,
                )
                &&& o.usage == response.usage
            },
            Err(e) => e matches AtsError::Other(m) && reply_problem(response.content@) == Some(m@),
        },
    }
}

/// The outcome of the stage out of the reply of the model.
pub fn on_reply(reply: Result<LlmResponse, LlmError>) -> (r: Result<ScrapeStageOutcome, AtsError>)
    ensures
        is_outcome(reply, r),
{
    match reply {
        Err(e) => Err(AtsError::Llm(e.class())),
        Ok(response) => match parse_llm_output(response.content.as_str()) {
            Ok(posting) => Ok(ScrapeStageOutcome { posting, usage: response.usage }),
            Err(e) => Err(e),
        },
    }
}

} // verus!
