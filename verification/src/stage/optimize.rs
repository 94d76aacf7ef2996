//! Resume optimization: one call with the baseline and the keywords, plain
//! Markdown in reply.

use vstd::prelude::*;
use crate::assets;
use crate::config::ModelStageConfig;
use crate::error::AtsError;
use crate::json;
use crate::ports;
use crate::ports::{LlmError, LlmRequest, LlmResponse, TokenUsage};
use crate::text;

verus! {

/// The optimized resume, and the tokens of the call.
#[derive(Debug, Clone)]
pub struct OptimizeOutcome {
    pub markdown: String,
    pub usage: TokenUsage,
}

/// The user message: the baseline and the keywords under their headings.
pub open spec fn user_message(baseline_md: Seq<char>, keywords_md: Seq<char>) -> Seq<char> {
    "=== RESUME ===\n"@ + baseline_md + "\n\n=== KEYWORDS ===\n"@ + keywords_md + "\n"@
}

/// `r` is the request for an optimized resume.
pub open spec fn is_request(
    baseline_md: Seq<char>,
    keywords_md: Seq<char>,
    model: ModelStageConfig,
    r: LlmRequest,
) -> bool {
    &&& r.stage@ == "optimize"@
    &&& r.model@ == model.name@
    &&& json::json_tree(r.temperature) == json::json_tree(model.temperature)
    &&& r.seed == Some(model.seed)
    &&& ports::is_chat(
        r.messages@,
        assets::PROMPT_RESUME_OPTIMIZATION@,
        user_message(baseline_md, keywords_md),
    )
    &&& r.response_format is None
}

/// The request for an optimized resume.
pub fn request(baseline_md: &str, keywords_md: &str, model: &ModelStageConfig) -> (r: LlmRequest)
    ensures
        is_request(baseline_md@, keywords_md@, *model, r),
{
    let mut user = text::concat3(
        "=== RESUME ===\n",
        baseline_md,
        "\n\n=== KEYWORDS ===\n",
    );
    user.push_str(keywords_md);
    user.push_str("\n");
    LlmRequest {
        stage: "optimize",
        model: model.name.clone(),
        temperature: model.temperature.clone(),
        seed: Some(model.seed),
        messages: ports::chat(assets::PROMPT_RESUME_OPTIMIZATION, user.as_str()),
        response_format: None,
    }
}

/// The optimized resume out of the reply: its text as it stands.
pub fn on_reply(reply: Result<LlmResponse, LlmError>) -> (r: Result<OptimizeOutcome, AtsError>)
    ensures
        match reply {
            Ok(response) => r matches Ok(o) && o.markdown == response.content && o.usage
                == response.usage,
            Err(e) => r matches Err(AtsError::Llm(c)) && e.class_of(c),
        },
{
    match reply {
        Ok(response) => Ok(
            OptimizeOutcome { markdown: response.content, usage: response.usage },
        ),
        Err(e) => Err(AtsError::Llm(e.class())),
    }
}

} // verus!
