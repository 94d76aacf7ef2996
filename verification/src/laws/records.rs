//! What stays on record of a run: where its baseline came from, how dense its keywords
//! are, and how it was configured.

use vstd::prelude::*;
use crate::audit;
use crate::commands;
use crate::commands::optimize::Optimize;
use crate::commands::render::Render;
use crate::commands::{Action, Event, Step};
use crate::config;
use crate::config::Config;
use crate::error::AtsError;
use crate::json;
use crate::json::Tree;
use crate::laws::run;
use crate::laws::run::Trace;
use crate::pipeline;
use crate::pipeline::{Plan, Progress};
use crate::ports::LlmResponse;

verus! {

proof fn lemma_density_names()
    ensures
        "value"@ != "numerator"@,
        "value"@ != "denominator"@,
        "numerator"@ != "denominator"@,
{
    reveal_strlit("value");
    reveal_strlit("numerator");
    reveal_strlit("denominator");
    assert("value"@.len() == 5 && "numerator"@.len() == 9 && "denominator"@.len() == 11);
}

/// A density on record states its value and the two counts that it comes from.
pub proof fn density_on_record_states_its_counts(value: Tree, report: crate::density::DensityReport)
    ensures
        pipeline::density_tree(value, report) matches Tree::Object(m) && {
            &&& m.dom().contains("value"@) && m["value"@] == value
            &&& m.dom().contains("numerator"@) && m["numerator"@] == Tree::Int(
                report.numerator as int,
            )
            &&& m.dom().contains("denominator"@) && m["denominator"@] == Tree::Int(
                report.denominator as int,
            )
        },
{
    lemma_density_names();
}

proof fn lemma_last_wf(t: Trace, plan: Plan, k: int, o: pipeline::Optimized)
    requires
        t.wf(plan),
        0 <= k < t.states.len(),
        t.states[k].progress == Progress::Renaming(o),
    ensures
        pipeline::has_density_extras(o),
{
    run::lemma_state_wf(t, plan, k);
}

/// A run that succeeds has on record whether its baseline was cached, the slug of its
/// posting, and the density of its keywords.
pub proof fn run_records_baseline_and_density(t: Trace, plan: Plan)
    requires
        t.wf(plan),
        t.end is Finished,
    ensures
        ({
            let result = t.end->Finished_result;
            let noted = audit::extras_view(t.end->Finished_run.extras@);
            &&& noted.len() == 6
            &&& noted[0] == ("cached"@, Tree::Bool(result.cached_baseline))
            &&& noted[1] == ("cached_baseline"@, Tree::Bool(result.cached_baseline))
            &&& noted[2] == ("scrape_slug"@, Tree::Text(result.slug@))
            &&& noted[3].0 == "cache_path"@
            &&& noted[4].0 == "keyword_density"@
            &&& noted[5].0 == "density"@
            &&& t.end->Finished_run.token_usage_total == result.total_tokens
        }),
{
    let n = t.states.len() as int;
    let o = run::lemma_tail(t, plan);
    run::lemma_finish(t, plan, o);
    lemma_last_wf(t, plan, n - 1, o);
    let all = audit::extras_view(o.run().extras@);
    let first = pipeline::baseline_extras(o.extracted.rendered);
    assert(all.take(4)[0] == all[0] && all.take(4)[1] == all[1] && all.take(4)[2] == all[2]
        && all.take(4)[3] == all[3]);
    assert(first[0] == ("cached"@, Tree::Bool(o.extracted.rendered.cached)));
}

/// `ats optimize` has on record the tokens of its call and the density of its keywords.
pub proof fn optimize_records_tokens_and_density(
    s: Optimize,
    response: LlmResponse,
    timestamp: String,
    s1: Optimize,
    a1: Action,
    value: serde_json::Value,
    s2: Optimize,
    a2: Action,
)
    requires
        s.progress is Asking,
        s.leads_to(
            Event::Reply { reply: Ok(response), timestamp },
            Step::Next { state: s1, action: a1 },
        ),
        s1.leads_to(Event::Density(value), Step::Next { state: s2, action: a2 }),
    ensures
        ({
            let before = audit::extras_view(s.run.extras@);
            let noted = audit::extras_view(s2.run.extras@);
            &&& noted.len() == before.len() + 2
            &&& forall|i: int| 0 <= i < before.len() ==> #[trigger] noted[i] == before[i]
            &&& noted[before.len() as int] == (
                "token_usage_total"@,
                audit::usage_tree(response.usage),
            )
            &&& noted[before.len() as int + 1].0 == "keyword_density"@
            &&& a1 matches Action::ReportDensity(report) && noted[before.len() as int + 1].1
                == pipeline::density_tree(json::json_tree(value), report)
        }),
{
}

/// `ats render` has on record whether the baseline was cached, and where.
pub proof fn render_records_the_cache(
    s: Render,
    content: String,
    shown: String,
    next: Render,
    action: Action,
)
    requires
        s.progress is Loading,
        s.leads_to(
            Event::Stored { stored: Ok::<Option<String>, String>(Some(content)), shown },
            Step::Next { state: next, action },
        ),
    ensures
        ({
            let before = audit::extras_view(s.run.extras@);
            let noted = audit::extras_view(next.run.extras@);
            &&& noted.len() == before.len() + 2
            &&& noted[before.len() as int] == ("cached"@, Tree::Bool(true))
            &&& noted[before.len() as int + 1] == ("cache_path"@, Tree::Text(shown@))
        }),
{
}

/// What was printed ends a command well, also where nobody reads it any more; any other
/// failure to print is reported.
pub proof fn broken_pipe_is_no_failure<S>(
    step: Step<S>,
    folder: audit::RunFolder,
    failure: Option<crate::cli::WriteFailure>,
)
    requires
        commands::ends_printed(step, folder, failure),
    ensures
        step matches Step::Over(end) && end.run == folder && end.record is None,
        step->Over_0.result is Ok <==> (failure is None || failure->Some_0.broken_pipe),
        step->Over_0.result matches Err(e) ==> e == AtsError::Io(failure->Some_0.cause),
{
}

proof fn lemma_config_names()
    ensures
        "openrouter"@ != "models"@,
        "openrouter"@ != "scrape"@,
        "openrouter"@ != "retries"@,
        "models"@ != "scrape"@,
        "models"@ != "retries"@,
        "scrape"@ != "retries"@,
        "scrape_to_markdown"@ != "keyword_extraction"@,
        "scrape_to_markdown"@ != "resume_optimization"@,
        "keyword_extraction"@ != "resume_optimization"@,
        "llm_transient_max_attempts"@ != "llm_transient_backoff_ms"@,
        "llm_transient_max_attempts"@ != "schema_validation_max_attempts"@,
        "llm_transient_backoff_ms"@ != "schema_validation_max_attempts"@,
{
    reveal_strlit("openrouter");
    reveal_strlit("models");
    reveal_strlit("scrape");
    reveal_strlit("retries");
    reveal_strlit("scrape_to_markdown");
    reveal_strlit("keyword_extraction");
    reveal_strlit("resume_optimization");
    reveal_strlit("llm_transient_max_attempts");
    reveal_strlit("llm_transient_backoff_ms");
    reveal_strlit("schema_validation_max_attempts");
    assert("openrouter"@.len() == 10 && "models"@.len() == 6 && "scrape"@.len() == 6
        && "retries"@.len() == 7);
    assert("models"@[0] == 'm' && "scrape"@[0] == 's');
    assert("scrape_to_markdown"@.len() == 18 && "keyword_extraction"@.len() == 18
        && "resume_optimization"@.len() == 19);
    assert("scrape_to_markdown"@[0] == 's' && "keyword_extraction"@[0] == 'k');
    assert("llm_transient_max_attempts"@.len() == 26 && "llm_transient_backoff_ms"@.len() == 24
        && "schema_validation_max_attempts"@.len() == 30);
}

/// The configuration on record states the three models, each under its own stage, how long
/// a page may take, and how often calls are repeated.
pub proof fn configuration_on_record_is_the_one_in_use(c: Config, key: Seq<char>)
    ensures
        config::config_tree(c, key) matches Tree::Object(m) && {
            &&& m.dom().contains("models"@) && (m["models"@] matches Tree::Object(o) && {
                &&& o["scrape_to_markdown"@] == config::model_tree(c.models.scrape_to_markdown)
                &&& o["keyword_extraction"@] == config::model_tree(c.models.keyword_extraction)
                &&& o["resume_optimization"@] == config::model_tree(c.models.resume_optimization)
            })
            &&& m.dom().contains("scrape"@) && (m["scrape"@] matches Tree::Object(o)
                && o["network_idle_timeout_ms"@] == Tree::Int(
                c.scrape.network_idle_timeout_ms as int,
            ))
            &&& m.dom().contains("retries"@) && (m["retries"@] matches Tree::Object(o) && {
                &&& o["llm_transient_max_attempts"@] == Tree::Int(
                    c.retries.llm_transient_max_attempts as int,
                )
                &&& o["schema_validation_max_attempts"@] == Tree::Int(
                    c.retries.schema_validation_max_attempts as int,
                )
                &&& o["llm_transient_backoff_ms"@] matches Tree::List(items) && items.len()
                    == c.retries.llm_transient_backoff_ms@.len() && forall|i: int|
                    0 <= i < items.len() ==> #[trigger] items[i] == Tree::Int(
                        c.retries.llm_transient_backoff_ms@[i] as int,
                    )
            })
        },
{
    lemma_config_names();
}

} // verus!
