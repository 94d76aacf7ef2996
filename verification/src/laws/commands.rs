//! The commands as their caller sees them: what comes in is what goes on, and what is
//! printed is what is written.

use vstd::prelude::*;
use crate::commands::keywords;
use crate::commands::keywords::Keywords;
use crate::commands::optimize::Optimize;
use crate::commands::pdf::Pdf;
use crate::commands::render::Render;
use crate::commands::scrape;
use crate::commands::scrape::Scrape;
use crate::commands::{Action, Event, Step};
use crate::decode::Decode;
use crate::domain::{JobPosting, KeywordSet, Resume};
use crate::fs_layout::PathModel;
use crate::json;
use crate::laws::run;
use crate::ports::LlmResponse;
use crate::render::markdown;
use crate::stage;
use crate::text;

verus! {

/// The action writes this text to this file.
pub open spec fn wrote(action: Action, path: PathModel, content: Seq<char>) -> bool {
    action matches Action::WriteFile { path: p, content: c } && p@ == path && c@ == content
}

/// The action prints this text.
pub open spec fn printed(action: Action, content: Seq<char>, newline: bool) -> bool {
    action matches Action::Print { content: c, newline: n } && c@ == content && n == newline
}

/// A reply of the model that has come.
pub open spec fn replied(response: LlmResponse, timestamp: String) -> Event {
    Event::Reply { reply: Ok(response), timestamp }
}

// ---------------------------------------------------------------------------
// ats pdf
// ---------------------------------------------------------------------------

/// The PDF is made of the text that was read, where the caller wants it; its size is
/// looked up there, and both go on record.
pub proof fn pdf_is_made_of_the_input(
    s0: Pdf,
    md: String,
    s1: Pdf,
    a1: Action,
    s2: Pdf,
    a2: Action,
    size: u64,
    end: Step<Pdf>,
)
    requires
        s0.progress is Reading,
        s0.leads_to(Event::Input(Ok(md)), Step::Next { state: s1, action: a1 }),
        s1.leads_to(
            Event::Rendered(Ok::<(), crate::commands::RenderFailure>(())),
            Step::Next { state: s2, action: a2 },
        ),
        s2.leads_to(Event::Size(Ok::<u64, String>(size)), end),
    ensures
        a1 matches Action::RenderPdf { markdown, out } && markdown@ == md@ && out@ == s0.out@,
        a2 matches Action::Measure { path } && path@ == s0.out@,
        end matches Step::Over(e) && e.result is Ok && {
            let noted = crate::audit::extras_view(e.run.extras@);
            let before = crate::audit::extras_view(s0.run.extras@);
            &&& noted.len() == before.len() + 2
            &&& noted[before.len() as int] == ("bytes_written"@, json::Tree::Int(size as int))
            &&& noted[before.len() as int + 1] == ("output_path"@, json::Tree::Text(s0.out@))
        },
{
}

// ---------------------------------------------------------------------------
// ats render
// ---------------------------------------------------------------------------

/// A cached baseline is printed as it is found.
pub proof fn cached_baseline_is_printed(
    s: Render,
    content: String,
    shown: String,
    next: Render,
    action: Action,
)
    requires
        s.progress is Loading,
        s.leads_to(
            Event::Stored { stored: Ok::<Option<String>, String>(Some(content)), shown },
            Step::Next { state: next, action },
        ),
    ensures
        printed(action, content@, false),
{
}

/// Where the cache holds no baseline of the document, the resume of the document is
/// rendered. What is rendered is stored where the cache was asked, and then printed.
pub proof fn rendered_baseline_is_stored_and_printed(
    s0: Render,
    yaml: Vec<u8>,
    s1: Render,
    a1: Action,
    shown: String,
    s2: Render,
    a2: Action,
    s3: Render,
    a3: Action,
) -> (resume: Resume)
    requires
        s0.progress is Reading,
        s0.leads_to(Event::Yaml(Ok(yaml)), Step::Next { state: s1, action: a1 }),
        s1.leads_to(
            Event::Stored { stored: Ok::<Option<String>, String>(None), shown },
            Step::Next { state: s2, action: a2 },
        ),
        s2.leads_to(Event::Done(Ok::<(), String>(())), Step::Next { state: s3, action: a3 }),
    ensures
        crate::render::validate::resume_of(
            crate::render::validate::yaml_parsed(yaml@)->Ok_0,
            resume,
        ),
        a1 matches Action::LoadCache { path } && (a2 matches Action::StoreCache(w) && w.path@
            == path@ && w.content@ == markdown::baseline(resume)),
        printed(a3, markdown::baseline(resume), false),
{
    s1.progress->Loading_resume
}

// ---------------------------------------------------------------------------
// ats optimize
// ---------------------------------------------------------------------------

/// The model is asked to optimize the text that was read as the resume, for the catalogue
/// that was read. Its reply is measured, written and printed as it stands.
pub proof fn reply_is_measured_written_and_printed(
    s0: Optimize,
    resume: String,
    s1: Optimize,
    a1: Action,
    catalogue: String,
    s2: Optimize,
    a2: Action,
    s3: Optimize,
    a3: Action,
    response: LlmResponse,
    timestamp: String,
    s4: Optimize,
    a4: Action,
    value: serde_json::Value,
    s5: Optimize,
    a5: Action,
    s6: Optimize,
    a6: Action,
) -> (set: KeywordSet)
    requires
        s0.progress is ReadingResume,
        s0.leads_to(Event::Input(Ok(resume)), Step::Next { state: s1, action: a1 }),
        s1.leads_to(Event::Input(Ok(catalogue)), Step::Next { state: s2, action: a2 }),
        s2.leads_to(
            Event::Opened(Ok::<(), crate::commands::OpenFailure>(())),
            Step::Next { state: s3, action: a3 },
        ),
        s3.leads_to(replied(response, timestamp), Step::Next { state: s4, action: a4 }),
        s4.leads_to(Event::Density(value), Step::Next { state: s5, action: a5 }),
        s5.leads_to(Event::Done(Ok::<(), String>(())), Step::Next { state: s6, action: a6 }),
    ensures
        a1 == Action::ReadInput(s0.progress->ReadingResume_keywords),
        KeywordSet::decodes(json::json_parsed(catalogue@)->Ok_0, set),
        a3 matches Action::Ask { record: None, request } && run::asks(
            request,
            s0.config.models.resume_optimization,
            "=== RESUME ===\n"@ + resume@ + "\n\n=== KEYWORDS ===\n"@
                + stage::keywords::markdown_view(set) + "\n"@,
        ),
        a4 matches Action::ReportDensity(report) && report.numerator
            == crate::laws::density::measured(set.terms(), response.content@)
            && report.denominator == crate::density::word_count(response.content@) as u32,
        wrote(a5, s0.run.path_spec().child("optimized.md"@), response.content@),
        printed(a6, response.content@, true),
        s6.run.token_usage_total == s0.run.token_usage_total.sum(response.usage).sum(
            crate::ports::TokenUsage::none(),
        ),
{
    s2.progress->Opening_set
}

// ---------------------------------------------------------------------------
// ats keywords
// ---------------------------------------------------------------------------

/// The model is asked for the keywords of the posting that was read.
pub proof fn keywords_are_asked_of_the_input(
    s0: Keywords,
    posting: String,
    s1: Keywords,
    a1: Action,
    s2: Keywords,
    a2: Action,
)
    requires
        s0.progress is Reading,
        s0.leads_to(Event::Input(Ok(posting)), Step::Next { state: s1, action: a1 }),
        s1.leads_to(
            Event::Opened(Ok::<(), crate::commands::OpenFailure>(())),
            Step::Next { state: s2, action: a2 },
        ),
    ensures
        a1 is OpenAudit,
        a2 matches Action::Ask { record: None, request } && run::asks(
            request,
            s0.config.models.keyword_extraction,
            posting@,
        ),
{
}

/// A reply that cannot be used is asked for once more, in the same words.
pub proof fn keywords_are_asked_for_again(
    s: Keywords,
    request: crate::ports::LlmRequest,
    response: LlmResponse,
    timestamp: String,
    next: Keywords,
    again: Action,
)
    requires
        s.progress matches keywords::Progress::Extracting(x) && x.is_request(request),
        s.leads_to(replied(response, timestamp), Step::Next { state: next, action: again }),
        next.progress is Extracting,
    ensures
        again matches Action::Ask { record: Some(_), request: r } && {
            &&& r.model@ == request.model@
            &&& r.messages@.len() == 2
            &&& r.messages@[0].content@ == request.messages@[0].content@
            &&& r.messages@[1].content@ == request.messages@[1].content@
            &&& r.seed == request.seed
        },
{
}

/// The catalogue that a reply reads as is what is written: as JSON, and as the view of it.
/// The JSON is printed as it was written.
pub proof fn keywords_are_written_and_printed(
    s: Keywords,
    response: LlmResponse,
    timestamp: String,
    s1: Keywords,
    a1: Action,
    serialised: String,
    s2: Keywords,
    a2: Action,
    s3: Keywords,
    a3: Action,
    s4: Keywords,
    a4: Action,
) -> (set: KeywordSet)
    requires
        s.progress is Extracting,
        s.leads_to(replied(response, timestamp), Step::Next { state: s1, action: a1 }),
        s1.progress is Serialising,
        s1.leads_to(Event::Serialised(Ok(serialised)), Step::Next { state: s2, action: a2 }),
        s2.leads_to(Event::Done(Ok::<(), String>(())), Step::Next { state: s3, action: a3 }),
        s3.leads_to(Event::Done(Ok::<(), String>(())), Step::Next { state: s4, action: a4 }),
    ensures
        KeywordSet::decodes(json::json_parsed(response.content@)->Ok_0, set),
        a1 is Serialise,
        s1.progress->Serialising_set == set,
        wrote(a2, s.run.path_spec().child("keywords.json"@), serialised@),
        wrote(a3, s.run.path_spec().child("keywords.md"@), stage::keywords::markdown_view(set)),
        printed(a4, serialised@, true),
{
    s1.progress->Serialising_set
}

// ---------------------------------------------------------------------------
// ats scrape
// ---------------------------------------------------------------------------

/// The page of the link is fetched, and handed to the model as it stands.
pub proof fn page_is_handed_to_the_model(
    s0: Scrape,
    s1: Scrape,
    a1: Action,
    html: String,
    s2: Scrape,
    a2: Action,
)
    requires
        s0.progress is Opening,
        s0.leads_to(
            Event::Opened(Ok::<(), crate::commands::OpenFailure>(())),
            Step::Next { state: s1, action: a1 },
        ),
        s1.leads_to(
            Event::Page(Ok::<String, crate::scrape_port::ScrapeError>(html)),
            Step::Next { state: s2, action: a2 },
        ),
    ensures
        a1 matches Action::FetchHtml { url, idle_timeout_ms } && url@ == s0.url@ && idle_timeout_ms
            == s0.config.scrape.network_idle_timeout_ms,
        a2 matches Action::Ask { record: None, request } && run::asks(
            request,
            s0.config.models.scrape_to_markdown,
            html@,
        ),
{
}

/// The posting that waits to be written.
pub open spec fn posting_of(s: Scrape) -> JobPosting {
    match s.progress {
        scrape::Progress::Renaming { posting, slug } => posting,
        scrape::Progress::Serialising { posting } => posting,
        _ => arbitrary(),
    }
}

/// The posting that is written is the one that the reply of the model says. The folder
/// gets the slug of its title, or is to get it.
pub proof fn posting_is_what_the_reply_says(
    s: Scrape,
    response: LlmResponse,
    timestamp: String,
    next: Scrape,
    action: Action,
)
    requires
        s.progress is Asking,
        s.leads_to(replied(response, timestamp), Step::Next { state: next, action }),
    ensures
        run::says(json::json_parsed(text::trimmed(response.content@))->Ok_0, posting_of(next)),
        next.progress is Renaming || next.progress is Serialising,
        next.progress matches scrape::Progress::Renaming { posting, slug } ==> {
            &&& action matches Action::RenameFolder { from, to }
            &&& from@ == s.run.path_spec()
            &&& to@ == s.run.runs_dir@.child(
                crate::audit::compact_time(s.run.started_at) + "_"@ + s.run.command@ + "_"@
                    + crate::slug::slug_of(posting.title@),
            )
        },
{
    let o = choose|o: stage::scrape::ScrapeStageOutcome|
        #[trigger]
        s.after_posting(o, Step::Next { state: next, action }) && stage::scrape::is_outcome(
            Ok(response),
            Ok::<stage::scrape::ScrapeStageOutcome, crate::error::AtsError>(o),
        );
    crate::slug::slug_is_well_formed(o.posting.title@);
}

/// A rename does not change the posting, whatever comes of it.
pub proof fn rename_keeps_the_posting(
    s: Scrape,
    result: Result<(), String>,
    next: Scrape,
    action: Action,
)
    requires
        s.progress is Renaming,
        s.leads_to(Event::Renamed(result), Step::Next { state: next, action }),
    ensures
        next.progress is Serialising,
        posting_of(next) == posting_of(s),
{
}

/// The body of the posting is written to `posting.md`. The JSON of the posting is written
/// to `posting.json`, and printed as it was written.
pub proof fn posting_is_written_and_printed(
    s1: Scrape,
    serialised: String,
    s2: Scrape,
    a2: Action,
    s3: Scrape,
    a3: Action,
    s4: Scrape,
    a4: Action,
)
    requires
        s1.progress is Serialising,
        s1.leads_to(Event::Serialised(Ok(serialised)), Step::Next { state: s2, action: a2 }),
        s2.leads_to(Event::Done(Ok::<(), String>(())), Step::Next { state: s3, action: a3 }),
        s3.leads_to(Event::Done(Ok::<(), String>(())), Step::Next { state: s4, action: a4 }),
    ensures
        wrote(a2, s1.run.path_spec().child("posting.json"@), serialised@),
        wrote(a3, s1.run.path_spec().child("posting.md"@), posting_of(s1).markdown@),
        printed(a4, serialised@, true),
{
}

// ---------------------------------------------------------------------------
// ats run
// ---------------------------------------------------------------------------

/// The run begins with the resume of the document that was read, and with the link that
/// it was given.
pub proof fn run_begins_with_the_document(
    s0: crate::commands::run::Run,
    yaml: Vec<u8>,
    s1: crate::commands::run::Run,
    a1: crate::commands::run::Action,
    started_at: crate::audit::Timestamp,
    p: crate::pipeline::Pipeline,
    a2: crate::pipeline::Action,
)
    requires
        s0.progress is Reading,
        s0.leads_to(
            crate::commands::run::Event::Yaml(Ok(yaml)),
            crate::commands::run::Step::Next { state: s1, action: a1 },
        ),
        s1.leads_to(
            crate::commands::run::Event::Connected { started_at, client: Ok::<(), String>(()) },
            crate::commands::run::Step::Begin { pipeline: p, action: a2 },
        ),
    ensures
        p.plan.input.url == s0.url,
        p.plan.input.yaml_bytes == yaml,
        crate::render::validate::resume_of(
            crate::render::validate::yaml_parsed(yaml@)->Ok_0,
            p.plan.input.resume,
        ),
        p.plan.config == s0.config,
        p.plan.layout == s0.layout,
        p.plan.started_at == started_at,
        a2 matches crate::pipeline::Action::FetchHtml { url, idle_timeout_ms } && url@ == s0.url@,
{
}

/// The exit code tells a success from a failure, and the outcome on record is `success`
/// for the one and the class of the error for the other.
pub proof fn outcome_tells_the_class(result: Result<(), crate::error::AtsError>)
    ensures
        result is Ok ==> crate::commands::exit_code_of(result) == 0
            && crate::commands::outcome_of(result) == "success"@,
        result matches Err(crate::error::AtsError::Config(_)) ==> crate::commands::exit_code_of(
            result,
        ) == 2 && crate::commands::outcome_of(result) == "config"@,
        result matches Err(crate::error::AtsError::Yaml(_)) ==> crate::commands::exit_code_of(
            result,
        ) == 3 && crate::commands::outcome_of(result) == "yaml"@,
        result matches Err(crate::error::AtsError::Scrape(c)) ==> crate::commands::exit_code_of(
            result,
        ) == 4 && crate::commands::outcome_of(result) == "scrape/"@ + c.tag(),
        result matches Err(crate::error::AtsError::Llm(c)) ==> crate::commands::exit_code_of(result)
            == 5 && crate::commands::outcome_of(result) == "llm/"@ + crate::cli::llm_tag(c),
        result matches Err(crate::error::AtsError::SchemaInvalid(_))
            ==> crate::commands::exit_code_of(result) == 6 && crate::commands::outcome_of(result)
            == "schema-invalid"@,
        result matches Err(crate::error::AtsError::Pdf(_)) ==> crate::commands::exit_code_of(result)
            == 7 && crate::commands::outcome_of(result) == "pdf"@,
        result matches Err(crate::error::AtsError::Io(_)) ==> crate::commands::exit_code_of(result)
            == 1 && crate::commands::outcome_of(result) == "io"@,
        result matches Err(crate::error::AtsError::Other(_)) ==> crate::commands::exit_code_of(
            result,
        ) == 1,
{
}

// ---------------------------------------------------------------------------
// Failures
// ---------------------------------------------------------------------------

/// The event reports this failure.
pub open spec fn reports(event: Event, e: crate::error::AtsError) -> bool {
    match event {
        Event::Input(Err(m)) => e == crate::error::AtsError::Io(m),
        Event::Done(Err(m)) => e == crate::error::AtsError::Io(m),
        Event::Size(Err(m)) => e == crate::error::AtsError::Io(m),
        Event::Stored { stored: Err(m), shown } => e == crate::error::AtsError::Io(m),
        Event::Page(Err(c)) => e == crate::error::AtsError::Scrape(c.class_spec()),
        Event::Reply { reply: Err(c), timestamp } => e matches crate::error::AtsError::Llm(k)
            && c.class_of(k),
        Event::Opened(Err(crate::commands::OpenFailure::Audit(m))) => e
            == crate::error::AtsError::Io(m),
        Event::Opened(Err(crate::commands::OpenFailure::Client(m))) => e
            matches crate::error::AtsError::Other(n) && n@ == "failed to build OpenRouter client: "@
            + m@,
        _ => false,
    }
}

/// The event is a failure to read, to write, to measure, to open, to fetch or to ask.
pub open spec fn fails(event: Event) -> bool {
    match event {
        Event::Input(r) => r is Err,
        Event::Done(r) => r is Err,
        Event::Size(r) => r is Err,
        Event::Stored { stored, shown } => stored is Err,
        Event::Page(r) => r is Err,
        Event::Reply { reply, timestamp } => reply is Err,
        Event::Opened(r) => r is Err,
        _ => false,
    }
}

/// The command is over with this failure.
pub open spec fn over_with<S>(step: Step<S>, folder: crate::audit::RunFolder, event: Event) -> bool {
    step matches Step::Over(end) && end.run == folder && (end.result matches Err(e) && reports(
        event,
        e,
    ))
}

/// A failure ends `ats pdf` as it was reported, and leaves the folder as it was.
pub proof fn pdf_ends_with_the_failure(s: Pdf, event: Event, step: Step<Pdf>)
    requires
        s.awaits(event),
        s.leads_to(event, step),
        fails(event),
    ensures
        over_with(step, s.run, event),
{
}

/// A failure ends `ats render` as it was reported, and leaves the folder as it was.
pub proof fn render_ends_with_the_failure(s: Render, event: Event, step: Step<Render>)
    requires
        s.awaits(event),
        s.leads_to(event, step),
        fails(event),
    ensures
        over_with(step, s.run, event),
{
}

/// A failure ends `ats optimize` as it was reported, and leaves the folder as it was.
pub proof fn optimize_ends_with_the_failure(s: Optimize, event: Event, step: Step<Optimize>)
    requires
        s.awaits(event),
        s.leads_to(event, step),
        fails(event),
    ensures
        over_with(step, s.run, event),
{
}

/// A failure ends `ats keywords` as it was reported, and leaves the folder as it was.
pub proof fn keywords_ends_with_the_failure(s: Keywords, event: Event, step: Step<Keywords>)
    requires
        s.awaits(event),
        s.leads_to(event, step),
        fails(event),
    ensures
        over_with(step, s.run, event),
{
}

/// A failure ends `ats scrape` as it was reported, and leaves the folder as it was.
pub proof fn scrape_ends_with_the_failure(s: Scrape, event: Event, step: Step<Scrape>)
    requires
        s.awaits(event),
        s.leads_to(event, step),
        fails(event),
    ensures
        over_with(step, s.run, event),
{
}

} // verus!
