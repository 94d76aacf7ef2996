//! The whole run: scrape the posting, open a run folder, then render, extract
//! keywords, optimize, and export.
//!
//! The run is a state machine. It says what to do next; the caller does it and
//! reports the event. Nothing is written before the posting is there: a failure
//! before the run folder exists is an early one, any other a late one.

use vstd::prelude::*;
use serde_json::Value;
use crate::audit;
use crate::audit::{RunFolder, Timestamp};
use crate::config::Config;
use crate::density;
use crate::density::DensityReport;
use crate::domain::{JobPosting, KeywordSet, Resume};
use crate::error::AtsError;
use crate::fs_layout;
use crate::fs_layout::{BinaryFsLayout, FsPath, PathModel};
use crate::json;
use crate::json::Tree;
use crate::ports::{LlmCallRecord, LlmError, LlmRequest, LlmResponse, PdfError, TokenUsage};
use crate::render::cache;
use crate::render::cache::CacheWrite;
use crate::scrape_port::ScrapeError;
use crate::slug;
use crate::stage::keywords;
use crate::stage::keywords::{KeywordExtraction, KeywordExtractionOutcome, KeywordStep};
use crate::stage::optimize;
use crate::stage::scrape;
use crate::stage::scrape::ScrapeStageOutcome;
use crate::text;

verus! {

// ---------------------------------------------------------------------------
// Input and result
// ---------------------------------------------------------------------------

/// What a run starts from.
pub struct RunPipelineInput {
    pub url: String,
    pub yaml_bytes: Vec<u8>,
    pub resume: Resume,
}

/// Why a run failed, and what is left of it.
pub enum RunPipelineError {
    /// Before there was a run folder.
    Early(AtsError),
    /// With a run folder, which is still to be finalized.
    Late { run: RunFolder, err: AtsError },
}

/// What a run has produced.
pub struct RunPipelineResult {
    pub run_dir: FsPath,
    pub ts_prefix: String,
    pub slug: String,
    pub final_md: FsPath,
    pub final_pdf: FsPath,
    pub output_pdf: FsPath,
    pub cached_baseline: bool,
    pub total_tokens: TokenUsage,
}

// ---------------------------------------------------------------------------
// States
// ---------------------------------------------------------------------------

/// What stays the same throughout a run.
pub struct Plan {
    pub input: RunPipelineInput,
    pub config: Config,
    pub started_at: Timestamp,
    pub layout: BinaryFsLayout,
}

/// A run with its folder.
pub struct Open {
    pub run: RunFolder,
    pub posting: JobPosting,
    pub slug: String,
    pub scrape_usage: TokenUsage,
}

/// A run with its baseline.
pub struct Rendered {
    pub open: Open,
    pub baseline: String,
    pub cached: bool,
    /// The path of the cached baseline, as the user sees it.
    pub cache_shown: String,
}

/// A run with its keywords.
pub struct Extracted {
    pub rendered: Rendered,
    pub keywords: KeywordExtractionOutcome,
}

/// A run with its optimized resume.
pub struct Optimized {
    pub extracted: Extracted,
    pub markdown: String,
    pub usage: TokenUsage,
    pub report: DensityReport,
}

/// How far a run has come: what it waits for.
pub enum Progress {
    /// The page.
    Fetching,
    /// The posting.
    Scraping,
    /// The audit records of the scrape.
    Draining(ScrapeStageOutcome),
    /// The run folder.
    Creating { open: Open, records: Vec<LlmCallRecord> },
    /// `posting.json`.
    PostingJson { open: Open, records: Vec<LlmCallRecord> },
    /// `posting.md`.
    PostingMd { open: Open, records: Vec<LlmCallRecord> },
    /// The client of the later stages.
    Building(Open),
    /// The cached baseline.
    Loading(Open),
    /// The new baseline in the cache.
    Storing { open: Open, baseline: String, cache_shown: String },
    /// `baseline.md`.
    BaselineMd(Rendered),
    /// The keywords.
    Extracting { rendered: Rendered, extraction: KeywordExtraction },
    /// `keywords.json`.
    KeywordsJson(Extracted),
    /// `keywords.md`.
    KeywordsMd(Extracted),
    /// The optimized resume.
    Optimizing(Extracted),
    /// The density as a number.
    Measuring(Optimized),
    /// `optimized.md`.
    OptimizedMd(Optimized),
    /// The final Markdown.
    FinalMd(Optimized),
    /// The final PDF.
    Pdf(Optimized),
    /// A look at the final PDF.
    PdfCheck(Optimized),
    /// The output directory.
    OutputDir(Optimized),
    /// A copy of the PDF there.
    Copying(Optimized),
    /// The final name of the copy.
    Renaming(Optimized),
}

/// A run.
pub struct Pipeline {
    pub plan: Plan,
    pub progress: Progress,
}

/// What the caller has to do.
pub enum Action {
    FetchHtml { url: String, idle_timeout_ms: u64 },
    AskScrape(LlmRequest),
    /// Drain the audit records of the scrape.
    TakeAudit,
    /// Create the directories, and then the run folder.
    CreateFolder { dirs: Vec<FsPath>, path: FsPath },
    WriteFile { path: FsPath, content: String },
    /// Open the audit log in the directory with these records in it, and make
    /// the client of the later stages.
    BuildStages { dir: FsPath, records: Vec<LlmCallRecord> },
    /// Read the file, where it exists.
    LoadCache { path: FsPath },
    StoreCache(CacheWrite),
    /// Record the last attempt, where there is a record, and ask.
    AskKeywords { record: Option<LlmCallRecord>, request: LlmRequest },
    /// Write the keywords of the run as JSON.
    WriteKeywords { path: FsPath },
    AskOptimize(LlmRequest),
    /// Report the density, and give it as a JSON number.
    ReportDensity(DensityReport),
    RenderPdf { markdown: String, path: FsPath },
    CheckFile { path: FsPath },
    CreateDir { path: FsPath },
    CopyFile { from: FsPath, to: FsPath },
    RenameFile { from: FsPath, to: FsPath },
}

/// What the caller reports.
pub enum Event {
    Page(Result<String, ScrapeError>),
    /// A reply of the model, and the time that a record of it is given.
    Reply { reply: Result<LlmResponse, LlmError>, timestamp: String },
    Audit(Result<Vec<LlmCallRecord>, String>),
    /// A file or directory operation.
    Done(Result<(), String>),
    Built(Result<(), AtsError>),
    /// The content of the cached file, where it exists; and its path as the user
    /// sees it.
    Stored { stored: Result<Option<String>, String>, shown: String },
    KeywordsWritten(Result<(), AtsError>),
    /// The density as a JSON number.
    Density(Value),
    Pdf(Result<(), PdfError>),
    Exists(bool),
}

/// What comes after an event.
pub enum Step {
    /// The run goes on.
    Next { pipeline: Pipeline, action: Action },
    /// The run has succeeded.
    Finished { run: RunFolder, result: RunPipelineResult },
    /// The run has failed. Where there is a record it is still to be recorded,
    /// and where there is a path the file there is to be removed.
    Failed { error: RunPipelineError, record: Option<LlmCallRecord>, cleanup: Option<FsPath> },
}

// ---------------------------------------------------------------------------
// Names
// ---------------------------------------------------------------------------

/// A file in the run folder.
pub open spec fn run_file(run: RunFolder, name: Seq<char>) -> PathModel {
    run.path_spec().child(name)
}

/// The name of the final resume, without its extension.
pub open spec fn final_name(t: Timestamp, slug: Seq<char>) -> Seq<char> {
    audit::compact_time(t) + "_"@ + slug + "_resume"@
}

/// The posting as JSON.
pub open spec fn posting_tree(p: JobPosting) -> Tree {
    Tree::Object(
        Map::empty().insert("title"@, Tree::Text(p.title@)).insert(
            "markdown"@,
            Tree::Text(p.markdown@),
        ),
    )
}

/// The density as JSON.
pub open spec fn density_tree(value: Tree, report: DensityReport) -> Tree {
    Tree::Object(
        Map::empty().insert("value"@, value).insert(
            "numerator"@,
            Tree::Int(report.numerator as int),
        ).insert("denominator"@, Tree::Int(report.denominator as int)),
    )
}

/// What `run.json` says of the baseline.
pub open spec fn baseline_extras(r: Rendered) -> Seq<(Seq<char>, Tree)> {
    seq![
        ("cached"@, Tree::Bool(r.cached)),
        ("cached_baseline"@, Tree::Bool(r.cached)),
        ("scrape_slug"@, Tree::Text(r.open.slug@)),
        ("cache_path"@, Tree::Text(r.cache_shown@)),
    ]
}

/// `run.json` says of the baseline and of the density what is to be said.
pub open spec fn has_density_extras(o: Optimized) -> bool {
    let all = audit::extras_view(o.extracted.rendered.open.run.extras@);
    &&& all.len() == 6
    &&& all.take(4) == baseline_extras(o.extracted.rendered)
    &&& all[4].0 == "keyword_density"@
    &&& all[4].1 == density_tree(all[5].1, o.report)
    &&& all[5].0 == "density"@
}

// ---------------------------------------------------------------------------
// Invariants
// ---------------------------------------------------------------------------

impl Plan {
    pub open spec fn wf(self) -> bool {
        self.started_at.wf()
    }
}

impl Open {
    /// The folder is that of the plan, under the slug of the posting.
    pub open spec fn wf(self, plan: Plan) -> bool {
        &&& self.run.runs_dir@ == fs_layout::binary_child(plan.layout, "runs"@)
        &&& self.run.started_at == plan.started_at
        &&& self.run.command@ == "run"@
        &&& audit::slug_text(self.run.named_slug) == Some(self.slug@)
        &&& audit::slug_text(self.run.slug) == Some(self.slug@)
        &&& self.slug@ == slug::slug_of(self.posting.title@)
    }
}

impl Rendered {
    pub open spec fn wf(self, plan: Plan) -> bool {
        &&& self.open.wf(plan)
        &&& self.open.run.token_usage_total == self.open.scrape_usage
        &&& audit::extras_view(self.open.run.extras@) == baseline_extras(self)
    }
}

impl Extracted {
    /// The tokens so far are those of the scrape and of the extraction.
    pub open spec fn tokens(self) -> TokenUsage {
        self.rendered.open.scrape_usage.sum(self.keywords.usage_total)
    }

    pub open spec fn wf(self, plan: Plan) -> bool {
        &&& self.rendered.open.wf(plan)
        &&& self.rendered.open.scrape_usage.fits(self.keywords.usage_total)
        &&& self.rendered.open.run.token_usage_total == self.tokens()
        &&& audit::extras_view(self.rendered.open.run.extras@) == baseline_extras(self.rendered)
        &&& self.keywords.markdown@ == keywords::markdown_view(self.keywords.set)
    }
}

impl Optimized {
    /// The run folder.
    pub open spec fn run(self) -> RunFolder {
        self.extracted.rendered.open.run
    }

    /// The slug of the run.
    pub open spec fn run_slug(self) -> Seq<char> {
        self.extracted.rendered.open.slug@
    }

    /// Everything but the extras.
    pub open spec fn wf(self, plan: Plan) -> bool {
        &&& self.extracted.rendered.open.wf(plan)
        &&& self.extracted.rendered.open.scrape_usage.fits(self.extracted.keywords.usage_total)
        &&& self.extracted.tokens().fits(self.usage)
        &&& self.run().token_usage_total == self.extracted.tokens().sum(self.usage)
        &&& self.extracted.keywords.markdown@ == keywords::markdown_view(
            self.extracted.keywords.set,
        )
        &&& self.report.numerator == density::matches_of(
            density::distinct(self.extracted.keywords.set.terms()),
            self.markdown@,
        )
        &&& self.report.denominator == density::word_count(self.markdown@) as u32
    }

    /// The final Markdown.
    pub open spec fn final_md(self, plan: Plan) -> PathModel {
        run_file(self.run(), final_name(plan.started_at, self.run_slug()) + ".md"@)
    }

    /// The final PDF.
    pub open spec fn final_pdf(self, plan: Plan) -> PathModel {
        run_file(self.run(), final_name(plan.started_at, self.run_slug()) + ".pdf"@)
    }

    /// The copy of the PDF in the output directory.
    pub open spec fn output_pdf(self, plan: Plan) -> PathModel {
        fs_layout::binary_child(plan.layout, "output"@).child(
            final_name(plan.started_at, self.run_slug()) + ".pdf"@,
        )
    }

    /// The copy while it is written.
    pub open spec fn output_tmp(self, plan: Plan) -> PathModel {
        fs_layout::binary_child(plan.layout, "output"@).child(
            ".tmp_"@ + final_name(plan.started_at, self.run_slug()) + ".pdf"@,
        )
    }
}

impl Pipeline {
    /// The invariant of a run.
    pub open spec fn wf(self) -> bool {
        let plan = self.plan;
        &&& plan.wf()
        &&& match self.progress {
            Progress::Fetching => true,
            Progress::Scraping => true,
            Progress::Draining(_) => true,
            Progress::Creating { open, records } => open.wf(plan) && open.run.extras@.len() == 0
                && open.run.token_usage_total == TokenUsage::none(),
            Progress::PostingJson { open, records } => open.wf(plan) && open.run.extras@.len() == 0
                && open.run.token_usage_total == open.scrape_usage,
            Progress::PostingMd { open, records } => open.wf(plan) && open.run.extras@.len() == 0
                && open.run.token_usage_total == open.scrape_usage,
            Progress::Building(open) => open.wf(plan) && open.run.extras@.len() == 0
                && open.run.token_usage_total == open.scrape_usage,
            Progress::Loading(open) => open.wf(plan) && open.run.extras@.len() == 0
                && open.run.token_usage_total == open.scrape_usage,
            Progress::Storing { open, baseline, cache_shown } => open.wf(plan)
                && open.run.extras@.len() == 0 && open.run.token_usage_total == open.scrape_usage,
            Progress::BaselineMd(r) => r.wf(plan),
            Progress::Extracting { rendered, extraction } => rendered.wf(plan) && extraction.wf(),
            Progress::KeywordsJson(e) => e.wf(plan),
            Progress::KeywordsMd(e) => e.wf(plan),
            Progress::Optimizing(e) => e.wf(plan),
            Progress::Measuring(o) => o.wf(plan) && audit::extras_view(o.run().extras@)
                == baseline_extras(o.extracted.rendered),
            Progress::OptimizedMd(o) => o.wf(plan) && has_density_extras(o),
            Progress::FinalMd(o) => o.wf(plan) && has_density_extras(o),
            Progress::Pdf(o) => o.wf(plan) && has_density_extras(o),
            Progress::PdfCheck(o) => o.wf(plan) && has_density_extras(o),
            Progress::OutputDir(o) => o.wf(plan) && has_density_extras(o),
            Progress::Copying(o) => o.wf(plan) && has_density_extras(o),
            Progress::Renaming(o) => o.wf(plan) && has_density_extras(o),
        }
    }

    /// The event is one that the run waits for, and its tokens can be added to
    /// those of the run.
    pub open spec fn awaits(self, event: Event) -> bool {
        match self.progress {
            Progress::Fetching => event is Page,
            Progress::Scraping => event is Reply,
            Progress::Draining(_) => event is Audit,
            Progress::Creating { open, records } => event is Done,
            Progress::PostingJson { open, records } => event is Done,
            Progress::PostingMd { open, records } => event is Done,
            Progress::Building(_) => event is Built,
            Progress::Loading(_) => event is Stored,
            Progress::Storing { open, baseline, cache_shown } => event is Done,
            Progress::BaselineMd(_) => event is Done,
            Progress::Extracting { rendered, extraction } => event matches Event::Reply {
                reply,
                timestamp,
            } && (reply matches Ok(response) ==> extraction.usage_total.fits(response.usage)
                && rendered.open.run.token_usage_total.fits(
                extraction.usage_total.sum(response.usage),
            )),
            Progress::KeywordsJson(_) => event is KeywordsWritten,
            Progress::KeywordsMd(_) => event is Done,
            Progress::Optimizing(e) => event matches Event::Reply { reply, timestamp } && (reply
                matches Ok(response) ==> e.rendered.open.run.token_usage_total.fits(
                response.usage,
            )),
            Progress::Measuring(_) => event is Density,
            Progress::OptimizedMd(_) => event is Done,
            Progress::FinalMd(_) => event is Done,
            Progress::Pdf(_) => event is Pdf,
            Progress::PdfCheck(_) => event is Exists,
            Progress::OutputDir(_) => event is Done,
            Progress::Copying(_) => event is Done,
            Progress::Renaming(_) => event is Done,
        }
    }

    /// The action is the one that brings the event that the run waits for.
    pub open spec fn wants(self, action: Action) -> bool {
        let plan = self.plan;
        match self.progress {
            Progress::Fetching => action matches Action::FetchHtml { url, idle_timeout_ms } && url@
                == plan.input.url@ && idle_timeout_ms == plan.config.scrape.network_idle_timeout_ms,
            Progress::Scraping => action is AskScrape,
            Progress::Draining(_) => action is TakeAudit,
            Progress::Creating { open, records } => action matches Action::CreateFolder {
                dirs,
                path,
            } && {
                &&& dirs@.len() == 3
                &&& dirs@[0]@ == fs_layout::binary_child(plan.layout, "cache"@)
                &&& dirs@[1]@ == fs_layout::binary_child(plan.layout, "runs"@)
                &&& dirs@[2]@ == fs_layout::binary_child(plan.layout, "output"@)
                &&& path@ == open.run.path_spec()
            },
            Progress::PostingJson { open, records } => writes(
                action,
                run_file(open.run, "posting.json"@),
                json::json_pretty(posting_tree(open.posting)),
            ),
            Progress::PostingMd { open, records } => writes(
                action,
                run_file(open.run, "posting.md"@),
                open.posting.markdown@,
            ),
            Progress::Building(open) => action matches Action::BuildStages { dir, records } && dir@
                == open.run.path_spec(),
            Progress::Loading(open) => action matches Action::LoadCache { path } && path@
                == cache::cache_file(plan.layout, plan.input.yaml_bytes@),
            Progress::Storing { open, baseline, cache_shown } => action
                matches Action::StoreCache(w) && {
                &&& w.content@ == baseline@
                &&& w.path@ == cache::cache_file(plan.layout, plan.input.yaml_bytes@)
                &&& w.dir@ == fs_layout::binary_child(plan.layout, "cache"@)
                &&& w.temporary@ == cache::temporary_file(plan.layout, plan.input.yaml_bytes@)
            },
            Progress::BaselineMd(r) => writes(
                action,
                run_file(r.open.run, "baseline.md"@),
                r.baseline@,
            ),
            Progress::Extracting { rendered, extraction } => action
                matches Action::AskKeywords { record, request } && extraction.is_request(request),
            Progress::KeywordsJson(e) => action matches Action::WriteKeywords { path } && path@
                == run_file(e.rendered.open.run, "keywords.json"@),
            Progress::KeywordsMd(e) => writes(
                action,
                run_file(e.rendered.open.run, "keywords.md"@),
                e.keywords.markdown@,
            ),
            Progress::Optimizing(e) => action matches Action::AskOptimize(request)
                && optimize::is_request(
                e.rendered.baseline@,
                e.keywords.markdown@,
                plan.config.models.resume_optimization,
                request,
            ),
            Progress::Measuring(o) => action == Action::ReportDensity(o.report),
            Progress::OptimizedMd(o) => writes(
                action,
                run_file(o.run(), "optimized.md"@),
                o.markdown@,
            ),
            Progress::FinalMd(o) => writes(action, o.final_md(plan), o.markdown@),
            Progress::Pdf(o) => action matches Action::RenderPdf { markdown, path } && markdown@
                == o.markdown@ && path@ == o.final_pdf(plan),
            Progress::PdfCheck(o) => action matches Action::CheckFile { path } && path@
                == o.final_pdf(plan),
            Progress::OutputDir(o) => action matches Action::CreateDir { path } && path@
                == fs_layout::binary_child(plan.layout, "output"@),
            Progress::Copying(o) => action matches Action::CopyFile { from, to } && from@
                == o.final_pdf(plan) && to@ == o.output_tmp(plan),
            Progress::Renaming(o) => action matches Action::RenameFile { from, to } && from@
                == o.output_tmp(plan) && to@ == o.output_pdf(plan),
        }
    }

    /// The run goes on with the same plan, and with the action for its progress.
    pub open spec fn goes_on(self, step: Step) -> bool {
        step matches Step::Next { pipeline, action } && pipeline.plan == self.plan
            && pipeline.wf() && pipeline.wants(action)
    }
}

/// The action writes a text to a file.
pub open spec fn writes(action: Action, path: PathModel, content: Seq<char>) -> bool {
    action matches Action::WriteFile { path: p, content: c } && p@ == path && c@ == content
}

/// The progress of a run that goes on.
pub open spec fn progress_of(step: Step) -> Progress {
    step->Next_pipeline.progress
}

/// The failure before there was a run folder, where the step is one.
pub open spec fn early(step: Step) -> Option<AtsError> {
    match step {
        Step::Failed { error: RunPipelineError::Early(e), record: None, cleanup: None } => Some(e),
        _ => None,
    }
}

/// The failure that leaves this run folder, where the step is one, with nothing
/// else to do.
pub open spec fn late(step: Step, folder: RunFolder) -> Option<AtsError> {
    match step {
        Step::Failed {
            error: RunPipelineError::Late { run, err },
            record: None,
            cleanup: None,
        } => if run == folder {
            Some(err)
        } else {
            None
        },
        _ => None,
    }
}

// ---------------------------------------------------------------------------
// Steps
// ---------------------------------------------------------------------------

/// `b` is `a` but for the extra members of its `run.json`.
pub open spec fn carried(a: Open, b: Open) -> bool {
    &&& b.posting == a.posting
    &&& b.slug == a.slug
    &&& b.scrape_usage == a.scrape_usage
    &&& b.run.runs_dir == a.run.runs_dir
    &&& b.run.started_at == a.run.started_at
    &&& b.run.command == a.run.command
    &&& b.run.named_slug == a.run.named_slug
    &&& b.run.slug == a.run.slug
    &&& b.run.args_summary == a.run.args_summary
    &&& b.run.config_snapshot == a.run.config_snapshot
    &&& b.run.token_usage_total == a.run.token_usage_total
}

/// The run with these tokens in all.
pub open spec fn with_tokens(open: Open, total: TokenUsage) -> Open {
    Open { run: RunFolder { token_usage_total: total, ..open.run }, ..open }
}

/// A rendered run with these tokens in all.
pub open spec fn rendered_with_tokens(r: Rendered, total: TokenUsage) -> Rendered {
    Rendered { open: with_tokens(r.open, total), ..r }
}

/// The step ends the run, and the result names what it has produced.
pub open spec fn finishes(step: Step, o: Optimized, plan: Plan) -> bool {
    step matches Step::Finished { run, result } && {
        &&& run == o.run()
        &&& result.run_dir@ == o.run().path_spec()
        &&& result.ts_prefix@ == audit::compact_time(plan.started_at)
        &&& result.slug@ == o.run_slug()
        &&& result.final_md@ == o.final_md(plan)
        &&& result.final_pdf@ == o.final_pdf(plan)
        &&& result.output_pdf@ == o.output_pdf(plan)
        &&& result.cached_baseline == o.extracted.rendered.cached
        &&& result.total_tokens == o.run().token_usage_total
    }
}

impl Pipeline {
    /// A file operation succeeds and the run goes on, or fails the run.
    pub open spec fn after_write(
        self,
        result: Result<(), String>,
        folder: RunFolder,
        next: Progress,
        step: Step,
    ) -> bool {
        match result {
            Err(m) => late(step, folder) == Some(AtsError::Io(m)),
            Ok(_) => self.goes_on(step) && progress_of(step) == next,
        }
    }

    /// A reply to the keyword request.
    pub open spec fn after_keywords(
        self,
        rendered: Rendered,
        extraction: KeywordExtraction,
        response: LlmResponse,
        timestamp: Seq<char>,
        step: Step,
    ) -> bool {
        match keywords::content_problem(response.content@) {
            None => {
                &&& self.goes_on(step)
                &&& progress_of(step) matches Progress::KeywordsJson(x)
                &&& <KeywordSet as crate::decode::Decode>::decodes(
                    json::json_parsed(response.content@)->Ok_0,
                    x.keywords.set,
                )
                &&& x.keywords.usage_total == extraction.usage_total.sum(response.usage)
                &&& x.rendered == rendered_with_tokens(
                    rendered,
                    rendered.open.run.token_usage_total.sum(x.keywords.usage_total),
                )
            },
            Some(reason) => if extraction.attempt < extraction.max_attempts {
                &&& self.goes_on(step)
                &&& progress_of(step) matches Progress::Extracting { rendered: r, extraction: next }
                &&& r == rendered
                &&& extraction.followed_by(next, response.usage)
                &&& step->Next_action matches Action::AskKeywords { record: Some(rec), request }
                &&& keywords::is_invalid_record(rec, extraction, response, reason, timestamp)
            } else {
                step matches Step::Failed {
                    error: RunPipelineError::Late { run, err },
                    record: Some(rec),
                    cleanup: None,
                } && {
                    &&& run == rendered.open.run
                    &&& err matches AtsError::SchemaInvalid(m) && m@ == keywords::exhausted_message(
                        extraction.max_attempts,
                        reason,
                        response.content@,
                    )
                    &&& keywords::is_invalid_record(rec, extraction, response, reason, timestamp)
                }
            },
        }
    }

    /// The extraction begins, or cannot begin.
    pub open spec fn after_baseline(self, r: Rendered, step: Step) -> bool {
        let max = self.plan.config.retries.schema_validation_max_attempts;
        if max == 0 {
            late(step, r.open.run) matches Some(AtsError::Other(m)) && m@
                == "schema_validation_max_attempts must be >= 1"@
        } else {
            match crate::schema::keyword_format() {
                Err(cause) => late(step, r.open.run) matches Some(AtsError::Other(m)) && m@
                    == "keyword schema: "@ + cause,
                Ok(format) => {
                    &&& self.goes_on(step)
                    &&& progress_of(step) matches Progress::Extracting { rendered, extraction }
                    &&& rendered == r
                    &&& extraction.posting_md@ == r.open.posting.markdown@
                    &&& self.plan.config.models.keyword_extraction.same(extraction.model)
                    &&& json::json_tree(extraction.response_format) == format
                    &&& extraction.max_attempts == max
                    &&& extraction.attempt == 1
                    &&& extraction.usage_total == TokenUsage::none()
                    &&& step->Next_action matches Action::AskKeywords { record: None, request }
                },
            }
        }
    }

    /// What comes after an event that the run waits for.
    pub open spec fn leads_to(self, event: Event, step: Step) -> bool {
        match (self.progress, event) {
            (Progress::Fetching, Event::Page(Err(e))) => early(step) == Some(scrape::page_error(e)),
            (Progress::Fetching, Event::Page(Ok(html))) => match crate::schema::scrape_format() {
                Err(cause) => early(step) matches Some(AtsError::Other(m)) && m@
                    == "posting schema: "@ + cause,
                Ok(_) => {
                    &&& self.goes_on(step)
                    &&& progress_of(step) is Scraping
                    &&& step->Next_action matches Action::AskScrape(q)
                    &&& scrape::is_request(html@, self.plan.config.models.scrape_to_markdown, q)
                },
            },
            (Progress::Scraping, Event::Reply { reply, timestamp }) => match step {
                Step::Next { pipeline, action } => {
                    &&& self.goes_on(step)
                    &&& pipeline.progress matches Progress::Draining(o)
                    &&& scrape::is_outcome(reply, Ok::<ScrapeStageOutcome, AtsError>(o))
                },
                Step::Failed { error, record, cleanup } => {
                    &&& early(step) matches Some(e)
                    &&& scrape::is_outcome(reply, Err::<ScrapeStageOutcome, AtsError>(e))
                },
                Step::Finished { run, result } => false,
            },
            (Progress::Draining(o), Event::Audit(Err(m))) => early(step) == Some(AtsError::Io(m)),
            (Progress::Draining(o), Event::Audit(Ok(drained))) => {
                &&& self.goes_on(step)
                &&& progress_of(step) matches Progress::Creating { open, records }
                &&& records == drained
                &&& open.posting == o.posting
                &&& open.scrape_usage == o.usage
            },
            (Progress::Creating { open, records }, Event::Done(Err(m))) => early(step) == Some(
                AtsError::Io(m),
            ),
            (Progress::Creating { open, records }, Event::Done(Ok(_))) => {
                &&& self.goes_on(step)
                &&& progress_of(step) == (Progress::PostingJson {
                    open: with_tokens(open, open.scrape_usage),
                    records,
                })
            },
            (Progress::PostingJson { open, records }, Event::Done(result)) => self.after_write(
                result,
                open.run,
                Progress::PostingMd { open, records },
                step,
            ),
            (Progress::PostingMd { open, records }, Event::Done(result)) => {
                &&& self.after_write(result, open.run, Progress::Building(open), step)
                &&& result is Ok ==> (step->Next_action matches Action::BuildStages {
                    dir,
                    records: handed,
                } && handed == records)
            },
            (Progress::Building(open), Event::Built(Err(e))) => late(step, open.run) == Some(e),
            (Progress::Building(open), Event::Built(Ok(_))) => self.goes_on(step) && progress_of(
                step,
            ) == Progress::Loading(open),
            (Progress::Loading(open), Event::Stored { stored: Err(m), shown }) => late(
                step,
                open.run,
            ) == Some(AtsError::Io(m)),
            (Progress::Loading(open), Event::Stored { stored: Ok(Some(c)), shown }) => {
                &&& self.goes_on(step)
                &&& progress_of(step) matches Progress::BaselineMd(r)
                &&& carried(open, r.open)
                &&& r.baseline@ == c@
                &&& r.cached
                &&& r.cache_shown@ == shown@
            },
            (Progress::Loading(open), Event::Stored { stored: Ok(None), shown }) => {
                &&& self.goes_on(step)
                &&& progress_of(step) matches Progress::Storing { open: o, baseline, cache_shown }
                &&& o == open
                &&& baseline@ == crate::render::markdown::baseline(self.plan.input.resume)
                &&& cache_shown@ == shown@
            },
            (Progress::Storing { open, baseline, cache_shown }, Event::Done(Err(m))) => late(
                step,
                open.run,
            ) == Some(AtsError::Io(m)),
            (Progress::Storing { open, baseline, cache_shown }, Event::Done(Ok(_))) => {
                &&& self.goes_on(step)
                &&& progress_of(step) matches Progress::BaselineMd(r)
                &&& carried(open, r.open)
                &&& r.baseline == baseline
                &&& !r.cached
                &&& r.cache_shown == cache_shown
            },
            (Progress::BaselineMd(r), Event::Done(Err(m))) => late(step, r.open.run) == Some(
                AtsError::Io(m),
            ),
            (Progress::BaselineMd(r), Event::Done(Ok(_))) => self.after_baseline(r, step),
            (
                Progress::Extracting { rendered, extraction },
                Event::Reply { reply: Err(e), timestamp },
            ) => late(step, rendered.open.run) matches Some(AtsError::Llm(c)) && e.class_of(c),
            (
                Progress::Extracting { rendered, extraction },
                Event::Reply { reply: Ok(response), timestamp },
            ) => self.after_keywords(rendered, extraction, response, timestamp@, step),
            (Progress::KeywordsJson(e), Event::KeywordsWritten(Err(err))) => late(
                step,
                e.rendered.open.run,
            ) == Some(err),
            (Progress::KeywordsJson(e), Event::KeywordsWritten(Ok(_))) => self.goes_on(step)
                && progress_of(step) == Progress::KeywordsMd(e),
            (Progress::KeywordsMd(e), Event::Done(result)) => self.after_write(
                result,
                e.rendered.open.run,
                Progress::Optimizing(e),
                step,
            ),
            (Progress::Optimizing(e), Event::Reply { reply: Err(err), timestamp }) => late(
                step,
                e.rendered.open.run,
            ) matches Some(AtsError::Llm(c)) && err.class_of(c),
            (Progress::Optimizing(e), Event::Reply { reply: Ok(response), timestamp }) => {
                &&& self.goes_on(step)
                &&& progress_of(step) matches Progress::Measuring(o)
                &&& o.markdown == response.content
                &&& o.usage == response.usage
                &&& o.extracted == (Extracted {
                    rendered: rendered_with_tokens(
                        e.rendered,
                        e.rendered.open.run.token_usage_total.sum(response.usage),
                    ),
                    ..e
                })
            },
            (Progress::Measuring(o), Event::Density(value)) => {
                &&& self.goes_on(step)
                &&& progress_of(step) matches Progress::OptimizedMd(n)
                &&& n.markdown == o.markdown
                &&& n.usage == o.usage
                &&& n.report == o.report
                &&& n.extracted.keywords == o.extracted.keywords
                &&& n.extracted.rendered.baseline == o.extracted.rendered.baseline
                &&& n.extracted.rendered.cached == o.extracted.rendered.cached
                &&& n.extracted.rendered.cache_shown == o.extracted.rendered.cache_shown
                &&& carried(o.extracted.rendered.open, n.extracted.rendered.open)
                &&& audit::extras_view(n.run().extras@)[5].1 == json::json_tree(value)
            },
            (Progress::OptimizedMd(o), Event::Done(result)) => self.after_write(
                result,
                o.run(),
                Progress::FinalMd(o),
                step,
            ),
            (Progress::FinalMd(o), Event::Done(result)) => self.after_write(
                result,
                o.run(),
                Progress::Pdf(o),
                step,
            ),
            (Progress::Pdf(o), Event::Pdf(Err(e))) => late(step, o.run()) matches Some(
                AtsError::Pdf(m),
            ) && m@ == e.text(),
            (Progress::Pdf(o), Event::Pdf(Ok(_))) => self.goes_on(step) && progress_of(step)
                == Progress::PdfCheck(o),
            (Progress::PdfCheck(o), Event::Exists(found)) => if found {
                self.goes_on(step) && progress_of(step) == Progress::OutputDir(o)
            } else {
                late(step, o.run()) matches Some(AtsError::Pdf(m)) && m@
                    == "pdf output missing after render"@
            },
            (Progress::OutputDir(o), Event::Done(result)) => self.after_write(
                result,
                o.run(),
                Progress::Copying(o),
                step,
            ),
            (Progress::Copying(o), Event::Done(result)) => self.after_write(
                result,
                o.run(),
                Progress::Renaming(o),
                step,
            ),
            (Progress::Renaming(o), Event::Done(Err(m))) => step matches Step::Failed {
                error: RunPipelineError::Late { run, err },
                record: None,
                cleanup: Some(path),
            } && run == o.run() && err == AtsError::Io(m) && path@ == o.output_tmp(self.plan),
            (Progress::Renaming(o), Event::Done(Ok(_))) => finishes(step, o, self.plan),
            _ => true,
        }
    }
}

fn fail_early(e: AtsError) -> (r: Step)
    ensures
        early(r) == Some(e),
{
    Step::Failed { error: RunPipelineError::Early(e), record: None, cleanup: None }
}

fn fail_late(run: RunFolder, e: AtsError) -> (r: Step)
    ensures
        late(r, run) == Some(e),
{
    Step::Failed { error: RunPipelineError::Late { run, err: e }, record: None, cleanup: None }
}

fn write_action(run: &RunFolder, name: &str, content: &str) -> (r: Action)
    requires
        run.started_at.wf(),
    ensures
        writes(r, run_file(*run, name@), content@),
{
    Action::WriteFile { path: run.path().join(name), content: content.to_string() }
}

fn go_on(plan: Plan, progress: Progress, action: Action) -> (r: Step)
    ensures
        r == (Step::Next { pipeline: Pipeline { plan, progress }, action }),
{
    Step::Next { pipeline: Pipeline { plan, progress }, action }
}

fn after_page(plan: Plan, page: Result<String, ScrapeError>) -> (r: Step)
    requires
        plan.wf(),
    ensures
        (Pipeline { plan, progress: Progress::Fetching }).leads_to(Event::Page(page), r),
{
    match scrape::on_page(page, &plan.config.models.scrape_to_markdown) {
        Err(e) => fail_early(e),
        Ok(request) => go_on(plan, Progress::Scraping, Action::AskScrape(request)),
    }
}

fn after_scrape_reply(plan: Plan, reply: Result<LlmResponse, LlmError>, timestamp: String) -> (r:
    Step)
    requires
        plan.wf(),
    ensures
        (Pipeline { plan, progress: Progress::Scraping }).leads_to(
            Event::Reply { reply, timestamp },
            r,
        ),
{
    match scrape::on_reply(reply) {
        Err(e) => fail_early(e),
        Ok(outcome) => go_on(plan, Progress::Draining(outcome), Action::TakeAudit),
    }
}

fn after_audit(
    plan: Plan,
    outcome: ScrapeStageOutcome,
    audit: Result<Vec<LlmCallRecord>, String>,
) -> (r: Step)
    requires
        plan.wf(),
    ensures
        (Pipeline { plan, progress: Progress::Draining(outcome) }).leads_to(
            Event::Audit(audit),
            r,
        ),
{
    match audit {
        Err(m) => fail_early(AtsError::Io(m)),
        Ok(records) => {
            let slug = slug::sanitize_title(outcome.posting.title.as_str());
            let run = RunFolder::new_with_started_at(
                &plan.layout,
                plan.started_at,
                "run",
                Some(slug.as_str()),
            );
            let dirs = plan.layout.required_dirs();
            let path = run.path();
            let open = Open {
                run,
                posting: outcome.posting,
                slug,
                scrape_usage: outcome.usage,
            };
            go_on(
                plan,
                Progress::Creating { open, records },
                Action::CreateFolder { dirs, path },
            )
        },
    }
}

fn posting_value(p: &JobPosting) -> (r: Value)
    ensures
        json::json_tree(r) == posting_tree(*p),
{
    let mut out = json::empty_object();
    json::insert_member(&mut out, "title", json::text_value(p.title.as_str()));
    json::insert_member(&mut out, "markdown", json::text_value(p.markdown.as_str()));
    out
}

fn after_create(
    plan: Plan,
    open: Open,
    records: Vec<LlmCallRecord>,
    result: Result<(), String>,
) -> (r: Step)
    requires
        (Pipeline { plan, progress: Progress::Creating { open, records } }).wf(),
    ensures
        (Pipeline { plan, progress: Progress::Creating { open, records } }).leads_to(
            Event::Done(result),
            r,
        ),
{
    match result {
        Err(m) => fail_early(AtsError::Io(m)),
        Ok(_) => {
            let mut open = open;
            open.run.add_token_usage(&open.scrape_usage);
            let content = json::pretty_text(&posting_value(&open.posting));
            let action = write_action(&open.run, "posting.json", content.as_str());
            go_on(plan, Progress::PostingJson { open, records }, action)
        },
    }
}

fn after_posting_json(
    plan: Plan,
    open: Open,
    records: Vec<LlmCallRecord>,
    result: Result<(), String>,
) -> (r: Step)
    requires
        (Pipeline { plan, progress: Progress::PostingJson { open, records } }).wf(),
    ensures
        (Pipeline { plan, progress: Progress::PostingJson { open, records } }).leads_to(
            Event::Done(result),
            r,
        ),
{
    match result {
        Err(m) => fail_late(open.run, AtsError::Io(m)),
        Ok(_) => {
            let action = write_action(&open.run, "posting.md", open.posting.markdown.as_str());
            go_on(plan, Progress::PostingMd { open, records }, action)
        },
    }
}

fn after_posting_md(
    plan: Plan,
    open: Open,
    records: Vec<LlmCallRecord>,
    result: Result<(), String>,
) -> (r: Step)
    requires
        (Pipeline { plan, progress: Progress::PostingMd { open, records } }).wf(),
    ensures
        (Pipeline { plan, progress: Progress::PostingMd { open, records } }).leads_to(
            Event::Done(result),
            r,
        ),
{
    match result {
        Err(m) => fail_late(open.run, AtsError::Io(m)),
        Ok(_) => {
            let dir = open.run.path();
            go_on(plan, Progress::Building(open), Action::BuildStages { dir, records })
        },
    }
}

fn after_build(plan: Plan, open: Open, built: Result<(), AtsError>) -> (r: Step)
    requires
        (Pipeline { plan, progress: Progress::Building(open) }).wf(),
    ensures
        (Pipeline { plan, progress: Progress::Building(open) }).leads_to(Event::Built(built), r),
{
    match built {
        Err(e) => fail_late(open.run, e),
        Ok(_) => {
            let path = cache::cache_path(&plan.layout, plan.input.yaml_bytes.as_slice());
            go_on(plan, Progress::Loading(open), Action::LoadCache { path })
        },
    }
}

/// Notes in `run.json` what is to be said of the baseline.
fn with_baseline(open: Open, baseline: String, cached: bool, cache_shown: String) -> (r: Rendered)
    requires
        open.run.extras@.len() == 0,
    ensures
        carried(open, r.open),
        r.baseline == baseline,
        r.cached == cached,
        r.cache_shown == cache_shown,
        audit::extras_view(r.open.run.extras@) == baseline_extras(r),
{
    let mut open = open;
    assert(audit::extras_view(open.run.extras@) =~= Seq::empty());
    open.run.set_extra("cached", json::bool_value(cached));
    open.run.set_extra("cached_baseline", json::bool_value(cached));
    open.run.set_extra("scrape_slug", json::text_value(open.slug.as_str()));
    open.run.set_extra("cache_path", json::text_value(cache_shown.as_str()));
    let r = Rendered { open, baseline, cached, cache_shown };
    assert(audit::extras_view(r.open.run.extras@) =~= baseline_extras(r));
    r
}

fn after_load(plan: Plan, open: Open, stored: Result<Option<String>, String>, shown: String) -> (r:
    Step)
    requires
        (Pipeline { plan, progress: Progress::Loading(open) }).wf(),
    ensures
        (Pipeline { plan, progress: Progress::Loading(open) }).leads_to(
            Event::Stored { stored, shown },
            r,
        ),
{
    match stored {
        Err(m) => fail_late(open.run, AtsError::Io(m)),
        Ok(content) => {
            let (result, write) = cache::load_or_render(
                &plan.layout,
                plan.input.yaml_bytes.as_slice(),
                &plan.input.resume,
                content,
            );
            match write {
                None => {
                    let rendered = with_baseline(open, result.content, true, shown);
                    let action = write_action(
                        &rendered.open.run,
                        "baseline.md",
                        rendered.baseline.as_str(),
                    );
                    go_on(plan, Progress::BaselineMd(rendered), action)
                },
                Some(w) => {
                    let progress = Progress::Storing {
                        open,
                        baseline: result.content,
                        cache_shown: shown,
                    };
                    go_on(plan, progress, Action::StoreCache(w))
                },
            }
        },
    }
}

fn after_store(
    plan: Plan,
    open: Open,
    baseline: String,
    cache_shown: String,
    result: Result<(), String>,
) -> (r: Step)
    requires
        (Pipeline { plan, progress: Progress::Storing { open, baseline, cache_shown } }).wf(),
    ensures
        (Pipeline { plan, progress: Progress::Storing { open, baseline, cache_shown } }).leads_to(
            Event::Done(result),
            r,
        ),
{
    match result {
        Err(m) => fail_late(open.run, AtsError::Io(m)),
        Ok(_) => {
            let rendered = with_baseline(open, baseline, false, cache_shown);
            let action = write_action(
                &rendered.open.run,
                "baseline.md",
                rendered.baseline.as_str(),
            );
            go_on(plan, Progress::BaselineMd(rendered), action)
        },
    }
}

fn after_baseline_md(plan: Plan, rendered: Rendered, result: Result<(), String>) -> (r: Step)
    requires
        (Pipeline { plan, progress: Progress::BaselineMd(rendered) }).wf(),
    ensures
        (Pipeline { plan, progress: Progress::BaselineMd(rendered) }).leads_to(
            Event::Done(result),
            r,
        ),
{
    if let Err(m) = result {
        return fail_late(rendered.open.run, AtsError::Io(m));
    }
    let started = KeywordExtraction::start(
        rendered.open.posting.markdown.as_str(),
        &plan.config.models.keyword_extraction,
        plan.config.retries.schema_validation_max_attempts,
    );
    match started {
        Err(e) => fail_late(rendered.open.run, e),
        Ok(extraction) => {
            let request = extraction.request();
            go_on(
                plan,
                Progress::Extracting { rendered, extraction },
                Action::AskKeywords { record: None, request },
            )
        },
    }
}

fn after_keyword_reply(
    plan: Plan,
    rendered: Rendered,
    extraction: KeywordExtraction,
    reply: Result<LlmResponse, LlmError>,
    timestamp: String,
) -> (r: Step)
    requires
        (Pipeline { plan, progress: Progress::Extracting { rendered, extraction } }).wf(),
        (Pipeline { plan, progress: Progress::Extracting { rendered, extraction } }).awaits(
            Event::Reply { reply, timestamp },
        ),
    ensures
        (Pipeline { plan, progress: Progress::Extracting { rendered, extraction } }).leads_to(
            Event::Reply { reply, timestamp },
            r,
        ),
{
    match extraction.on_reply(reply, timestamp) {
        KeywordStep::Failed { error, record } => Step::Failed {
            error: RunPipelineError::Late { run: rendered.open.run, err: error },
            record,
            cleanup: None,
        },
        KeywordStep::Retry { next, record } => {
            let request = next.request();
            go_on(
                plan,
                Progress::Extracting { rendered, extraction: next },
                Action::AskKeywords { record: Some(record), request },
            )
        },
        KeywordStep::Done(outcome) => {
            let mut rendered = rendered;
            rendered.open.run.add_token_usage(&outcome.usage_total);
            let path = rendered.open.run.path().join("keywords.json");
            go_on(
                plan,
                Progress::KeywordsJson(Extracted { rendered, keywords: outcome }),
                Action::WriteKeywords { path },
            )
        },
    }
}

fn after_keywords_json(plan: Plan, e: Extracted, written: Result<(), AtsError>) -> (r: Step)
    requires
        (Pipeline { plan, progress: Progress::KeywordsJson(e) }).wf(),
    ensures
        (Pipeline { plan, progress: Progress::KeywordsJson(e) }).leads_to(
            Event::KeywordsWritten(written),
            r,
        ),
{
    match written {
        Err(err) => fail_late(e.rendered.open.run, err),
        Ok(_) => {
            let action = write_action(
                &e.rendered.open.run,
                "keywords.md",
                e.keywords.markdown.as_str(),
            );
            go_on(plan, Progress::KeywordsMd(e), action)
        },
    }
}

fn after_keywords_md(plan: Plan, e: Extracted, result: Result<(), String>) -> (r: Step)
    requires
        (Pipeline { plan, progress: Progress::KeywordsMd(e) }).wf(),
    ensures
        (Pipeline { plan, progress: Progress::KeywordsMd(e) }).leads_to(Event::Done(result), r),
{
    match result {
        Err(m) => fail_late(e.rendered.open.run, AtsError::Io(m)),
        Ok(_) => {
            let request = optimize::request(
                e.rendered.baseline.as_str(),
                e.keywords.markdown.as_str(),
                &plan.config.models.resume_optimization,
            );
            go_on(plan, Progress::Optimizing(e), Action::AskOptimize(request))
        },
    }
}

fn after_optimize_reply(
    plan: Plan,
    e: Extracted,
    reply: Result<LlmResponse, LlmError>,
    timestamp: String,
) -> (r: Step)
    requires
        (Pipeline { plan, progress: Progress::Optimizing(e) }).wf(),
        (Pipeline { plan, progress: Progress::Optimizing(e) }).awaits(
            Event::Reply { reply, timestamp },
        ),
    ensures
        (Pipeline { plan, progress: Progress::Optimizing(e) }).leads_to(
            Event::Reply { reply, timestamp },
            r,
        ),
{
    match optimize::on_reply(reply) {
        Err(err) => fail_late(e.rendered.open.run, err),
        Ok(outcome) => {
            let mut e = e;
            e.rendered.open.run.add_token_usage(&outcome.usage);
            let report = density::measure(outcome.markdown.as_str(), &e.keywords.set);
            let o = Optimized {
                extracted: e,
                markdown: outcome.markdown,
                usage: outcome.usage,
                report,
            };
            go_on(plan, Progress::Measuring(o), Action::ReportDensity(report))
        },
    }
}

pub(crate) fn density_value(value: &Value, report: &DensityReport) -> (r: Value)
    ensures
        json::json_tree(r) == density_tree(json::json_tree(*value), *report),
{
    let mut out = json::empty_object();
    json::insert_member(&mut out, "value", value.clone());
    json::insert_member(&mut out, "numerator", json::unsigned_value(report.numerator as u64));
    json::insert_member(&mut out, "denominator", json::unsigned_value(report.denominator as u64));
    out
}

fn after_density(plan: Plan, o: Optimized, value: Value) -> (r: Step)
    requires
        (Pipeline { plan, progress: Progress::Measuring(o) }).wf(),
    ensures
        (Pipeline { plan, progress: Progress::Measuring(o) }).leads_to(Event::Density(value), r),
{
    let ghost before = audit::extras_view(o.run().extras@);
    let ghost rendered = o.extracted.rendered;
    let summary = density_value(&value, &o.report);
    let mut o = o;
    o.extracted.rendered.open.run.set_extra("keyword_density", summary);
    o.extracted.rendered.open.run.set_extra("density", value);
    proof {
        let after = audit::extras_view(o.run().extras@);
        assert(before.len() == 4);
        assert(after.take(4) =~= before);
        assert(baseline_extras(o.extracted.rendered) =~= baseline_extras(rendered));
    }
    let action = write_action(
        &o.extracted.rendered.open.run,
        "optimized.md",
        o.markdown.as_str(),
    );
    go_on(plan, Progress::OptimizedMd(o), action)
}

/// The name of the final resume, without its extension.
fn final_base(plan: &Plan, o: &Optimized) -> (r: String)
    requires
        plan.wf(),
    ensures
        r@ == final_name(plan.started_at, o.run_slug()),
{
    let ts = audit::format_run_dir_ts(&plan.started_at);
    let mut out = text::concat3(ts.as_str(), "_", o.extracted.rendered.open.slug.as_str());
    out.push_str("_resume");
    out
}

fn final_path(plan: &Plan, o: &Optimized, extension: &str) -> (r: FsPath)
    requires
        plan.wf(),
        o.wf(*plan),
    ensures
        r@ == run_file(o.run(), final_name(plan.started_at, o.run_slug()) + extension@),
{
    let mut name = final_base(plan, o);
    name.push_str(extension);
    o.extracted.rendered.open.run.path().join(name.as_str())
}

fn output_path(plan: &Plan, o: &Optimized) -> (r: FsPath)
    requires
        plan.wf(),
    ensures
        r@ == o.output_pdf(*plan),
{
    let mut name = final_base(plan, o);
    name.push_str(".pdf");
    plan.layout.output_dir().join(name.as_str())
}

fn output_tmp_path(plan: &Plan, o: &Optimized) -> (r: FsPath)
    requires
        plan.wf(),
    ensures
        r@ == o.output_tmp(*plan),
{
    let base = final_base(plan, o);
    let name = text::concat3(".tmp_", base.as_str(), ".pdf");
    plan.layout.output_dir().join(name.as_str())
}

fn after_optimized_md(plan: Plan, o: Optimized, result: Result<(), String>) -> (r: Step)
    requires
        (Pipeline { plan, progress: Progress::OptimizedMd(o) }).wf(),
    ensures
        (Pipeline { plan, progress: Progress::OptimizedMd(o) }).leads_to(Event::Done(result), r),
{
    match result {
        Err(m) => fail_late(o.extracted.rendered.open.run, AtsError::Io(m)),
        Ok(_) => {
            let path = final_path(&plan, &o, ".md");
            let content = o.markdown.clone();
            go_on(plan, Progress::FinalMd(o), Action::WriteFile { path, content })
        },
    }
}

fn after_final_md(plan: Plan, o: Optimized, result: Result<(), String>) -> (r: Step)
    requires
        (Pipeline { plan, progress: Progress::FinalMd(o) }).wf(),
    ensures
        (Pipeline { plan, progress: Progress::FinalMd(o) }).leads_to(Event::Done(result), r),
{
    match result {
        Err(m) => fail_late(o.extracted.rendered.open.run, AtsError::Io(m)),
        Ok(_) => {
            let path = final_path(&plan, &o, ".pdf");
            let markdown = o.markdown.clone();
            go_on(plan, Progress::Pdf(o), Action::RenderPdf { markdown, path })
        },
    }
}

fn after_pdf(plan: Plan, o: Optimized, result: Result<(), PdfError>) -> (r: Step)
    requires
        (Pipeline { plan, progress: Progress::Pdf(o) }).wf(),
    ensures
        (Pipeline { plan, progress: Progress::Pdf(o) }).leads_to(Event::Pdf(result), r),
{
    match result {
        Err(e) => fail_late(o.extracted.rendered.open.run, AtsError::from_pdf(e)),
        Ok(_) => {
            let path = final_path(&plan, &o, ".pdf");
            go_on(plan, Progress::PdfCheck(o), Action::CheckFile { path })
        },
    }
}

fn after_check(plan: Plan, o: Optimized, found: bool) -> (r: Step)
    requires
        (Pipeline { plan, progress: Progress::PdfCheck(o) }).wf(),
    ensures
        (Pipeline { plan, progress: Progress::PdfCheck(o) }).leads_to(Event::Exists(found), r),
{
    if !found {
        return fail_late(
            o.extracted.rendered.open.run,
            AtsError::Pdf("pdf output missing after render".to_string()),
        );
    }
    let path = plan.layout.output_dir();
    go_on(plan, Progress::OutputDir(o), Action::CreateDir { path })
}

fn after_output_dir(plan: Plan, o: Optimized, result: Result<(), String>) -> (r: Step)
    requires
        (Pipeline { plan, progress: Progress::OutputDir(o) }).wf(),
    ensures
        (Pipeline { plan, progress: Progress::OutputDir(o) }).leads_to(Event::Done(result), r),
{
    match result {
        Err(m) => fail_late(o.extracted.rendered.open.run, AtsError::Io(m)),
        Ok(_) => {
            let from = final_path(&plan, &o, ".pdf");
            let to = output_tmp_path(&plan, &o);
            go_on(plan, Progress::Copying(o), Action::CopyFile { from, to })
        },
    }
}

fn after_copy(plan: Plan, o: Optimized, result: Result<(), String>) -> (r: Step)
    requires
        (Pipeline { plan, progress: Progress::Copying(o) }).wf(),
    ensures
        (Pipeline { plan, progress: Progress::Copying(o) }).leads_to(Event::Done(result), r),
{
    match result {
        Err(m) => fail_late(o.extracted.rendered.open.run, AtsError::Io(m)),
        Ok(_) => {
            let from = output_tmp_path(&plan, &o);
            let to = output_path(&plan, &o);
            go_on(plan, Progress::Renaming(o), Action::RenameFile { from, to })
        },
    }
}

fn after_rename(plan: Plan, o: Optimized, result: Result<(), String>) -> (r: Step)
    requires
        (Pipeline { plan, progress: Progress::Renaming(o) }).wf(),
    ensures
        (Pipeline { plan, progress: Progress::Renaming(o) }).leads_to(Event::Done(result), r),
{
    match result {
        Err(m) => {
            let path = output_tmp_path(&plan, &o);
            Step::Failed {
                error: RunPipelineError::Late {
                    run: o.extracted.rendered.open.run,
                    err: AtsError::Io(m),
                },
                record: None,
                cleanup: Some(path),
            }
        },
        Ok(_) => {
            let result = RunPipelineResult {
                run_dir: o.extracted.rendered.open.run.path(),
                ts_prefix: audit::format_run_dir_ts(&plan.started_at),
                slug: o.extracted.rendered.open.slug.clone(),
                final_md: final_path(&plan, &o, ".md"),
                final_pdf: final_path(&plan, &o, ".pdf"),
                output_pdf: output_path(&plan, &o),
                cached_baseline: o.extracted.rendered.cached,
                total_tokens: o.extracted.rendered.open.run.aggregated_token_usage(),
            };
            Step::Finished { run: o.extracted.rendered.open.run, result }
        },
    }
}

impl Pipeline {
    /// Begins a run: the page is to be fetched.
    pub fn start(
        input: RunPipelineInput,
        config: Config,
        started_at: Timestamp,
        layout: BinaryFsLayout,
    ) -> (r: (Pipeline, Action))
        requires
            started_at.wf(),
        ensures
            r.0.plan == (Plan { input, config, started_at, layout }),
            r.0.progress is Fetching,
            r.0.wf(),
            r.0.wants(r.1),
    {
        let action = Action::FetchHtml {
            url: input.url.clone(),
            idle_timeout_ms: config.scrape.network_idle_timeout_ms,
        };
        let plan = Plan { input, config, started_at, layout };
        (Pipeline { plan, progress: Progress::Fetching }, action)
    }

    /// Whether the event is one that the run waits for, and its tokens can be
    /// added to those of the run.
    pub fn accepts(&self, event: &Event) -> (r: bool)
        ensures
            r == self.awaits(*event),
    {
        match &self.progress {
            Progress::Fetching => match event {
                Event::Page(_) => true,
                _ => false,
            },
            Progress::Scraping => match event {
                Event::Reply { reply: _, timestamp: _ } => true,
                _ => false,
            },
            Progress::Draining(_) => match event {
                Event::Audit(_) => true,
                _ => false,
            },
            Progress::Creating { open: _, records: _ } => match event {
                Event::Done(_) => true,
                _ => false,
            },
            Progress::PostingJson { open: _, records: _ } => match event {
                Event::Done(_) => true,
                _ => false,
            },
            Progress::PostingMd { open: _, records: _ } => match event {
                Event::Done(_) => true,
                _ => false,
            },
            Progress::Building(_) => match event {
                Event::Built(_) => true,
                _ => false,
            },
            Progress::Loading(_) => match event {
                Event::Stored { stored: _, shown: _ } => true,
                _ => false,
            },
            Progress::Storing { open: _, baseline: _, cache_shown: _ } => match event {
                Event::Done(_) => true,
                _ => false,
            },
            Progress::BaselineMd(_) => match event {
                Event::Done(_) => true,
                _ => false,
            },
            Progress::KeywordsJson(_) => match event {
                Event::KeywordsWritten(_) => true,
                _ => false,
            },
            Progress::KeywordsMd(_) => match event {
                Event::Done(_) => true,
                _ => false,
            },
            Progress::Measuring(_) => match event {
                Event::Density(_) => true,
                _ => false,
            },
            Progress::OptimizedMd(_) => match event {
                Event::Done(_) => true,
                _ => false,
            },
            Progress::FinalMd(_) => match event {
                Event::Done(_) => true,
                _ => false,
            },
            Progress::Pdf(_) => match event {
                Event::Pdf(_) => true,
                _ => false,
            },
            Progress::PdfCheck(_) => match event {
                Event::Exists(_) => true,
                _ => false,
            },
            Progress::OutputDir(_) => match event {
                Event::Done(_) => true,
                _ => false,
            },
            Progress::Copying(_) => match event {
                Event::Done(_) => true,
                _ => false,
            },
            Progress::Renaming(_) => match event {
                Event::Done(_) => true,
                _ => false,
            },
            Progress::Extracting { rendered, extraction } => match event {
                Event::Reply { reply: Ok(response), timestamp: _ } => {
                    if !extraction.usage_total.can_add(&response.usage) {
                        return false;
                    }
                    let spent = extraction.usage_total.plus(&response.usage);
                    rendered.open.run.token_usage_total.can_add(&spent)
                },
                Event::Reply { reply: Err(_), timestamp: _ } => true,
                _ => false,
            },
            Progress::Optimizing(e) => match event {
                Event::Reply { reply: Ok(response), timestamp: _ } =>
                    e.rendered.open.run.token_usage_total.can_add(&response.usage),
                Event::Reply { reply: Err(_), timestamp: _ } => true,
                _ => false,
            },
        }
    }

    /// Takes the run to what comes after an event.
    pub fn step(self, event: Event) -> (r: Step)
        requires
            self.wf(),
            self.awaits(event),
        ensures
            self.leads_to(event, r),
    {
        let plan = self.plan;
        match self.progress {
            Progress::Fetching => match event {
                Event::Page(page) => after_page(plan, page),
                _ => vstd::pervasive::unreached(),
            },
            Progress::Scraping => match event {
                Event::Reply { reply, timestamp } => after_scrape_reply(plan, reply, timestamp),
                _ => vstd::pervasive::unreached(),
            },
            Progress::Draining(outcome) => match event {
                Event::Audit(audit) => after_audit(plan, outcome, audit),
                _ => vstd::pervasive::unreached(),
            },
            Progress::Creating { open, records } => match event {
                Event::Done(result) => after_create(plan, open, records, result),
                _ => vstd::pervasive::unreached(),
            },
            Progress::PostingJson { open, records } => match event {
                Event::Done(result) => after_posting_json(plan, open, records, result),
                _ => vstd::pervasive::unreached(),
            },
            Progress::PostingMd { open, records } => match event {
                Event::Done(result) => after_posting_md(plan, open, records, result),
                _ => vstd::pervasive::unreached(),
            },
            Progress::Building(open) => match event {
                Event::Built(built) => after_build(plan, open, built),
                _ => vstd::pervasive::unreached(),
            },
            Progress::Loading(open) => match event {
                Event::Stored { stored, shown } => after_load(plan, open, stored, shown),
                _ => vstd::pervasive::unreached(),
            },
            Progress::Storing { open, baseline, cache_shown } => match event {
                Event::Done(result) => after_store(plan, open, baseline, cache_shown, result),
                _ => vstd::pervasive::unreached(),
            },
            Progress::BaselineMd(rendered) => match event {
                Event::Done(result) => after_baseline_md(plan, rendered, result),
                _ => vstd::pervasive::unreached(),
            },
            Progress::Extracting { rendered, extraction } => match event {
                Event::Reply { reply, timestamp } => after_keyword_reply(plan, rendered, extraction, reply, timestamp),
                _ => vstd::pervasive::unreached(),
            },
            Progress::KeywordsJson(e) => match event {
                Event::KeywordsWritten(written) => after_keywords_json(plan, e, written),
                _ => vstd::pervasive::unreached(),
            },
            Progress::KeywordsMd(e) => match event {
                Event::Done(result) => after_keywords_md(plan, e, result),
                _ => vstd::pervasive::unreached(),
            },
            Progress::Optimizing(e) => match event {
                Event::Reply { reply, timestamp } => after_optimize_reply(plan, e, reply, timestamp),
                _ => vstd::pervasive::unreached(),
            },
            Progress::Measuring(o) => match event {
                Event::Density(value) => after_density(plan, o, value),
                _ => vstd::pervasive::unreached(),
            },
            Progress::OptimizedMd(o) => match event {
                Event::Done(result) => after_optimized_md(plan, o, result),
                _ => vstd::pervasive::unreached(),
            },
            Progress::FinalMd(o) => match event {
                Event::Done(result) => after_final_md(plan, o, result),
                _ => vstd::pervasive::unreached(),
            },
            Progress::Pdf(o) => match event {
                Event::Pdf(result) => after_pdf(plan, o, result),
                _ => vstd::pervasive::unreached(),
            },
            Progress::PdfCheck(o) => match event {
                Event::Exists(found) => after_check(plan, o, found),
                _ => vstd::pervasive::unreached(),
            },
            Progress::OutputDir(o) => match event {
                Event::Done(result) => after_output_dir(plan, o, result),
                _ => vstd::pervasive::unreached(),
            },
            Progress::Copying(o) => match event {
                Event::Done(result) => after_copy(plan, o, result),
                _ => vstd::pervasive::unreached(),
            },
            Progress::Renaming(o) => match event {
                Event::Done(result) => after_rename(plan, o, result),
                _ => vstd::pervasive::unreached(),
            },
        }
    }

    /// Ends the run with an error that no event stands for: a late one where there
    /// is a run folder, else an early one.
    pub fn give_up(self, err: AtsError) -> (r: RunPipelineError)
        ensures
            match folder_of(self.progress) {
                Some(run) => r == (RunPipelineError::Late { run, err }),
                None => r == RunPipelineError::Early(err),
            },
    {
        let run = match self.progress {
            Progress::Fetching => {
                return RunPipelineError::Early(err);
            },
            Progress::Scraping => {
                return RunPipelineError::Early(err);
            },
            Progress::Draining(_) => {
                return RunPipelineError::Early(err);
            },
            Progress::Creating { open: _, records: _ } => {
                return RunPipelineError::Early(err);
            },
            Progress::PostingJson { open, records: _ } => open.run,
            Progress::PostingMd { open, records: _ } => open.run,
            Progress::Building(open) => open.run,
            Progress::Loading(open) => open.run,
            Progress::Storing { open, baseline: _, cache_shown: _ } => open.run,
            Progress::BaselineMd(rendered) => rendered.open.run,
            Progress::Extracting { rendered, extraction: _ } => rendered.open.run,
            Progress::KeywordsJson(e) => e.rendered.open.run,
            Progress::KeywordsMd(e) => e.rendered.open.run,
            Progress::Optimizing(e) => e.rendered.open.run,
            Progress::Measuring(o) => o.extracted.rendered.open.run,
            Progress::OptimizedMd(o) => o.extracted.rendered.open.run,
            Progress::FinalMd(o) => o.extracted.rendered.open.run,
            Progress::Pdf(o) => o.extracted.rendered.open.run,
            Progress::PdfCheck(o) => o.extracted.rendered.open.run,
            Progress::OutputDir(o) => o.extracted.rendered.open.run,
            Progress::Copying(o) => o.extracted.rendered.open.run,
            Progress::Renaming(o) => o.extracted.rendered.open.run,
        };
        RunPipelineError::Late { run, err }
    }

    /// The keywords of the run, where they are to be written.
    pub fn keywords(&self) -> (r: Option<&KeywordSet>)
        ensures
            match self.progress {
                Progress::KeywordsJson(e) => r == Some(&e.keywords.set),
                _ => r is None,
            },
    {
        match &self.progress {
            Progress::KeywordsJson(e) => Some(&e.keywords.set),
            _ => None,
        }
    }
}

// ---------------------------------------------------------------------------
// Laws
// ---------------------------------------------------------------------------

/// There is a run folder on disk.
pub open spec fn has_folder(progress: Progress) -> bool {
    folder_of(progress) is Some
}

/// The run folder on disk, where there is one.
pub open spec fn folder_of(progress: Progress) -> Option<RunFolder> {
    match progress {
        Progress::Fetching => None,
        Progress::Scraping => None,
        Progress::Draining(_) => None,
        Progress::Creating { open, records } => None,
        Progress::PostingJson { open, records } => Some(open.run),
        Progress::PostingMd { open, records } => Some(open.run),
        Progress::Building(open) => Some(open.run),
        Progress::Loading(open) => Some(open.run),
        Progress::Storing { open, baseline, cache_shown } => Some(open.run),
        Progress::BaselineMd(rendered) => Some(rendered.open.run),
        Progress::Extracting { rendered, extraction } => Some(rendered.open.run),
        Progress::KeywordsJson(e) => Some(e.rendered.open.run),
        Progress::KeywordsMd(e) => Some(e.rendered.open.run),
        Progress::Optimizing(e) => Some(e.rendered.open.run),
        Progress::Measuring(o) => Some(o.extracted.rendered.open.run),
        Progress::OptimizedMd(o) => Some(o.extracted.rendered.open.run),
        Progress::FinalMd(o) => Some(o.extracted.rendered.open.run),
        Progress::Pdf(o) => Some(o.extracted.rendered.open.run),
        Progress::PdfCheck(o) => Some(o.extracted.rendered.open.run),
        Progress::OutputDir(o) => Some(o.extracted.rendered.open.run),
        Progress::Copying(o) => Some(o.extracted.rendered.open.run),
        Progress::Renaming(o) => Some(o.extracted.rendered.open.run),
    }
}

/// A failure before the run folder exists is an early one and leaves nothing to
/// finalize; any failure after that is a late one and hands the folder back.
pub proof fn failures_are_early_or_late(p: Pipeline, event: Event, step: Step)
    requires
        p.wf(),
        p.awaits(event),
        p.leads_to(event, step),
    ensures
        step matches Step::Failed { error, record, cleanup } ==> (error is Late <==> has_folder(
            p.progress,
        )),
        step is Finished ==> p.progress is Renaming,
{
}

/// Until the posting is there, nothing is asked for but the page, the posting
/// and the records of the scrape; the first thing that touches the disk is the
/// run folder itself.
pub proof fn nothing_is_written_before_the_folder(p: Pipeline, action: Action)
    requires
        p.wants(action),
        !has_folder(p.progress),
    ensures
        action is FetchHtml || action is AskScrape || action is TakeAudit || (action
            is CreateFolder && p.progress is Creating),
{
}

/// A page that cannot be fetched ends the run with exit code four and without a
/// run folder.
pub proof fn unreachable_page_leaves_no_folder(p: Pipeline, e: ScrapeError, step: Step)
    requires
        p.progress is Fetching,
        p.leads_to(Event::Page(Err::<String, ScrapeError>(e)), step),
    ensures
        step matches Step::Failed { error: RunPipelineError::Early(err), record, cleanup }
            && err.exit_code_spec() == 4 && err.class_spec() == "scrape"@,
{
}

/// Where a run stands in the order of its stages.
pub open spec fn place(progress: Progress) -> nat {
    match progress {
        Progress::Fetching => 0,
        Progress::Scraping => 1,
        Progress::Draining(_) => 2,
        Progress::Creating { open, records } => 3,
        Progress::PostingJson { open, records } => 4,
        Progress::PostingMd { open, records } => 5,
        Progress::Building(_) => 6,
        Progress::Loading(_) => 7,
        Progress::Storing { open, baseline, cache_shown } => 8,
        Progress::BaselineMd(_) => 9,
        Progress::Extracting { rendered, extraction } => 10,
        Progress::KeywordsJson(_) => 11,
        Progress::KeywordsMd(_) => 12,
        Progress::Optimizing(_) => 13,
        Progress::Measuring(_) => 14,
        Progress::OptimizedMd(_) => 15,
        Progress::FinalMd(_) => 16,
        Progress::Pdf(_) => 17,
        Progress::PdfCheck(_) => 18,
        Progress::OutputDir(_) => 19,
        Progress::Copying(_) => 20,
        Progress::Renaming(_) => 21,
    }
}

/// Every step takes the run further in the order of its stages, or to the next
/// of the attempts that the extraction is allowed: a run always comes to an end.
pub proof fn every_step_makes_progress(p: Pipeline, event: Event, step: Step)
    requires
        p.wf(),
        p.awaits(event),
        p.leads_to(event, step),
    ensures
        step matches Step::Next { pipeline, action } ==> {
            ||| place(pipeline.progress) > place(p.progress)
            ||| {
                &&& p.progress matches Progress::Extracting { rendered: r1, extraction: x1 }
                &&& pipeline.progress matches Progress::Extracting { rendered: r2, extraction: x2 }
                &&& x2.attempt == x1.attempt + 1
                &&& x2.max_attempts == x1.max_attempts
                &&& x2.attempt <= x2.max_attempts
            }
        },
        place(p.progress) <= 21,
{
}

/// The tokens of a finished run are those of its three stages together.
pub proof fn tokens_of_a_run_are_those_of_its_stages(o: Optimized, plan: Plan, step: Step)
    requires
        o.wf(plan),
        finishes(step, o, plan),
    ensures
        crate::ports::totals(
            step->Finished_result.total_tokens,
            seq![
                o.extracted.rendered.open.scrape_usage,
                o.extracted.keywords.usage_total,
                o.usage,
            ],
        ),
{
    let a = o.extracted.rendered.open.scrape_usage;
    let b = o.extracted.keywords.usage_total;
    let c = o.usage;
    let all = seq![a, b, c];
    assert(all.drop_last() =~= seq![a, b]);
    assert(seq![a, b].drop_last() =~= seq![a]);
    assert(seq![a].drop_last() =~= Seq::empty());
    reveal_with_fuel(crate::ports::usage_total, 4);
}

/// The copy in the output directory has the name of the PDF in the run folder.
pub proof fn output_keeps_the_name(o: Optimized, plan: Plan)
    ensures
        o.output_pdf(plan).names.last() == o.final_pdf(plan).names.last(),
{
}

} // verus!
