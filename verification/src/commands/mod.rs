//! The commands of the tool, each a state machine: it says what to do next, and
//! takes the event that comes back, until it has come to a result.

use vstd::prelude::*;
use serde_json::Value;
use crate::audit;
use crate::audit::{RunFolder, RunOutcome};
use crate::cli;
use crate::cli::{InputSource, WriteFailure};
use crate::density::DensityReport;
use crate::error::AtsError;
use crate::fs_layout::{FsPath, PathModel};
use crate::json;
use crate::json::Tree;
use crate::ports::{LlmCallRecord, LlmError, LlmRequest, LlmResponse, PdfError, TokenUsage};
use crate::render::cache::CacheWrite;
use crate::scrape_port::ScrapeError;
use crate::text;

pub mod keywords;
pub mod optimize;
pub mod pdf;
pub mod render;
pub mod run;
pub mod scrape;

verus! {

/// What a command asks its caller to do.
pub enum Action {
    /// Read the bytes of the resume document.
    ReadYaml { path: String },
    /// Read a text.
    ReadInput(InputSource),
    /// Create the audit log, and make a client that records to it.
    OpenAudit { path: FsPath },
    /// Fetch a page.
    FetchHtml { url: String, idle_timeout_ms: u64 },
    /// Record the last attempt, where there is a record, and ask the model.
    Ask { record: Option<LlmCallRecord>, request: LlmRequest },
    /// Read the file, where it exists.
    LoadCache { path: FsPath },
    StoreCache(CacheWrite),
    /// Rename the run folder, unless something of that name is there.
    RenameFolder { from: FsPath, to: FsPath },
    /// Give what the command has found as indented JSON.
    Serialise,
    WriteFile { path: FsPath, content: String },
    /// Report the density, and give it as a JSON number.
    ReportDensity(DensityReport),
    RenderPdf { markdown: String, out: String },
    /// Give the size of the file.
    Measure { path: String },
    /// Write to standard output, with a newline behind it or not.
    Print { content: String, newline: bool },
}

/// Why a file could not be read.
pub struct ReadFailure {
    /// It is not there.
    pub missing: bool,
    pub cause: String,
}

/// Why there is no client.
pub enum OpenFailure {
    /// The audit log could not be created.
    Audit(String),
    /// The client could not be made.
    Client(String),
}

/// Why there is no PDF.
pub enum RenderFailure {
    /// The renderer did not come to an end.
    Task(String),
    Pdf(PdfError),
}

/// What the caller reports.
pub enum Event {
    Yaml(Result<Vec<u8>, ReadFailure>),
    Input(Result<String, String>),
    Opened(Result<(), OpenFailure>),
    Page(Result<String, ScrapeError>),
    /// A reply of the model, and the time that a record of it is given.
    Reply { reply: Result<LlmResponse, LlmError>, timestamp: String },
    /// The content of the cached file, where it exists; and its path as the user
    /// sees it.
    Stored { stored: Result<Option<String>, String>, shown: String },
    Renamed(Result<(), String>),
    Serialised(Result<String, String>),
    /// A file operation.
    Done(Result<(), String>),
    /// The density as a JSON number.
    Density(Value),
    Rendered(Result<(), RenderFailure>),
    Size(Result<u64, String>),
    Printed(Option<WriteFailure>),
}

/// A command that has come to its result.
pub struct Ended {
    pub run: RunFolder,
    pub result: Result<(), AtsError>,
    /// A record that is still to be recorded.
    pub record: Option<LlmCallRecord>,
}

/// What comes after an event.
pub enum Step<S> {
    /// The command goes on.
    Next { state: S, action: Action },
    /// The command is over.
    Over(Ended),
}

/// The command is over with this run folder, and with nothing left to record.
pub open spec fn over<S>(step: Step<S>, run: RunFolder) -> Option<Result<(), AtsError>> {
    match step {
        Step::Over(e) => if e.run == run && e.record is None {
            Some(e.result)
        } else {
            None
        },
        _ => None,
    }
}

/// The error of a command that is over with this run folder, and with nothing
/// left to record.
pub open spec fn failed<S>(step: Step<S>, run: RunFolder) -> Option<AtsError> {
    match over(step, run) {
        Some(Err(e)) => Some(e),
        _ => None,
    }
}

/// `b` is `a` with more tokens, and with more members of its `run.json`.
pub open spec fn noted(
    a: RunFolder,
    b: RunFolder,
    tokens: TokenUsage,
    extras: Seq<(Seq<char>, Tree)>,
) -> bool {
    &&& b.runs_dir == a.runs_dir
    &&& b.started_at == a.started_at
    &&& b.command == a.command
    &&& b.named_slug == a.named_slug
    &&& b.slug == a.slug
    &&& b.args_summary == a.args_summary
    &&& b.config_snapshot == a.config_snapshot
    &&& b.token_usage_total == a.token_usage_total.sum(tokens)
    &&& audit::extras_view(b.extras@) == audit::extras_view(a.extras@) + extras
}

/// The action writes a text to a file.
pub open spec fn writes(action: Action, path: PathModel, content: Seq<char>) -> bool {
    action matches Action::WriteFile { path: p, content: c } && p@ == path && c@ == content
}

/// The action writes a text to standard output.
pub open spec fn prints(action: Action, content: Seq<char>, newline: bool) -> bool {
    action matches Action::Print { content: c, newline: n } && c@ == content && n == newline
}

/// The step that ends a command whose output has been written.
pub open spec fn ends_printed<S>(step: Step<S>, run: RunFolder, failure: Option<WriteFailure>) -> bool {
    match failure {
        Some(f) => if f.broken_pipe {
            over(step, run) matches Some(Ok(_))
        } else {
            failed(step, run) == Some(AtsError::Io(f.cause))
        },
        None => over(step, run) matches Some(Ok(_)),
    }
}

/// The error for a client that could not be made.
pub open spec fn is_open_error(failure: OpenFailure, e: AtsError) -> bool {
    match failure {
        OpenFailure::Audit(m) => e == AtsError::Io(m),
        OpenFailure::Client(m) => e matches AtsError::Other(n) && n@
            == "failed to build OpenRouter client: "@ + m@,
    }
}

/// The error for a client that could not be made.
pub(crate) fn open_error(failure: OpenFailure) -> (r: AtsError)
    ensures
        is_open_error(failure, r),
{
    match failure {
        OpenFailure::Audit(m) => AtsError::Io(m),
        OpenFailure::Client(m) => AtsError::Other(
            text::concat2("failed to build OpenRouter client: ", m.as_str()),
        ),
    }
}

/// The audit log of a run.
pub open spec fn audit_log(run: RunFolder) -> PathModel {
    run.path_spec().child("llm-audit.jsonl"@)
}

/// Asks for the audit log of a run.
pub(crate) fn open_audit(run: &RunFolder) -> (r: Action)
    requires
        run.started_at.wf(),
    ensures
        r matches Action::OpenAudit { path } && path@ == audit_log(*run),
{
    Action::OpenAudit { path: run.path().join("llm-audit.jsonl") }
}

/// Ends a command with an error.
pub(crate) fn fail<S>(run: RunFolder, e: AtsError) -> (r: Step<S>)
    ensures
        failed(r, run) == Some(e),
{
    Step::Over(Ended { run, result: Err(e), record: None })
}

/// Ends a command whose output has been written.
pub(crate) fn end_printed<S>(run: RunFolder, failure: Option<WriteFailure>) -> (r: Step<S>)
    ensures
        ends_printed(r, run, failure),
{
    Step::Over(Ended { run, result: cli::after_write(failure), record: None })
}

/// What `run.json` says of the tokens of a command.
pub open spec fn usage_extras(usage: TokenUsage) -> Seq<(Seq<char>, Tree)> {
    seq![("token_usage_total"@, audit::usage_tree(usage))]
}

/// Notes the tokens of a command.
pub(crate) fn note_usage(run: RunFolder, usage: &TokenUsage) -> (r: RunFolder)
    requires
        run.token_usage_total.fits(*usage),
    ensures
        noted(run, r, *usage, usage_extras(*usage)),
{
    let mut run = run;
    let ghost before = audit::extras_view(run.extras@);
    run.add_token_usage(usage);
    run.set_extra("token_usage_total", audit::usage_value(usage));
    assert(audit::extras_view(run.extras@) =~= before + usage_extras(*usage));
    run
}

// ---------------------------------------------------------------------------
// Results
// ---------------------------------------------------------------------------

/// The exit code of a command.
pub open spec fn exit_code_of(result: Result<(), AtsError>) -> i32 {
    match result {
        Ok(_) => 0,
        Err(e) => e.exit_code_spec(),
    }
}

/// The outcome of a command, as `run.json` tells it.
pub open spec fn outcome_of(result: Result<(), AtsError>) -> Seq<char> {
    match result {
        Ok(_) => "success"@,
        Err(e) => if e matches AtsError::Other(m) && m@ == cli::NOT_IMPLEMENTED@ {
            "unimplemented"@
        } else {
            cli::failure_tag(e)
        },
    }
}

/// The exit code of a command, and the text of its `run.json`. The times are
/// given in full form.
pub fn conclude(run: &RunFolder, result: &Result<(), AtsError>, started: &str, finished: &str) -> (r:
    (i32, String))
    ensures
        r.0 == exit_code_of(*result),
        r.1@ == json::json_pretty(
            Tree::Object(
                audit::with_extras(
                    run.base_members(
                        started@,
                        finished@,
                        outcome_of(*result),
                        exit_code_of(*result),
                    ),
                    run.extras@,
                ),
            ),
        ),
{
    match result {
        Ok(_) => (0, run.finalize(started, finished, RunOutcome::Success, 0)),
        Err(e) => {
            let code = e.exit_code();
            let outcome = cli::classify_outcome(e);
            (code, run.finalize(started, finished, outcome.as_outcome(), code))
        },
    }
}

/// The exit code tells success from failure: it is zero for a success and for
/// nothing else.
pub proof fn exit_code_tells_success(result: Result<(), AtsError>)
    ensures
        exit_code_of(result) == 0 <==> result is Ok,
        0 <= exit_code_of(result) <= 7,
{
}

} // verus!
