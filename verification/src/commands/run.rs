//! `ats run`: the checks before the whole run, the run itself, and what is left
//! of it.

use vstd::prelude::*;
use serde_json::Value;
use crate::audit;
use crate::audit::{RunFolder, Timestamp};
use crate::cli;
use crate::commands;
use crate::commands::ReadFailure;
use crate::config::Config;
use crate::domain::Resume;
use crate::error::AtsError;
use crate::fs_layout;
use crate::fs_layout::{BinaryFsLayout, FsPath};
use crate::json;
use crate::json::Tree;
use crate::pipeline;
use crate::pipeline::{Pipeline, RunPipelineError, RunPipelineInput, RunPipelineResult};
use crate::ports::TokenUsage;
use crate::render::validate;
use crate::text;

verus! {

/// How far the command has come: what it waits for.
pub enum Progress {
    /// The directories.
    Preparing,
    /// The resume document.
    Reading,
    /// The time, and the client of the scrape.
    Connecting { yaml_bytes: Vec<u8>, resume: Resume },
}

/// The command before its run.
pub struct Run {
    pub config: Config,
    pub layout: BinaryFsLayout,
    pub yaml: String,
    pub url: String,
    pub progress: Progress,
}

/// What the caller has to do.
pub enum Action {
    CreateDirs(Vec<FsPath>),
    ReadYaml { path: String },
    /// Look at the clock, and make the client of the scrape.
    Connect,
}

/// What the caller reports.
pub enum Event {
    Done(Result<(), String>),
    Yaml(Result<Vec<u8>, ReadFailure>),
    Connected { started_at: Timestamp, client: Result<(), String> },
}

/// What comes after an event.
pub enum Step {
    /// The command goes on.
    Next { state: Run, action: Action },
    /// The run begins.
    Begin { pipeline: Pipeline, action: pipeline::Action },
    /// The command has failed, and there is no run folder.
    Failed(AtsError),
}

impl Run {
    /// The event is one that the command waits for, and its time can be shown.
    pub open spec fn awaits(self, event: Event) -> bool {
        match self.progress {
            Progress::Preparing => event is Done,
            Progress::Reading => event is Yaml,
            Progress::Connecting { yaml_bytes, resume } => event matches Event::Connected {
                started_at,
                client,
            } && started_at.wf(),
        }
    }

    /// What comes after an event that the command waits for.
    pub open spec fn leads_to(self, event: Event, step: Step) -> bool {
        match (self.progress, event) {
            (Progress::Preparing, Event::Done(Err(m))) => step == Step::Failed(AtsError::Io(m)),
            (Progress::Preparing, Event::Done(Ok(_))) => {
                &&& step matches Step::Next { state, action }
                &&& state == (Run { progress: Progress::Reading, ..self })
                &&& action matches Action::ReadYaml { path } && path@ == self.yaml@
            },
            (Progress::Reading, Event::Yaml(Err(f))) => step matches Step::Failed(e) && (
            if f.missing {
                e matches AtsError::Yaml(d) && d@ == validate::structural_diag(
                    None,
                    "yaml file not found: "@ + self.yaml@,
                )
            } else {
                e matches AtsError::Io(m) && m@ == f.cause@
            }),
            (Progress::Reading, Event::Yaml(Ok(bytes))) => match validate::document_diag(bytes@) {
                Some(d) => step matches Step::Failed(AtsError::Yaml(x)) && x@ == d,
                None => {
                    &&& step matches Step::Next { state, action }
                    &&& state.progress matches Progress::Connecting { yaml_bytes, resume }
                    &&& state == (Run { progress: state.progress, ..self })
                    &&& yaml_bytes == bytes
                    &&& validate::resume_of(validate::yaml_parsed(bytes@)->Ok_0, resume)
                    &&& action is Connect
                },
            },
            (
                Progress::Connecting { yaml_bytes, resume },
                Event::Connected { started_at, client: Err(m) },
            ) => step matches Step::Failed(AtsError::Other(n)) && n@ == "openrouter (scrape): "@
                + m@,
            (
                Progress::Connecting { yaml_bytes, resume },
                Event::Connected { started_at, client: Ok(_) },
            ) => {
                &&& step matches Step::Begin { pipeline, action }
                &&& pipeline.plan.input.url == self.url
                &&& pipeline.plan.input.yaml_bytes == yaml_bytes
                &&& pipeline.plan.input.resume == resume
                &&& pipeline.plan.config == self.config
                &&& pipeline.plan.started_at == started_at
                &&& pipeline.plan.layout == self.layout
                &&& pipeline.progress is Fetching
                &&& pipeline.wf()
                &&& pipeline.wants(action)
            },
            _ => true,
        }
    }

    /// Begins the command: the directories are to be created.
    pub fn start(config: Config, layout: BinaryFsLayout, yaml: &str, url: &str) -> (r: (Run, Action))
        ensures
            r.0.config == config,
            r.0.layout == layout,
            r.0.yaml@ == yaml@,
            r.0.url@ == url@,
            r.0.progress is Preparing,
            r.1 matches Action::CreateDirs(dirs) && {
                &&& dirs@.len() == 3
                &&& dirs@[0]@ == fs_layout::binary_child(layout, "cache"@)
                &&& dirs@[1]@ == fs_layout::binary_child(layout, "runs"@)
                &&& dirs@[2]@ == fs_layout::binary_child(layout, "output"@)
            },
    {
        let action = Action::CreateDirs(layout.required_dirs());
        let state = Run {
            config,
            layout,
            yaml: yaml.to_string(),
            url: url.to_string(),
            progress: Progress::Preparing,
        };
        (state, action)
    }

    /// Whether the event is one that the command waits for, and its time can be
    /// shown.
    pub fn accepts(&self, event: &Event) -> (r: bool)
        ensures
            r == self.awaits(*event),
    {
        match (&self.progress, event) {
            (Progress::Preparing, Event::Done(_)) => true,
            (Progress::Reading, Event::Yaml(_)) => true,
            (
                Progress::Connecting { yaml_bytes: _, resume: _ },
                Event::Connected { started_at, client: _ },
            ) => started_at.is_well_formed(),
            _ => false,
        }
    }

    /// Takes the command to what comes after an event.
    pub fn step(self, event: Event) -> (r: Step)
        requires
            self.awaits(event),
        ensures
            self.leads_to(event, r),
    {
        let Run { config, layout, yaml, url, progress } = self;
        match (progress, event) {
            (Progress::Preparing, Event::Done(Err(m))) => Step::Failed(AtsError::Io(m)),
            (Progress::Preparing, Event::Done(Ok(_))) => {
                let action = Action::ReadYaml { path: yaml.clone() };
                Step::Next {
                    state: Run { config, layout, yaml, url, progress: Progress::Reading },
                    action,
                }
            },
            (Progress::Reading, Event::Yaml(Err(f))) => Step::Failed(
                cli::yaml_read_error(f.missing, yaml.as_str(), f.cause.as_str()),
            ),
            (Progress::Reading, Event::Yaml(Ok(yaml_bytes))) => {
                match validate::parse_and_validate(yaml_bytes.as_slice()) {
                    Err(d) => Step::Failed(AtsError::Yaml(d)),
                    Ok(resume) => Step::Next {
                        state: Run {
                            config,
                            layout,
                            yaml,
                            url,
                            progress: Progress::Connecting { yaml_bytes, resume },
                        },
                        action: Action::Connect,
                    },
                }
            },
            (
                Progress::Connecting { yaml_bytes: _, resume: _ },
                Event::Connected { started_at: _, client: Err(m) },
            ) => Step::Failed(
                AtsError::Other(text::concat2("openrouter (scrape): ", m.as_str())),
            ),
            (
                Progress::Connecting { yaml_bytes, resume },
                Event::Connected { started_at, client: Ok(_) },
            ) => {
                let input = RunPipelineInput { url, yaml_bytes, resume };
                let (pipeline, action) = Pipeline::start(input, config, started_at, layout);
                Step::Begin { pipeline, action }
            },
            _ => vstd::pervasive::unreached(),
        }
    }
}

// ---------------------------------------------------------------------------
// The end of a run
// ---------------------------------------------------------------------------

/// Why the client of the later stages could not be made.
pub fn stages_error(cause: &str) -> (r: AtsError)
    ensures
        r matches AtsError::Other(m) && m@ == "openrouter (stages): "@ + cause@,
{
    AtsError::Other(text::concat2("openrouter (stages): ", cause))
}

/// What is left of a run: its folder, where there is one, and its result.
pub struct Left {
    pub run: Option<RunFolder>,
    pub result: Result<(), AtsError>,
}

/// `b` is `a` with the arguments and the configuration on record.
pub open spec fn sealed(a: RunFolder, b: RunFolder, args: Value, snapshot: Value) -> bool {
    b == (RunFolder { args_summary: args, config_snapshot: snapshot, ..a })
}

/// What `run.json` says of a run that has succeeded.
pub open spec fn success_extras(total: TokenUsage, output: Seq<char>) -> Seq<(Seq<char>, Tree)> {
    seq![("total_tokens"@, audit::usage_tree(total)), ("final_pdf"@, Tree::Text(output))]
}

/// What is left of a run that has succeeded. `output` is the path of the final
/// PDF as the user sees it.
pub fn after_success(
    run: RunFolder,
    result: &RunPipelineResult,
    output: &str,
    args: Value,
    snapshot: Value,
) -> (r: Left)
    ensures
        r.result is Ok,
        r.run matches Some(left) && {
            &&& left.args_summary == args
            &&& left.config_snapshot == snapshot
            &&& commands::noted(
                RunFolder { args_summary: args, config_snapshot: snapshot, ..run },
                left,
                TokenUsage::none(),
                success_extras(result.total_tokens, output@),
            )
        },
{
    let mut left = run;
    left.set_args_summary(args);
    left.set_config_snapshot(snapshot);
    let ghost before = audit::extras_view(left.extras@);
    left.set_extra("total_tokens", audit::usage_value(&result.total_tokens));
    left.set_extra("final_pdf", json::text_value(output));
    assert(audit::extras_view(left.extras@) =~= before + success_extras(
        result.total_tokens,
        output@,
    ));
    Left { run: Some(left), result: Ok(()) }
}

/// What is left of a run that has failed: its folder only where the failure was
/// a late one.
pub fn after_failure(error: RunPipelineError, args: Value, snapshot: Value) -> (r: Left)
    ensures
        match error {
            RunPipelineError::Early(e) => r.run is None && r.result == Err::<(), AtsError>(e),
            RunPipelineError::Late { run, err } => {
                &&& r.result == Err::<(), AtsError>(err)
                &&& r.run matches Some(left) && sealed(run, left, args, snapshot)
            },
        },
{
    match error {
        RunPipelineError::Early(e) => Left { run: None, result: Err(e) },
        RunPipelineError::Late { run, err } => {
            let mut run = run;
            run.set_args_summary(args);
            run.set_config_snapshot(snapshot);
            Left { run: Some(run), result: Err(err) }
        },
    }
}

// ---------------------------------------------------------------------------
// Laws
// ---------------------------------------------------------------------------

/// Nothing but the three directories is created, and the posting is not asked
/// for, unless the resume document holds up.
pub proof fn bad_document_stops_the_run(r: Run, bytes: Vec<u8>, step: Step)
    requires
        r.progress is Reading,
        validate::document_diag(bytes@) is Some,
        r.leads_to(Event::Yaml(Ok::<Vec<u8>, ReadFailure>(bytes)), step),
    ensures
        step matches Step::Failed(e) && e.exit_code_spec() == 3,
{
}

} // verus!
