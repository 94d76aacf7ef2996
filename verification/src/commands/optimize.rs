//! `ats optimize`: a baseline is rewritten against a keyword catalogue.

use vstd::prelude::*;
use crate::audit::RunFolder;
use crate::cli;
use crate::cli::InputSource;
use crate::commands;
use crate::commands::{Action, Event, Step};
use crate::config::Config;
use crate::decode::Decode;
use crate::density;
use crate::density::DensityReport;
use crate::domain::KeywordSet;
use crate::error::AtsError;
use crate::json;
use crate::json::Tree;
use crate::pipeline;
use crate::ports::TokenUsage;
use crate::stage::keywords;
use crate::stage::optimize;

verus! {

/// How far the command has come: what it waits for.
pub enum Progress {
    /// The baseline.
    ReadingResume { keywords: InputSource },
    /// The keywords.
    ReadingKeywords { baseline_md: String },
    /// The client.
    Opening { baseline_md: String, set: KeywordSet },
    /// The optimized resume.
    Asking { set: KeywordSet },
    /// The density as a number.
    Measuring { markdown: String, report: DensityReport },
    /// `optimized.md`.
    OptimizedMd { markdown: String },
    /// The output.
    Printing,
}

/// The command.
pub struct Optimize {
    pub run: RunFolder,
    pub config: Config,
    pub progress: Progress,
}

/// What `run.json` says of the density.
pub open spec fn density_extras(value: Tree, report: DensityReport) -> Seq<(Seq<char>, Tree)> {
    seq![("keyword_density"@, pipeline::density_tree(value, report))]
}

impl Optimize {
    /// The run has a name.
    pub open spec fn wf(self) -> bool {
        self.run.started_at.wf()
    }

    /// The event is one that the command waits for, and its tokens can be added
    /// to those of the run.
    pub open spec fn awaits(self, event: Event) -> bool {
        match self.progress {
            Progress::ReadingResume { keywords } => event is Input,
            Progress::ReadingKeywords { baseline_md } => event is Input,
            Progress::Opening { baseline_md, set } => event is Opened,
            Progress::Asking { set } => event matches Event::Reply { reply, timestamp } && (reply
                matches Ok(response) ==> self.run.token_usage_total.fits(response.usage)),
            Progress::Measuring { markdown, report } => event is Density,
            Progress::OptimizedMd { markdown } => event is Done,
            Progress::Printing => event is Printed,
        }
    }

    /// The command goes on.
    pub open spec fn goes_on(self, step: Step<Optimize>) -> bool {
        step matches Step::Next { state, action } && state.wf() && state.config == self.config
    }

    /// What comes after an event that the command waits for.
    pub open spec fn leads_to(self, event: Event, step: Step<Optimize>) -> bool {
        match (self.progress, event) {
            (Progress::ReadingResume { keywords }, Event::Input(Err(m))) => commands::failed(
                step,
                self.run,
            ) == Some(AtsError::Io(m)),
            (Progress::ReadingResume { keywords }, Event::Input(Ok(baseline))) => {
                &&& self.goes_on(step)
                &&& step matches Step::Next { state, action }
                &&& state.run == self.run
                &&& state.progress == (Progress::ReadingKeywords { baseline_md: baseline })
                &&& action == Action::ReadInput(keywords)
            },
            (Progress::ReadingKeywords { baseline_md }, Event::Input(Err(m))) => commands::failed(
                step,
                self.run,
            ) == Some(AtsError::Io(m)),
            (Progress::ReadingKeywords { baseline_md }, Event::Input(Ok(raw))) =>
                match cli::input_problem(raw@) {
                    Some(p) => commands::failed(step, self.run) matches Some(
                        AtsError::SchemaInvalid(m),
                    ) && m@ == p,
                    None => {
                        &&& self.goes_on(step)
                        &&& step matches Step::Next { state, action }
                        &&& state.run == self.run
                        &&& state.progress matches Progress::Opening { baseline_md: b, set }
                        &&& b == baseline_md
                        &&& KeywordSet::decodes(json::json_parsed(raw@)->Ok_0, set)
                        &&& action matches Action::OpenAudit { path }
                        &&& path@ == commands::audit_log(self.run)
                    },
                },
            (Progress::Opening { baseline_md, set }, Event::Opened(Err(f))) => commands::failed(
                step,
                self.run,
            ) matches Some(e) && commands::is_open_error(f, e),
            (Progress::Opening { baseline_md, set }, Event::Opened(Ok(_))) => {
                &&& self.goes_on(step)
                &&& step matches Step::Next { state, action }
                &&& state.run == self.run
                &&& state.progress == (Progress::Asking { set })
                &&& action matches Action::Ask { record: None, request }
                &&& optimize::is_request(
                    baseline_md@,
                    keywords::markdown_view(set),
                    self.config.models.resume_optimization,
                    request,
                )
            },
            (Progress::Asking { set }, Event::Reply { reply: Err(e), timestamp }) =>
                commands::failed(step, self.run) matches Some(AtsError::Llm(c)) && e.class_of(c),
            (Progress::Asking { set }, Event::Reply { reply: Ok(response), timestamp }) => {
                &&& self.goes_on(step)
                &&& step matches Step::Next { state, action }
                &&& commands::noted(
                    self.run,
                    state.run,
                    response.usage,
                    commands::usage_extras(response.usage),
                )
                &&& state.progress matches Progress::Measuring { markdown, report }
                &&& markdown@ == response.content@
                &&& report.numerator == density::matches_of(
                    density::distinct(set.terms()),
                    response.content@,
                )
                &&& report.denominator == density::word_count(response.content@) as u32
                &&& action == Action::ReportDensity(report)
            },
            (Progress::Measuring { markdown, report }, Event::Density(value)) => {
                &&& self.goes_on(step)
                &&& step matches Step::Next { state, action }
                &&& commands::noted(
                    self.run,
                    state.run,
                    TokenUsage::none(),
                    density_extras(json::json_tree(value), report),
                )
                &&& state.progress == (Progress::OptimizedMd { markdown })
                &&& commands::writes(
                    action,
                    self.run.path_spec().child("optimized.md"@),
                    markdown@,
                )
            },
            (Progress::OptimizedMd { markdown }, Event::Done(Err(m))) => commands::failed(
                step,
                self.run,
            ) == Some(AtsError::Io(m)),
            (Progress::OptimizedMd { markdown }, Event::Done(Ok(_))) => {
                &&& self.goes_on(step)
                &&& step matches Step::Next { state, action }
                &&& state.run == self.run
                &&& state.progress is Printing
                &&& commands::prints(action, markdown@, true)
            },
            (Progress::Printing, Event::Printed(failure)) => commands::ends_printed(
                step,
                self.run,
                failure,
            ),
            _ => true,
        }
    }

    /// Begins the command: the baseline is to be read, unless both inputs are to
    /// come from standard input.
    pub fn start(run: RunFolder, config: Config, resume: InputSource, keywords: InputSource) -> (r:
        Step<Optimize>)
        requires
            run.started_at.wf(),
        ensures
            resume is Stdin && keywords is Stdin ==> (commands::failed(r, run) matches Some(
                AtsError::Config(m),
            ) && m@
                == "only one of --resume and --keywords may be '-' (stdin); both cannot read from standard input"@),
            !(resume is Stdin && keywords is Stdin) ==> (r matches Step::Next { state, action } && {
                &&& state.wf()
                &&& state.run == run
                &&& state.config == config
                &&& state.progress == (Progress::ReadingResume { keywords })
                &&& action == Action::ReadInput(resume)
            }),
    {
        match cli::check_inputs(&resume, &keywords) {
            Err(e) => commands::fail(run, e),
            Ok(_) => Step::Next {
                state: Optimize { run, config, progress: Progress::ReadingResume { keywords } },
                action: Action::ReadInput(resume),
            },
        }
    }

    /// Whether the event is one that the command waits for, and its tokens can be
    /// added to those of the run.
    pub fn accepts(&self, event: &Event) -> (r: bool)
        ensures
            r == self.awaits(*event),
    {
        match (&self.progress, event) {
            (Progress::ReadingResume { keywords: _ }, Event::Input(_)) => true,
            (Progress::ReadingKeywords { baseline_md: _ }, Event::Input(_)) => true,
            (Progress::Opening { baseline_md: _, set: _ }, Event::Opened(_)) => true,
            (Progress::Asking { set: _ }, Event::Reply { reply: Ok(response), timestamp: _ }) =>
                self.run.token_usage_total.can_add(&response.usage),
            (Progress::Asking { set: _ }, Event::Reply { reply: Err(_), timestamp: _ }) => true,
            (Progress::Measuring { markdown: _, report: _ }, Event::Density(_)) => true,
            (Progress::OptimizedMd { markdown: _ }, Event::Done(_)) => true,
            (Progress::Printing, Event::Printed(_)) => true,
            _ => false,
        }
    }

    /// Takes the command to what comes after an event.
    pub fn step(self, event: Event) -> (r: Step<Optimize>)
        requires
            self.wf(),
            self.awaits(event),
        ensures
            self.leads_to(event, r),
    {
        let Optimize { run, config, progress } = self;
        match (progress, event) {
            (Progress::ReadingResume { keywords: _ }, Event::Input(Err(m))) => commands::fail(
                run,
                AtsError::Io(m),
            ),
            (Progress::ReadingResume { keywords }, Event::Input(Ok(baseline_md))) => Step::Next {
                state: Optimize {
                    run,
                    config,
                    progress: Progress::ReadingKeywords { baseline_md },
                },
                action: Action::ReadInput(keywords),
            },
            (Progress::ReadingKeywords { baseline_md: _ }, Event::Input(Err(m))) => commands::fail(
                run,
                AtsError::Io(m),
            ),
            (Progress::ReadingKeywords { baseline_md }, Event::Input(Ok(raw))) => {
                match cli::keywords_from_input(raw.as_str()) {
                    Err(e) => commands::fail(run, e),
                    Ok(set) => {
                        let action = commands::open_audit(&run);
                        Step::Next {
                            state: Optimize {
                                run,
                                config,
                                progress: Progress::Opening { baseline_md, set },
                            },
                            action,
                        }
                    },
                }
            },
            (Progress::Opening { baseline_md: _, set: _ }, Event::Opened(Err(f))) => commands::fail(
                run,
                commands::open_error(f),
            ),
            (Progress::Opening { baseline_md, set }, Event::Opened(Ok(_))) => {
                let keywords_md = keywords::to_markdown(&set);
                let request = optimize::request(
                    baseline_md.as_str(),
                    keywords_md.as_str(),
                    &config.models.resume_optimization,
                );
                Step::Next {
                    state: Optimize { run, config, progress: Progress::Asking { set } },
                    action: Action::Ask { record: None, request },
                }
            },
            (Progress::Asking { set }, Event::Reply { reply, timestamp: _ }) => {
                match optimize::on_reply(reply) {
                    Err(e) => commands::fail(run, e),
                    Ok(outcome) => {
                        let run = commands::note_usage(run, &outcome.usage);
                        let markdown = outcome.markdown;
                        let report = density::measure(markdown.as_str(), &set);
                        Step::Next {
                            state: Optimize {
                                run,
                                config,
                                progress: Progress::Measuring { markdown, report },
                            },
                            action: Action::ReportDensity(report),
                        }
                    },
                }
            },
            (Progress::Measuring { markdown, report }, Event::Density(value)) => {
                let mut run = run;
                let ghost before = crate::audit::extras_view(run.extras@);
                run.set_extra("keyword_density", pipeline::density_value(&value, &report));
                assert(crate::audit::extras_view(run.extras@) =~= before + density_extras(
                    json::json_tree(value),
                    report,
                ));
                let action = Action::WriteFile {
                    path: run.path().join("optimized.md"),
                    content: markdown.clone(),
                };
                Step::Next {
                    state: Optimize { run, config, progress: Progress::OptimizedMd { markdown } },
                    action,
                }
            },
            (Progress::OptimizedMd { markdown: _ }, Event::Done(Err(m))) => commands::fail(
                run,
                AtsError::Io(m),
            ),
            (Progress::OptimizedMd { markdown }, Event::Done(Ok(_))) => Step::Next {
                state: Optimize { run, config, progress: Progress::Printing },
                action: Action::Print { content: markdown, newline: true },
            },
            (Progress::Printing, Event::Printed(failure)) => commands::end_printed(run, failure),
            _ => vstd::pervasive::unreached(),
        }
    }
}

// ---------------------------------------------------------------------------
// Laws
// ---------------------------------------------------------------------------

/// The model is asked only with keywords that hold up: input that is no
/// catalogue fails the command with exit code six before there is a client.
pub proof fn bad_keywords_fail_before_the_client(o: Optimize, raw: String, step: Step<Optimize>)
    requires
        o.progress is ReadingKeywords,
        cli::input_problem(raw@) is Some,
        o.leads_to(Event::Input(Ok::<String, String>(raw)), step),
    ensures
        commands::failed(step, o.run) matches Some(e) && e.exit_code_spec() == 6,
{
}

} // verus!
