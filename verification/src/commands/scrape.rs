//! `ats scrape`: a page becomes a posting.

use vstd::prelude::*;
use crate::audit;
use crate::audit::{RenamePlan, RunFolder};
use crate::commands;
use crate::commands::{Action, Event, Step};
use crate::config::Config;
use crate::domain::JobPosting;
use crate::error::AtsError;
use crate::scrape_port::ScrapeError;
use crate::slug;
use crate::stage::scrape;
use crate::stage::scrape::ScrapeStageOutcome;
use crate::text;

verus! {

/// How far the command has come: what it waits for.
pub enum Progress {
    /// The client.
    Opening,
    /// The page.
    Fetching,
    /// The posting.
    Asking,
    /// The name of the run folder.
    Renaming { posting: JobPosting, slug: String },
    /// The posting as JSON.
    Serialising { posting: JobPosting },
    /// `posting.json`.
    PostingJson { posting: JobPosting, json: String },
    /// `posting.md`.
    PostingMd { json: String },
    /// The output.
    Printing,
}

/// The command.
pub struct Scrape {
    pub run: RunFolder,
    pub config: Config,
    pub url: String,
    pub progress: Progress,
}

/// `b` is `a` under another slug.
pub open spec fn renamed_to(a: RunFolder, b: RunFolder, slug: Seq<char>) -> bool {
    &&& b.runs_dir == a.runs_dir
    &&& b.started_at == a.started_at
    &&& b.command == a.command
    &&& audit::slug_text(b.named_slug) == Some(slug)
    &&& audit::slug_text(b.slug) == Some(slug)
    &&& b.args_summary == a.args_summary
    &&& b.config_snapshot == a.config_snapshot
    &&& b.token_usage_total == a.token_usage_total
    &&& b.extras == a.extras
}

/// `b` is `a` with a slug on record, and where it was.
pub open spec fn slugged(a: RunFolder, b: RunFolder, slug: Seq<char>) -> bool {
    &&& b.runs_dir == a.runs_dir
    &&& b.started_at == a.started_at
    &&& b.command == a.command
    &&& b.named_slug == a.named_slug
    &&& audit::slug_text(b.slug) == Some(slug)
    &&& b.args_summary == a.args_summary
    &&& b.config_snapshot == a.config_snapshot
    &&& b.token_usage_total == a.token_usage_total
    &&& b.extras == a.extras
}

impl Scrape {
    /// The run has a name.
    pub open spec fn wf(self) -> bool {
        self.run.started_at.wf()
    }

    /// The event is one that the command waits for, and its tokens can be added
    /// to those of the run.
    pub open spec fn awaits(self, event: Event) -> bool {
        match self.progress {
            Progress::Opening => event is Opened,
            Progress::Fetching => event is Page,
            Progress::Asking => event matches Event::Reply { reply, timestamp } && (reply matches Ok(
                response,
            ) ==> self.run.token_usage_total.fits(response.usage)),
            Progress::Renaming { posting, slug } => event is Renamed,
            Progress::Serialising { posting } => event is Serialised,
            Progress::PostingJson { posting, json } => event is Done,
            Progress::PostingMd { json } => event is Done,
            Progress::Printing => event is Printed,
        }
    }

    /// The command goes on with the same run, with the progress and the action.
    pub open spec fn goes_on(self, step: Step<Scrape>) -> bool {
        step matches Step::Next { state, action } && state.wf() && state.config == self.config
            && state.url == self.url
    }

    /// A reply that holds a posting: its tokens are noted, and the folder is to
    /// be renamed where its name is not the right one already.
    pub open spec fn after_posting(self, o: ScrapeStageOutcome, step: Step<Scrape>) -> bool {
        let slug = slug::slug_of(o.posting.title@);
        let target = audit::run_name(self.run.started_at, self.run.command@, Some(slug));
        &&& self.goes_on(step)
        &&& step matches Step::Next { state, action }
        &&& if slug.len() == 0 {
            &&& commands::noted(self.run, state.run, o.usage, commands::usage_extras(o.usage))
            &&& state.progress == (Progress::Serialising { posting: o.posting })
            &&& action is Serialise
        } else if audit::same_place(self.run.name(), target) {
            &&& exists|run: RunFolder|
                #[trigger]
                commands::noted(self.run, run, o.usage, commands::usage_extras(o.usage))
                    && slugged(run, state.run, slug)
            &&& state.progress == (Progress::Serialising { posting: o.posting })
            &&& action is Serialise
        } else {
            &&& commands::noted(self.run, state.run, o.usage, commands::usage_extras(o.usage))
            &&& state.progress matches Progress::Renaming { posting, slug: s }
            &&& posting == o.posting
            &&& s@ == slug
            &&& action matches Action::RenameFolder { from, to }
            &&& from@ == self.run.path_spec()
            &&& to@ == self.run.runs_dir@.child(target)
        }
    }

    /// What comes after an event that the command waits for.
    pub open spec fn leads_to(self, event: Event, step: Step<Scrape>) -> bool {
        match (self.progress, event) {
            (Progress::Opening, Event::Opened(Err(f))) => commands::failed(step, self.run)
                matches Some(e) && commands::is_open_error(f, e),
            (Progress::Opening, Event::Opened(Ok(_))) => {
                &&& self.goes_on(step)
                &&& step matches Step::Next { state, action }
                &&& state.run == self.run
                &&& state.progress is Fetching
                &&& action matches Action::FetchHtml { url, idle_timeout_ms }
                &&& url@ == self.url@
                &&& idle_timeout_ms == self.config.scrape.network_idle_timeout_ms
            },
            (Progress::Fetching, Event::Page(Err(e))) => commands::failed(step, self.run) == Some(
                scrape::page_error(e),
            ),
            (Progress::Fetching, Event::Page(Ok(html))) => match crate::schema::scrape_format() {
                Err(cause) => commands::failed(step, self.run) matches Some(AtsError::Other(m))
                    && m@ == "posting schema: "@ + cause,
                Ok(_) => {
                    &&& self.goes_on(step)
                    &&& step matches Step::Next { state, action }
                    &&& state.run == self.run
                    &&& state.progress is Asking
                    &&& action matches Action::Ask { record: None, request }
                    &&& scrape::is_request(
                        html@,
                        self.config.models.scrape_to_markdown,
                        request,
                    )
                },
            },
            (Progress::Asking, Event::Reply { reply, timestamp }) => match step {
                Step::Next { state, action } => exists|o: ScrapeStageOutcome|
                    #[trigger]
                    self.after_posting(o, step) && scrape::is_outcome(
                        reply,
                        Ok::<ScrapeStageOutcome, AtsError>(o),
                    ),
                Step::Over(_) => commands::failed(step, self.run) matches Some(e)
                    && scrape::is_outcome(reply, Err::<ScrapeStageOutcome, AtsError>(e)),
            },
            (Progress::Renaming { posting, slug }, Event::Renamed(result)) => {
                &&& self.goes_on(step)
                &&& step matches Step::Next { state, action }
                &&& if result is Ok {
                    renamed_to(self.run, state.run, slug@)
                } else {
                    state.run == self.run
                }
                &&& state.progress == (Progress::Serialising { posting })
                &&& action is Serialise
            },
            (Progress::Serialising { posting }, Event::Serialised(Err(m))) => commands::failed(
                step,
                self.run,
            ) matches Some(AtsError::Other(n)) && n@ == "failed to serialise posting: "@ + m@,
            (Progress::Serialising { posting }, Event::Serialised(Ok(text))) => {
                &&& self.goes_on(step)
                &&& step matches Step::Next { state, action }
                &&& state.run == self.run
                &&& state.progress == (Progress::PostingJson { posting, json: text })
                &&& commands::writes(action, self.run.path_spec().child("posting.json"@), text@)
            },
            (Progress::PostingJson { posting, json }, Event::Done(Err(m))) => commands::failed(
                step,
                self.run,
            ) == Some(AtsError::Io(m)),
            (Progress::PostingJson { posting, json }, Event::Done(Ok(_))) => {
                &&& self.goes_on(step)
                &&& step matches Step::Next { state, action }
                &&& state.run == self.run
                &&& state.progress == (Progress::PostingMd { json })
                &&& commands::writes(
                    action,
                    self.run.path_spec().child("posting.md"@),
                    posting.markdown@,
                )
            },
            (Progress::PostingMd { json }, Event::Done(Err(m))) => commands::failed(
                step,
                self.run,
            ) == Some(AtsError::Io(m)),
            (Progress::PostingMd { json }, Event::Done(Ok(_))) => {
                &&& self.goes_on(step)
                &&& step matches Step::Next { state, action }
                &&& state.run == self.run
                &&& state.progress is Printing
                &&& commands::prints(action, json@, true)
            },
            (Progress::Printing, Event::Printed(failure)) => commands::ends_printed(
                step,
                self.run,
                failure,
            ),
            _ => true,
        }
    }

    /// Begins the command: the audit log is to be opened.
    pub fn start(run: RunFolder, config: Config, url: &str) -> (r: Step<Scrape>)
        requires
            run.started_at.wf(),
        ensures
            r matches Step::Next { state, action } && {
                &&& state.wf()
                &&& state.run == run
                &&& state.config == config
                &&& state.url@ == url@
                &&& state.progress is Opening
                &&& action matches Action::OpenAudit { path } && path@ == commands::audit_log(run)
            },
    {
        let action = commands::open_audit(&run);
        Step::Next {
            state: Scrape { run, config, url: url.to_string(), progress: Progress::Opening },
            action,
        }
    }

    /// Whether the event is one that the command waits for, and its tokens can be
    /// added to those of the run.
    pub fn accepts(&self, event: &Event) -> (r: bool)
        ensures
            r == self.awaits(*event),
    {
        match (&self.progress, event) {
            (Progress::Opening, Event::Opened(_)) => true,
            (Progress::Fetching, Event::Page(_)) => true,
            (Progress::Asking, Event::Reply { reply: Ok(response), timestamp: _ }) =>
                self.run.token_usage_total.can_add(&response.usage),
            (Progress::Asking, Event::Reply { reply: Err(_), timestamp: _ }) => true,
            (Progress::Renaming { posting: _, slug: _ }, Event::Renamed(_)) => true,
            (Progress::Serialising { posting: _ }, Event::Serialised(_)) => true,
            (Progress::PostingJson { posting: _, json: _ }, Event::Done(_)) => true,
            (Progress::PostingMd { json: _ }, Event::Done(_)) => true,
            (Progress::Printing, Event::Printed(_)) => true,
            _ => false,
        }
    }

    /// The posting, where it is to be given as JSON.
    pub fn posting(&self) -> (r: Option<&JobPosting>)
        ensures
            match self.progress {
                Progress::Serialising { posting } => r == Some(&posting),
                _ => r is None,
            },
    {
        match &self.progress {
            Progress::Serialising { posting } => Some(posting),
            _ => None,
        }
    }

    /// Takes the command to what comes after an event.
    pub fn step(self, event: Event) -> (r: Step<Scrape>)
        requires
            self.wf(),
            self.awaits(event),
        ensures
            self.leads_to(event, r),
    {
        let Scrape { run, config, url, progress } = self;
        match (progress, event) {
            (Progress::Opening, Event::Opened(Err(f))) => commands::fail(
                run,
                commands::open_error(f),
            ),
            (Progress::Opening, Event::Opened(Ok(_))) => {
                let action = Action::FetchHtml {
                    url: url.clone(),
                    idle_timeout_ms: config.scrape.network_idle_timeout_ms,
                };
                Step::Next {
                    state: Scrape { run, config, url, progress: Progress::Fetching },
                    action,
                }
            },
            (Progress::Fetching, Event::Page(page)) => match scrape::on_page(
                page,
                &config.models.scrape_to_markdown,
            ) {
                Err(e) => commands::fail(run, e),
                Ok(request) => Step::Next {
                    state: Scrape { run, config, url, progress: Progress::Asking },
                    action: Action::Ask { record: None, request },
                },
            },
            (Progress::Asking, Event::Reply { reply, timestamp: _ }) => match scrape::on_reply(
                reply,
            ) {
                Err(e) => commands::fail(run, e),
                Ok(outcome) => {
                    let ghost o = outcome;
                    let step = name_folder(run, config, url, outcome);
                    assert(self.after_posting(o, step));
                    step
                },
            },
            (Progress::Renaming { posting, slug }, Event::Renamed(result)) => {
                let mut run = run;
                if let Ok(_) = result {
                    run.renamed(slug.as_str());
                }
                Step::Next {
                    state: Scrape { run, config, url, progress: Progress::Serialising { posting } },
                    action: Action::Serialise,
                }
            },
            (Progress::Serialising { posting: _ }, Event::Serialised(Err(m))) => commands::fail(
                run,
                AtsError::Other(text::concat2("failed to serialise posting: ", m.as_str())),
            ),
            (Progress::Serialising { posting }, Event::Serialised(Ok(json))) => {
                let action = Action::WriteFile {
                    path: run.path().join("posting.json"),
                    content: json.clone(),
                };
                Step::Next {
                    state: Scrape {
                        run,
                        config,
                        url,
                        progress: Progress::PostingJson { posting, json },
                    },
                    action,
                }
            },
            (Progress::PostingJson { posting: _, json: _ }, Event::Done(Err(m))) => commands::fail(
                run,
                AtsError::Io(m),
            ),
            (Progress::PostingJson { posting, json }, Event::Done(Ok(_))) => {
                let action = Action::WriteFile {
                    path: run.path().join("posting.md"),
                    content: posting.markdown,
                };
                Step::Next {
                    state: Scrape { run, config, url, progress: Progress::PostingMd { json } },
                    action,
                }
            },
            (Progress::PostingMd { json: _ }, Event::Done(Err(m))) => commands::fail(
                run,
                AtsError::Io(m),
            ),
            (Progress::PostingMd { json }, Event::Done(Ok(_))) => Step::Next {
                state: Scrape { run, config, url, progress: Progress::Printing },
                action: Action::Print { content: json, newline: true },
            },
            (Progress::Printing, Event::Printed(failure)) => commands::end_printed(run, failure),
            _ => vstd::pervasive::unreached(),
        }
    }
}

/// Notes the tokens of the call, and looks for the name of the folder.
fn name_folder(run: RunFolder, config: Config, url: String, outcome: ScrapeStageOutcome) -> (r: Step<
    Scrape,
>)
    requires
        run.started_at.wf(),
        run.token_usage_total.fits(outcome.usage),
    ensures
        (Scrape { run, config, url, progress: Progress::Asking }).after_posting(outcome, r),
{
    let mut noted = commands::note_usage(run, &outcome.usage);
    let slug = slug::sanitize_title(outcome.posting.title.as_str());
    let posting = outcome.posting;
    match noted.plan_rename(slug.as_str()) {
        RenamePlan::Keep => Step::Next {
            state: Scrape {
                run: noted,
                config,
                url,
                progress: Progress::Serialising { posting },
            },
            action: Action::Serialise,
        },
        RenamePlan::Named => {
            let ghost before = noted;
            noted.keep_path(slug.as_str());
            assert(commands::noted(
                run,
                before,
                outcome.usage,
                commands::usage_extras(outcome.usage),
            ));
            Step::Next {
                state: Scrape {
                    run: noted,
                    config,
                    url,
                    progress: Progress::Serialising { posting },
                },
                action: Action::Serialise,
            }
        },
        RenamePlan::Rename { from, to } => Step::Next {
            state: Scrape {
                run: noted,
                config,
                url,
                progress: Progress::Renaming { posting, slug },
            },
            action: Action::RenameFolder { from, to },
        },
    }
}

// ---------------------------------------------------------------------------
// Laws
// ---------------------------------------------------------------------------

/// A folder that cannot be renamed does not fail the command: it keeps its name,
/// and the posting is written all the same.
pub proof fn refused_rename_keeps_the_folder(s: Scrape, cause: String, step: Step<Scrape>)
    requires
        s.progress is Renaming,
        s.leads_to(Event::Renamed(Err::<(), String>(cause)), step),
    ensures
        step matches Step::Next { state, action } && state.run == s.run && state.progress
            is Serialising,
{
}

/// A page that cannot be fetched fails the command with exit code four, and the
/// model is not asked.
pub proof fn unreachable_page_fails_the_command(s: Scrape, e: ScrapeError, step: Step<Scrape>)
    requires
        s.progress is Fetching,
        s.leads_to(Event::Page(Err::<String, ScrapeError>(e)), step),
    ensures
        commands::failed(step, s.run) matches Some(err) && err.exit_code_spec() == 4,
{
}

} // verus!
