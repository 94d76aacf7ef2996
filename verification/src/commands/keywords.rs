//! `ats keywords`: a posting becomes a keyword catalogue.

use vstd::prelude::*;
use crate::audit::RunFolder;
use crate::cli::InputSource;
use crate::commands;
use crate::commands::{Action, Ended, Event, Step};
use crate::config::Config;
use crate::decode::Decode;
use crate::domain::KeywordSet;
use crate::error::AtsError;
use crate::json;
use crate::ports::{LlmResponse, TokenUsage};
use crate::schema;
use crate::stage::keywords;
use crate::stage::keywords::{KeywordExtraction, KeywordExtractionOutcome, KeywordStep};
use crate::text;

verus! {

/// How far the command has come: what it waits for.
pub enum Progress {
    /// The posting.
    Reading,
    /// The client.
    Opening { posting_md: String },
    /// The catalogue.
    Extracting(KeywordExtraction),
    /// The catalogue as JSON.
    Serialising { set: KeywordSet, markdown: String },
    /// `keywords.json`.
    KeywordsJson { markdown: String, json: String },
    /// `keywords.md`.
    KeywordsMd { json: String },
    /// The output.
    Printing,
}

/// The command.
pub struct Keywords {
    pub run: RunFolder,
    pub config: Config,
    pub progress: Progress,
}

impl Keywords {
    /// The run has a name, and the extraction is within its attempts.
    pub open spec fn wf(self) -> bool {
        &&& self.run.started_at.wf()
        &&& self.progress matches Progress::Extracting(x) ==> x.wf()
    }

    /// The event is one that the command waits for, and its tokens can be added
    /// to those of the run.
    pub open spec fn awaits(self, event: Event) -> bool {
        match self.progress {
            Progress::Reading => event is Input,
            Progress::Opening { posting_md } => event is Opened,
            Progress::Extracting(x) => event matches Event::Reply { reply, timestamp } && (reply
                matches Ok(response) ==> x.usage_total.fits(response.usage)
                && self.run.token_usage_total.fits(x.usage_total.sum(response.usage))),
            Progress::Serialising { set, markdown } => event is Serialised,
            Progress::KeywordsJson { markdown, json } => event is Done,
            Progress::KeywordsMd { json } => event is Done,
            Progress::Printing => event is Printed,
        }
    }

    /// The command goes on.
    pub open spec fn goes_on(self, step: Step<Keywords>) -> bool {
        step matches Step::Next { state, action } && state.wf() && state.config == self.config
    }

    /// The extraction begins, or cannot begin.
    pub open spec fn after_open(self, posting_md: Seq<char>, step: Step<Keywords>) -> bool {
        let max = self.config.retries.schema_validation_max_attempts;
        if max == 0 {
            commands::failed(step, self.run) matches Some(AtsError::Other(m)) && m@
                == "schema_validation_max_attempts must be >= 1"@
        } else {
            match schema::keyword_format() {
                Err(cause) => commands::failed(step, self.run) matches Some(AtsError::Other(m))
                    && m@ == "keyword schema: "@ + cause,
                Ok(format) => {
                    &&& self.goes_on(step)
                    &&& step matches Step::Next { state, action }
                    &&& state.run == self.run
                    &&& state.progress matches Progress::Extracting(x)
                    &&& x.posting_md@ == posting_md
                    &&& self.config.models.keyword_extraction.same(x.model)
                    &&& json::json_tree(x.response_format) == format
                    &&& x.max_attempts == max
                    &&& x.attempt == 1
                    &&& x.usage_total == TokenUsage::none()
                    &&& action matches Action::Ask { record: None, request }
                    &&& x.is_request(request)
                },
            }
        }
    }

    /// A reply of the model.
    pub open spec fn after_response(
        self,
        x: KeywordExtraction,
        response: LlmResponse,
        timestamp: Seq<char>,
        step: Step<Keywords>,
    ) -> bool {
        match keywords::content_problem(response.content@) {
            None => {
                let spent = x.usage_total.sum(response.usage);
                &&& self.goes_on(step)
                &&& step matches Step::Next { state, action }
                &&& commands::noted(self.run, state.run, spent, commands::usage_extras(spent))
                &&& state.progress matches Progress::Serialising { set, markdown }
                &&& KeywordSet::decodes(json::json_parsed(response.content@)->Ok_0, set)
                &&& markdown@ == keywords::markdown_view(set)
                &&& action is Serialise
            },
            Some(reason) => if x.attempt < x.max_attempts {
                &&& self.goes_on(step)
                &&& step matches Step::Next { state, action }
                &&& state.run == self.run
                &&& state.progress matches Progress::Extracting(next)
                &&& x.followed_by(next, response.usage)
                &&& action matches Action::Ask { record: Some(rec), request }
                &&& keywords::is_invalid_record(rec, x, response, reason, timestamp)
                &&& next.is_request(request)
            } else {
                &&& step matches Step::Over(end)
                &&& end.run == self.run
                &&& end.result matches Err(AtsError::SchemaInvalid(m)) && m@
                    == keywords::exhausted_message(x.max_attempts, reason, response.content@)
                &&& end.record matches Some(rec) && keywords::is_invalid_record(
                    rec,
                    x,
                    response,
                    reason,
                    timestamp,
                )
            },
        }
    }

    /// What comes after an event that the command waits for.
    pub open spec fn leads_to(self, event: Event, step: Step<Keywords>) -> bool {
        match (self.progress, event) {
            (Progress::Reading, Event::Input(Err(m))) => commands::failed(step, self.run) == Some(
                AtsError::Io(m),
            ),
            (Progress::Reading, Event::Input(Ok(posting))) => {
                &&& self.goes_on(step)
                &&& step matches Step::Next { state, action }
                &&& state.run == self.run
                &&& state.progress == (Progress::Opening { posting_md: posting })
                &&& action matches Action::OpenAudit { path }
                &&& path@ == commands::audit_log(self.run)
            },
            (Progress::Opening { posting_md }, Event::Opened(Err(f))) => commands::failed(
                step,
                self.run,
            ) matches Some(e) && commands::is_open_error(f, e),
            (Progress::Opening { posting_md }, Event::Opened(Ok(_))) => self.after_open(
                posting_md@,
                step,
            ),
            (Progress::Extracting(x), Event::Reply { reply: Err(e), timestamp }) =>
                commands::failed(step, self.run) matches Some(AtsError::Llm(c)) && e.class_of(c),
            (Progress::Extracting(x), Event::Reply { reply: Ok(response), timestamp }) =>
                self.after_response(x, response, timestamp@, step),
            (Progress::Serialising { set, markdown }, Event::Serialised(Err(m))) =>
                commands::failed(step, self.run) matches Some(AtsError::Other(n)) && n@
                    == "failed to serialise KeywordSet: "@ + m@,
            (Progress::Serialising { set, markdown }, Event::Serialised(Ok(text))) => {
                &&& self.goes_on(step)
                &&& step matches Step::Next { state, action }
                &&& state.run == self.run
                &&& state.progress == (Progress::KeywordsJson { markdown, json: text })
                &&& commands::writes(action, self.run.path_spec().child("keywords.json"@), text@)
            },
            (Progress::KeywordsJson { markdown, json }, Event::Done(Err(m))) => commands::failed(
                step,
                self.run,
            ) == Some(AtsError::Io(m)),
            (Progress::KeywordsJson { markdown, json }, Event::Done(Ok(_))) => {
                &&& self.goes_on(step)
                &&& step matches Step::Next { state, action }
                &&& state.run == self.run
                &&& state.progress == (Progress::KeywordsMd { json })
                &&& commands::writes(action, self.run.path_spec().child("keywords.md"@), markdown@)
            },
            (Progress::KeywordsMd { json }, Event::Done(Err(m))) => commands::failed(
                step,
                self.run,
            ) == Some(AtsError::Io(m)),
            (Progress::KeywordsMd { json }, Event::Done(Ok(_))) => {
                &&& self.goes_on(step)
                &&& step matches Step::Next { state, action }
                &&& state.run == self.run
                &&& state.progress is Printing
                &&& commands::prints(action, json@, true)
            },
            (Progress::Printing, Event::Printed(failure)) => commands::ends_printed(
                step,
                self.run,
                failure,
            ),
            _ => true,
        }
    }

    /// Begins the command: the posting is to be read from standard input.
    pub fn start(run: RunFolder, config: Config) -> (r: Step<Keywords>)
        requires
            run.started_at.wf(),
        ensures
            r matches Step::Next { state, action } && {
                &&& state.wf()
                &&& state.run == run
                &&& state.config == config
                &&& state.progress is Reading
                &&& action == Action::ReadInput(InputSource::Stdin)
            },
    {
        Step::Next {
            state: Keywords { run, config, progress: Progress::Reading },
            action: Action::ReadInput(InputSource::Stdin),
        }
    }

    /// Whether the event is one that the command waits for, and its tokens can be
    /// added to those of the run.
    pub fn accepts(&self, event: &Event) -> (r: bool)
        ensures
            r == self.awaits(*event),
    {
        match (&self.progress, event) {
            (Progress::Reading, Event::Input(_)) => true,
            (Progress::Opening { posting_md: _ }, Event::Opened(_)) => true,
            (Progress::Extracting(x), Event::Reply { reply: Ok(response), timestamp: _ }) => {
                if !x.usage_total.can_add(&response.usage) {
                    return false;
                }
                let spent = x.usage_total.plus(&response.usage);
                self.run.token_usage_total.can_add(&spent)
            },
            (Progress::Extracting(_), Event::Reply { reply: Err(_), timestamp: _ }) => true,
            (Progress::Serialising { set: _, markdown: _ }, Event::Serialised(_)) => true,
            (Progress::KeywordsJson { markdown: _, json: _ }, Event::Done(_)) => true,
            (Progress::KeywordsMd { json: _ }, Event::Done(_)) => true,
            (Progress::Printing, Event::Printed(_)) => true,
            _ => false,
        }
    }

    /// The catalogue, where it is to be given as JSON.
    pub fn catalogue(&self) -> (r: Option<&KeywordSet>)
        ensures
            match self.progress {
                Progress::Serialising { set, markdown } => r == Some(&set),
                _ => r is None,
            },
    {
        match &self.progress {
            Progress::Serialising { set, markdown: _ } => Some(set),
            _ => None,
        }
    }

    /// Takes the command to what comes after an event.
    pub fn step(self, event: Event) -> (r: Step<Keywords>)
        requires
            self.wf(),
            self.awaits(event),
        ensures
            self.leads_to(event, r),
    {
        let Keywords { run, config, progress } = self;
        match (progress, event) {
            (Progress::Reading, Event::Input(Err(m))) => commands::fail(run, AtsError::Io(m)),
            (Progress::Reading, Event::Input(Ok(posting_md))) => {
                let action = commands::open_audit(&run);
                Step::Next {
                    state: Keywords { run, config, progress: Progress::Opening { posting_md } },
                    action,
                }
            },
            (Progress::Opening { posting_md: _ }, Event::Opened(Err(f))) => commands::fail(
                run,
                commands::open_error(f),
            ),
            (Progress::Opening { posting_md }, Event::Opened(Ok(_))) => {
                let started = KeywordExtraction::start(
                    posting_md.as_str(),
                    &config.models.keyword_extraction,
                    config.retries.schema_validation_max_attempts,
                );
                match started {
                    Err(e) => commands::fail(run, e),
                    Ok(x) => {
                        let request = x.request();
                        Step::Next {
                            state: Keywords { run, config, progress: Progress::Extracting(x) },
                            action: Action::Ask { record: None, request },
                        }
                    },
                }
            },
            (Progress::Extracting(x), Event::Reply { reply, timestamp }) => match x.on_reply(
                reply,
                timestamp,
            ) {
                KeywordStep::Failed { error, record } => Step::Over(
                    Ended { run, result: Err(error), record },
                ),
                KeywordStep::Retry { next, record } => {
                    let request = next.request();
                    Step::Next {
                        state: Keywords { run, config, progress: Progress::Extracting(next) },
                        action: Action::Ask { record: Some(record), request },
                    }
                },
                KeywordStep::Done(outcome) => {
                    let KeywordExtractionOutcome { set, markdown, usage_total } = outcome;
                    let run = commands::note_usage(run, &usage_total);
                    Step::Next {
                        state: Keywords {
                            run,
                            config,
                            progress: Progress::Serialising { set, markdown },
                        },
                        action: Action::Serialise,
                    }
                },
            },
            (Progress::Serialising { set: _, markdown: _ }, Event::Serialised(Err(m))) =>
                commands::fail(
                    run,
                    AtsError::Other(
                        text::concat2("failed to serialise KeywordSet: ", m.as_str()),
                    ),
                ),
            (Progress::Serialising { set: _, markdown }, Event::Serialised(Ok(json))) => {
                let action = Action::WriteFile {
                    path: run.path().join("keywords.json"),
                    content: json.clone(),
                };
                Step::Next {
                    state: Keywords {
                        run,
                        config,
                        progress: Progress::KeywordsJson { markdown, json },
                    },
                    action,
                }
            },
            (Progress::KeywordsJson { markdown: _, json: _ }, Event::Done(Err(m))) =>
                commands::fail(run, AtsError::Io(m)),
            (Progress::KeywordsJson { markdown, json }, Event::Done(Ok(_))) => {
                let action = Action::WriteFile {
                    path: run.path().join("keywords.md"),
                    content: markdown,
                };
                Step::Next {
                    state: Keywords { run, config, progress: Progress::KeywordsMd { json } },
                    action,
                }
            },
            (Progress::KeywordsMd { json: _ }, Event::Done(Err(m))) => commands::fail(
                run,
                AtsError::Io(m),
            ),
            (Progress::KeywordsMd { json }, Event::Done(Ok(_))) => Step::Next {
                state: Keywords { run, config, progress: Progress::Printing },
                action: Action::Print { content: json, newline: true },
            },
            (Progress::Printing, Event::Printed(failure)) => commands::end_printed(run, failure),
            _ => vstd::pervasive::unreached(),
        }
    }
}

// ---------------------------------------------------------------------------
// Laws
// ---------------------------------------------------------------------------

/// A reply without a catalogue is never lost: whether it is asked for again or
/// not, the next step carries its record; and the command fails with exit code
/// six only when no attempt is left.
pub proof fn invalid_replies_are_recorded(
    k: Keywords,
    response: LlmResponse,
    timestamp: String,
    step: Step<Keywords>,
)
    requires
        k.progress is Extracting,
        keywords::content_problem(response.content@) is Some,
        k.leads_to(Event::Reply { reply: Ok(response), timestamp }, step),
    ensures
        match step {
            Step::Next { state, action } => action matches Action::Ask { record, request } && record
                is Some,
            Step::Over(end) => {
                &&& end.record is Some
                &&& commands::exit_code_of(end.result) == 6
                &&& k.progress matches Progress::Extracting(x) && x.attempt >= x.max_attempts
            },
        },
{
}

} // verus!
