//! `ats pdf`: Markdown becomes a PDF.

use vstd::prelude::*;
use crate::audit::RunFolder;
use crate::cli::InputSource;
use crate::commands;
use crate::commands::{Action, Ended, Event, RenderFailure, Step};
use crate::error::AtsError;
use crate::json;
use crate::json::Tree;
use crate::ports::TokenUsage;
use crate::text;

verus! {

/// How far the command has come: what it waits for.
pub enum Progress {
    /// The Markdown.
    Reading,
    /// The PDF.
    Rendering,
    /// The size of the PDF.
    Measuring,
}

/// The command.
pub struct Pdf {
    pub run: RunFolder,
    pub out: String,
    pub progress: Progress,
}

/// What `run.json` says of the PDF.
pub open spec fn pdf_extras(size: u64, out: Seq<char>) -> Seq<(Seq<char>, Tree)> {
    seq![("bytes_written"@, Tree::Int(size as int)), ("output_path"@, Tree::Text(out))]
}

impl Pdf {
    /// The event is one that the command waits for.
    pub open spec fn awaits(self, event: Event) -> bool {
        match self.progress {
            Progress::Reading => event is Input,
            Progress::Rendering => event is Rendered,
            Progress::Measuring => event is Size,
        }
    }

    /// What comes after an event that the command waits for.
    pub open spec fn leads_to(self, event: Event, step: Step<Pdf>) -> bool {
        match (self.progress, event) {
            (Progress::Reading, Event::Input(Err(m))) => commands::failed(step, self.run) == Some(
                AtsError::Io(m),
            ),
            (Progress::Reading, Event::Input(Ok(md))) => {
                &&& step matches Step::Next { state, action }
                &&& state.run == self.run
                &&& state.out == self.out
                &&& state.progress is Rendering
                &&& action matches Action::RenderPdf { markdown, out }
                &&& markdown@ == md@
                &&& out@ == self.out@
            },
            (Progress::Rendering, Event::Rendered(Err(RenderFailure::Task(m)))) =>
                commands::failed(step, self.run) matches Some(AtsError::Other(n)) && n@
                    == "pdf task join: "@ + m@,
            (Progress::Rendering, Event::Rendered(Err(RenderFailure::Pdf(e)))) => commands::failed(
                step,
                self.run,
            ) matches Some(AtsError::Pdf(n)) && n@ == e.text(),
            (Progress::Rendering, Event::Rendered(Ok(_))) => {
                &&& step matches Step::Next { state, action }
                &&& state.run == self.run
                &&& state.out == self.out
                &&& state.progress is Measuring
                &&& action matches Action::Measure { path } && path@ == self.out@
            },
            (Progress::Measuring, Event::Size(Err(m))) => commands::failed(step, self.run) == Some(
                AtsError::Io(m),
            ),
            (Progress::Measuring, Event::Size(Ok(size))) => {
                &&& step matches Step::Over(end)
                &&& end.result is Ok
                &&& end.record is None
                &&& commands::noted(
                    self.run,
                    end.run,
                    TokenUsage::none(),
                    pdf_extras(size, self.out@),
                )
            },
            _ => true,
        }
    }

    /// Begins the command: the Markdown is to be read from standard input.
    pub fn start(run: RunFolder, out: &str) -> (r: Step<Pdf>)
        ensures
            r matches Step::Next { state, action } && {
                &&& state.run == run
                &&& state.out@ == out@
                &&& state.progress is Reading
                &&& action == Action::ReadInput(InputSource::Stdin)
            },
    {
        Step::Next {
            state: Pdf { run, out: out.to_string(), progress: Progress::Reading },
            action: Action::ReadInput(InputSource::Stdin),
        }
    }

    /// Whether the event is one that the command waits for.
    pub fn accepts(&self, event: &Event) -> (r: bool)
        ensures
            r == self.awaits(*event),
    {
        match (&self.progress, event) {
            (Progress::Reading, Event::Input(_)) => true,
            (Progress::Rendering, Event::Rendered(_)) => true,
            (Progress::Measuring, Event::Size(_)) => true,
            _ => false,
        }
    }

    /// Takes the command to what comes after an event.
    pub fn step(self, event: Event) -> (r: Step<Pdf>)
        requires
            self.awaits(event),
        ensures
            self.leads_to(event, r),
    {
        let Pdf { run, out, progress } = self;
        match (progress, event) {
            (Progress::Reading, Event::Input(Err(m))) => commands::fail(run, AtsError::Io(m)),
            (Progress::Reading, Event::Input(Ok(markdown))) => {
                let action = Action::RenderPdf { markdown, out: out.clone() };
                Step::Next { state: Pdf { run, out, progress: Progress::Rendering }, action }
            },
            (Progress::Rendering, Event::Rendered(Err(RenderFailure::Task(m)))) => commands::fail(
                run,
                AtsError::Other(text::concat2("pdf task join: ", m.as_str())),
            ),
            (Progress::Rendering, Event::Rendered(Err(RenderFailure::Pdf(e)))) => commands::fail(
                run,
                AtsError::from_pdf(e),
            ),
            (Progress::Rendering, Event::Rendered(Ok(_))) => {
                let action = Action::Measure { path: out.clone() };
                Step::Next { state: Pdf { run, out, progress: Progress::Measuring }, action }
            },
            (Progress::Measuring, Event::Size(Err(m))) => commands::fail(run, AtsError::Io(m)),
            (Progress::Measuring, Event::Size(Ok(size))) => {
                let mut run = run;
                let ghost before = crate::audit::extras_view(run.extras@);
                run.set_extra("bytes_written", json::unsigned_value(size));
                run.set_extra("output_path", json::text_value(out.as_str()));
                assert(crate::audit::extras_view(run.extras@) =~= before + pdf_extras(size, out@));
                Step::Over(Ended { run, result: Ok(()), record: None })
            },
            _ => vstd::pervasive::unreached(),
        }
    }
}

// ---------------------------------------------------------------------------
// Laws
// ---------------------------------------------------------------------------

/// Standard output is never touched.
pub proof fn nothing_is_printed(p: Pdf, event: Event, step: Step<Pdf>)
    requires
        p.awaits(event),
        p.leads_to(event, step),
    ensures
        step matches Step::Next { state, action } ==> !(action is Print),
{
}

} // verus!
