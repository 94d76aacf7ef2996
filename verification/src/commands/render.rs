//! `ats render`: the baseline of a resume document, from the cache or rendered
//! anew.

use vstd::prelude::*;
use crate::audit::RunFolder;
use crate::cli;
use crate::commands;
use crate::commands::{Action, Event, Step};
use crate::domain::Resume;
use crate::error::AtsError;
use crate::fs_layout;
use crate::fs_layout::BinaryFsLayout;
use crate::json;
use crate::json::Tree;
use crate::ports::TokenUsage;
use crate::render::cache;
use crate::render::markdown;
use crate::render::validate;

verus! {

/// How far the command has come: what it waits for.
pub enum Progress {
    /// The resume document.
    Reading { path: String },
    /// The cached baseline.
    Loading { yaml: Vec<u8>, resume: Resume },
    /// The new baseline in the cache.
    Storing { content: String, shown: String },
    /// The output.
    Printing,
}

/// The command.
pub struct Render {
    pub run: RunFolder,
    pub layout: BinaryFsLayout,
    pub progress: Progress,
}

/// What `run.json` says of the baseline.
pub open spec fn cache_extras(cached: bool, shown: Seq<char>) -> Seq<(Seq<char>, Tree)> {
    seq![("cached"@, Tree::Bool(cached)), ("cache_path"@, Tree::Text(shown))]
}

/// The step notes where the baseline came from, and then prints it.
pub open spec fn prints_baseline(
    from: Render,
    cached: bool,
    shown: Seq<char>,
    content: Seq<char>,
    step: Step<Render>,
) -> bool {
    &&& step matches Step::Next { state, action }
    &&& state.progress is Printing
    &&& commands::noted(from.run, state.run, TokenUsage::none(), cache_extras(cached, shown))
    &&& commands::prints(action, content, false)
}

/// Notes where the baseline came from, and prints it.
fn print_baseline(run: RunFolder, layout: BinaryFsLayout, cached: bool, shown: String, content: String) -> (r:
    Step<Render>)
    ensures
        r matches Step::Next { state, action } && {
            &&& state.progress is Printing
            &&& commands::noted(run, state.run, TokenUsage::none(), cache_extras(cached, shown@))
            &&& commands::prints(action, content@, false)
        },
{
    let mut run = run;
    let ghost before = crate::audit::extras_view(run.extras@);
    run.set_extra("cached", json::bool_value(cached));
    run.set_extra("cache_path", json::text_value(shown.as_str()));
    assert(crate::audit::extras_view(run.extras@) =~= before + cache_extras(cached, shown@));
    Step::Next {
        state: Render { run, layout, progress: Progress::Printing },
        action: Action::Print { content, newline: false },
    }
}

impl Render {
    /// The event is one that the command waits for.
    pub open spec fn awaits(self, event: Event) -> bool {
        match self.progress {
            Progress::Reading { path } => event is Yaml,
            Progress::Loading { yaml, resume } => event is Stored,
            Progress::Storing { content, shown } => event is Done,
            Progress::Printing => event is Printed,
        }
    }

    /// What comes after an event that the command waits for.
    pub open spec fn leads_to(self, event: Event, step: Step<Render>) -> bool {
        match (self.progress, event) {
            (Progress::Reading { path }, Event::Yaml(Err(f))) => commands::failed(step, self.run)
                matches Some(e) && (if f.missing {
                e matches AtsError::Yaml(d) && d@ == validate::structural_diag(
                    None,
                    "yaml file not found: "@ + path@,
                )
            } else {
                e matches AtsError::Io(m) && m@ == f.cause@
            }),
            (Progress::Reading { path }, Event::Yaml(Ok(bytes))) => match validate::document_diag(
                bytes@,
            ) {
                Some(d) => commands::failed(step, self.run) matches Some(AtsError::Yaml(x)) && x@
                    == d,
                None => {
                    &&& step matches Step::Next { state, action }
                    &&& state.run == self.run
                    &&& state.layout == self.layout
                    &&& state.progress matches Progress::Loading { yaml, resume }
                    &&& yaml == bytes
                    &&& validate::resume_of(validate::yaml_parsed(bytes@)->Ok_0, resume)
                    &&& action matches Action::LoadCache { path: p }
                    &&& p@ == cache::cache_file(self.layout, bytes@)
                },
            },
            (Progress::Loading { yaml, resume }, Event::Stored { stored: Err(m), shown }) =>
                commands::failed(step, self.run) == Some(AtsError::Io(m)),
            (Progress::Loading { yaml, resume }, Event::Stored { stored: Ok(Some(c)), shown }) =>
                prints_baseline(self, true, shown@, c@, step),
            (Progress::Loading { yaml, resume }, Event::Stored { stored: Ok(None), shown }) => {
                &&& step matches Step::Next { state, action }
                &&& state.run == self.run
                &&& state.progress matches Progress::Storing { content, shown: s }
                &&& content@ == markdown::baseline(resume)
                &&& s@ == shown@
                &&& action matches Action::StoreCache(w)
                &&& w.content@ == markdown::baseline(resume)
                &&& w.path@ == cache::cache_file(self.layout, yaml@)
                &&& w.dir@ == fs_layout::binary_child(self.layout, "cache"@)
                &&& w.temporary@ == cache::temporary_file(self.layout, yaml@)
            },
            (Progress::Storing { content, shown }, Event::Done(Err(m))) => commands::failed(
                step,
                self.run,
            ) == Some(AtsError::Io(m)),
            (Progress::Storing { content, shown }, Event::Done(Ok(_))) => prints_baseline(
                self,
                false,
                shown@,
                content@,
                step,
            ),
            (Progress::Printing, Event::Printed(failure)) => commands::ends_printed(
                step,
                self.run,
                failure,
            ),
            _ => true,
        }
    }

    /// Begins the command: the resume document is to be read.
    pub fn start(run: RunFolder, layout: BinaryFsLayout, path: &str) -> (r: Step<Render>)
        ensures
            r matches Step::Next { state, action } && {
                &&& state.run == run
                &&& state.layout == layout
                &&& state.progress matches Progress::Reading { path: p } && p@ == path@
                &&& action matches Action::ReadYaml { path: p } && p@ == path@
            },
    {
        Step::Next {
            state: Render { run, layout, progress: Progress::Reading { path: path.to_string() } },
            action: Action::ReadYaml { path: path.to_string() },
        }
    }

    /// Whether the event is one that the command waits for.
    pub fn accepts(&self, event: &Event) -> (r: bool)
        ensures
            r == self.awaits(*event),
    {
        match (&self.progress, event) {
            (Progress::Reading { path: _ }, Event::Yaml(_)) => true,
            (Progress::Loading { yaml: _, resume: _ }, Event::Stored { stored: _, shown: _ }) =>
                true,
            (Progress::Storing { content: _, shown: _ }, Event::Done(_)) => true,
            (Progress::Printing, Event::Printed(_)) => true,
            _ => false,
        }
    }

    /// Takes the command to what comes after an event.
    pub fn step(self, event: Event) -> (r: Step<Render>)
        requires
            self.awaits(event),
        ensures
            self.leads_to(event, r),
    {
        let Render { run, layout, progress } = self;
        match (progress, event) {
            (Progress::Reading { path }, Event::Yaml(Err(f))) => commands::fail(
                run,
                cli::yaml_read_error(f.missing, path.as_str(), f.cause.as_str()),
            ),
            (Progress::Reading { path: _ }, Event::Yaml(Ok(yaml))) => {
                match validate::parse_and_validate(yaml.as_slice()) {
                    Err(d) => commands::fail(run, AtsError::Yaml(d)),
                    Ok(resume) => {
                        let path = cache::cache_path(&layout, yaml.as_slice());
                        Step::Next {
                            state: Render {
                                run,
                                layout,
                                progress: Progress::Loading { yaml, resume },
                            },
                            action: Action::LoadCache { path },
                        }
                    },
                }
            },
            (Progress::Loading { yaml: _, resume: _ }, Event::Stored { stored: Err(m), shown: _ }) =>
                commands::fail(run, AtsError::Io(m)),
            (Progress::Loading { yaml, resume }, Event::Stored { stored: Ok(stored), shown }) => {
                let (result, write) = cache::load_or_render(
                    &layout,
                    yaml.as_slice(),
                    &resume,
                    stored,
                );
                match write {
                    None => print_baseline(run, layout, true, shown, result.content),
                    Some(w) => Step::Next {
                        state: Render {
                            run,
                            layout,
                            progress: Progress::Storing { content: result.content, shown },
                        },
                        action: Action::StoreCache(w),
                    },
                }
            },
            (Progress::Storing { content: _, shown: _ }, Event::Done(Err(m))) => commands::fail(
                run,
                AtsError::Io(m),
            ),
            (Progress::Storing { content, shown }, Event::Done(Ok(_))) => print_baseline(
                run,
                layout,
                false,
                shown,
                content,
            ),
            (Progress::Printing, Event::Printed(failure)) => commands::end_printed(run, failure),
            _ => vstd::pervasive::unreached(),
        }
    }
}

// ---------------------------------------------------------------------------
// Laws
// ---------------------------------------------------------------------------

/// Where the baseline came from is noted before anything is printed, so that it
/// is on record even where the output cannot be written.
pub proof fn cache_is_noted_before_printing(r: Render, event: Event, step: Step<Render>)
    requires
        r.awaits(event),
        r.leads_to(event, step),
        step matches Step::Next { state, action } && action is Print,
    ensures
        step matches Step::Next { state, action } && exists|cached: bool, shown: Seq<char>|
            commands::noted(
                r.run,
                state.run,
                TokenUsage::none(),
                #[trigger] cache_extras(cached, shown),
            ),
{
    match (r.progress, event) {
        (Progress::Loading { yaml, resume }, Event::Stored { stored, shown }) => {
            assert(prints_baseline(r, true, shown@, stored->Ok_0->Some_0@, step));
        },
        (Progress::Storing { content, shown }, Event::Done(_)) => {
            assert(prints_baseline(r, false, shown@, content@, step));
        },
        _ => {},
    }
}

} // verus!
