//! A whole run, as its caller sees it: what it asks for, what comes of that, and
//! how it ends.

use vstd::prelude::*;
use crate::config::ModelStageConfig;
use crate::domain::{JobPosting, KeywordSet};
use crate::fs_layout::PathModel;
use crate::json;
use crate::json::Tree;
use crate::pipeline;
use crate::pipeline::{
    Action, Event, Extracted, Open, Optimized, Pipeline, Plan, Progress, Step,
};
use crate::ports;
use crate::ports::{ChatRole, LlmRequest, TokenUsage};
use crate::render::markdown;
use crate::text;

verus! {

/// A run from its start to its end: the actions that were asked for, the event
/// that came of each, and the last step. The states between are those of the
/// machine.
pub struct Trace {
    pub states: Seq<Pipeline>,
    pub actions: Seq<Action>,
    pub events: Seq<Event>,
    pub end: Step,
}

impl Trace {
    /// What the event at `k` leads to.
    pub open spec fn step(self, k: int) -> Step {
        if k + 1 < self.states.len() {
            Step::Next { pipeline: self.states[k + 1], action: self.actions[k + 1] }
        } else {
            self.end
        }
    }

    /// The event at `k` is one that the run waits for, and the run takes the step that
    /// it leads to.
    #[verifier::opaque]
    pub open spec fn takes(self, k: int) -> bool {
        self.states[k].awaits(self.events[k]) && self.states[k].leads_to(
            self.events[k],
            self.step(k),
        )
    }

    /// The run starts at the start, takes a step with every event, and ends.
    pub open spec fn wf(self, plan: Plan) -> bool {
        &&& plan.wf()
        &&& self.states.len() > 0
        &&& self.actions.len() == self.states.len()
        &&& self.events.len() == self.states.len()
        &&& self.states[0] == (Pipeline { plan, progress: Progress::Fetching })
        &&& self.states[0].wants(self.actions[0])
        &&& forall|k: int| 0 <= k < self.states.len() ==> #[trigger] self.takes(k)
        &&& !(self.end is Next)
    }
}

/// The file of this name in a directory.
pub open spec fn inside(dir: PathModel, name: Seq<char>) -> PathModel {
    PathModel { root: dir.root, names: dir.names.push(name) }
}

/// The directory of this name next to the program.
pub open spec fn beside(plan: Plan, name: Seq<char>) -> PathModel {
    PathModel { root: plan.layout.binary_dir@, names: seq![name] }
}

/// The action writes this text to this file.
pub open spec fn wrote(action: Action, path: PathModel, content: Seq<char>) -> bool {
    action matches Action::WriteFile { path: p, content: c } && p@ == path && c@ == content
}

/// The request asks this model with this one user message.
pub open spec fn asks(request: LlmRequest, model: ModelStageConfig, user: Seq<char>) -> bool {
    &&& request.model@ == model.name@
    &&& json::json_tree(request.temperature) == json::json_tree(model.temperature)
    &&& request.seed == Some(model.seed)
    &&& request.messages@.len() == 2
    &&& request.messages@[0].role == ChatRole::System
    &&& request.messages@[1].role == ChatRole::User
    &&& request.messages@[1].content@ == user
}

/// The text that a reply of the model holds.
pub open spec fn answer(event: Event) -> Seq<char> {
    event->Reply_reply->Ok_0.content@
}

/// The event reports a success.
pub open spec fn good(event: Event) -> bool {
    match event {
        Event::Page(r) => r is Ok,
        Event::Reply { reply, timestamp } => reply is Ok,
        Event::Audit(r) => r is Ok,
        Event::Done(r) => r is Ok,
        Event::Built(r) => r is Ok,
        Event::Stored { stored, shown } => stored is Ok,
        Event::KeywordsWritten(r) => r is Ok,
        Event::Density(_) => true,
        Event::Pdf(r) => r is Ok,
        Event::Exists(found) => found,
    }
}

// ---------------------------------------------------------------------------
// The order of the states
// ---------------------------------------------------------------------------

/// `q` can come right after `p`, and this is what it keeps of it.
#[verifier::opaque]
pub open spec fn precedes(p: Progress, q: Progress) -> bool {
    match q {
        Progress::Fetching => false,
        Progress::Scraping => p is Fetching,
        Progress::Draining(_) => p is Scraping,
        Progress::Creating { open, records } => p matches Progress::Draining(o)
            && open.scrape_usage == o.usage,
        Progress::PostingJson { open, records } => p matches Progress::Creating {
            open: o,
            records: r,
        } && open == pipeline::with_tokens(o, o.scrape_usage) && r == records,
        Progress::PostingMd { open, records } => p == (Progress::PostingJson { open, records }),
        Progress::Building(open) => p matches Progress::PostingMd { open: o, records } && o == open,
        Progress::Loading(open) => p == Progress::Building(open),
        Progress::Storing { open, baseline, cache_shown } => p == Progress::Loading(open),
        Progress::BaselineMd(r) => {
            ||| p matches Progress::Loading(o) && pipeline::carried(o, r.open) && r.cached
            ||| p matches Progress::Storing { open: o, baseline, cache_shown }
                && pipeline::carried(o, r.open) && baseline == r.baseline && !r.cached
        },
        Progress::Extracting { rendered, extraction } => {
            ||| p == Progress::BaselineMd(rendered) && extraction.posting_md@
                == rendered.open.posting.markdown@ && extraction.usage_total == TokenUsage::none()
            ||| p matches Progress::Extracting { rendered: r, extraction: x } && r == rendered
                && x.posting_md == extraction.posting_md && x.model == extraction.model
        },
        Progress::KeywordsJson(x) => p matches Progress::Extracting { rendered, extraction }
            && x.rendered.baseline == rendered.baseline && x.rendered.cached == rendered.cached
            && pipeline::with_tokens(
            rendered.open,
            x.rendered.open.run.token_usage_total,
        ) == x.rendered.open,
        Progress::KeywordsMd(e) => p == Progress::KeywordsJson(e),
        Progress::Optimizing(e) => p == Progress::KeywordsMd(e),
        Progress::Measuring(o) => p matches Progress::Optimizing(e) && o.extracted.keywords
            == e.keywords && o.extracted.rendered.baseline == e.rendered.baseline
            && o.extracted.rendered.cached == e.rendered.cached && pipeline::with_tokens(
            e.rendered.open,
            o.run().token_usage_total,
        ) == o.extracted.rendered.open,
        Progress::OptimizedMd(n) => p matches Progress::Measuring(o) && n.markdown == o.markdown
            && n.report == o.report && n.extracted.keywords == o.extracted.keywords
            && n.extracted.rendered.cached == o.extracted.rendered.cached && pipeline::carried(
            o.extracted.rendered.open,
            n.extracted.rendered.open,
        ),
        Progress::FinalMd(o) => p == Progress::OptimizedMd(o),
        Progress::Pdf(o) => p == Progress::FinalMd(o),
        Progress::PdfCheck(o) => p == Progress::Pdf(o),
        Progress::OutputDir(o) => p == Progress::PdfCheck(o),
        Progress::Copying(o) => p == Progress::OutputDir(o),
        Progress::Renaming(o) => p == Progress::Copying(o),
    }
}

pub proof fn lemma_goes_on(p: Pipeline, event: Event, q: Pipeline, action: Action)
    requires
        p.wf(),
        p.awaits(event),
        p.leads_to(event, Step::Next { pipeline: q, action }),
    ensures
        p.goes_on(Step::Next { pipeline: q, action }),
        good(event),
{
}

pub proof fn lemma_precedes(p: Pipeline, event: Event, q: Pipeline, action: Action)
    requires
        p.awaits(event),
        p.leads_to(event, Step::Next { pipeline: q, action }),
    ensures
        precedes(p.progress, q.progress),
{
    reveal(precedes);
}

/// The state at `k`, and what it asks for.
#[verifier::opaque]
pub open spec fn holds_at(t: Trace, plan: Plan, k: int) -> bool {
    &&& t.states[k].plan == plan
    &&& t.states[k].wf()
    &&& t.states[k].wants(t.actions[k])
}

proof fn lemma_start(t: Trace, plan: Plan)
    requires
        t.wf(plan),
    ensures
        holds_at(t, plan, 0),
        t.states[0].progress is Fetching,
{
    reveal(holds_at);
}

proof fn lemma_follow(t: Trace, plan: Plan, k: int)
    requires
        t.wf(plan),
        0 < k < t.states.len(),
        holds_at(t, plan, k - 1),
    ensures
        holds_at(t, plan, k),
        precedes(t.states[k - 1].progress, t.states[k].progress),
        good(t.events[k - 1]),
{
    reveal(holds_at);
    reveal(Trace::takes);
    assert(t.takes(k - 1));
    lemma_goes_on(t.states[k - 1], t.events[k - 1], t.states[k], t.actions[k]);
    lemma_precedes(t.states[k - 1], t.events[k - 1], t.states[k], t.actions[k]);
}

pub proof fn lemma_states(t: Trace, plan: Plan, k: int)
    requires
        t.wf(plan),
        0 <= k < t.states.len(),
    ensures
        holds_at(t, plan, k),
        k == 0 ==> t.states[k].progress is Fetching,
        k > 0 ==> holds_at(t, plan, k - 1) && precedes(
            t.states[k - 1].progress,
            t.states[k].progress,
        ) && good(t.events[k - 1]),
    decreases k,
{
    if k == 0 {
        lemma_start(t, plan);
    } else {
        lemma_states(t, plan, k - 1);
        lemma_follow(t, plan, k);
    }
}

pub proof fn lemma_places(p: Progress, q: Progress)
    requires
        precedes(p, q),
    ensures
        pipeline::place(q) > 0,
        pipeline::place(q) == 9 ==> pipeline::place(p) == 7 || pipeline::place(p) == 8,
        pipeline::place(q) == 10 ==> pipeline::place(p) == 9 || pipeline::place(p) == 10,
        pipeline::place(q) != 9 && pipeline::place(q) != 10 ==> pipeline::place(p) + 1
            == pipeline::place(q),
{
    reveal(precedes);
}

/// The first states of a run that gets so far.
pub proof fn lemma_first_places(t: Trace, plan: Plan, k: int)
    requires
        t.wf(plan),
        0 <= k < t.states.len(),
    ensures
        k < 8 ==> pipeline::place(t.states[k].progress) == k,
        k >= 8 ==> pipeline::place(t.states[k].progress) >= 8,
    decreases k,
{
    lemma_states(t, plan, k);
    if k > 0 {
        lemma_first_places(t, plan, k - 1);
        lemma_places(t.states[k - 1].progress, t.states[k].progress);
    }
}

proof fn lemma_only_the_last_finishes(t: Trace, plan: Plan, k: int)
    requires
        holds_at(t, plan, k),
        t.takes(k),
        t.step(k) is Finished,
    ensures
        t.states[k].progress is Renaming,
{
    reveal(holds_at);
    reveal(Trace::takes);
    pipeline::failures_are_early_or_late(t.states[k], t.events[k], t.step(k));
}

proof fn lemma_end(t: Trace, plan: Plan)
    requires
        t.wf(plan),
        t.end is Finished,
    ensures
        pipeline::place(t.states.last().progress) == 21,
{
    let n = t.states.len() as int;
    lemma_states(t, plan, n - 1);
    assert(t.takes(n - 1));
    assert(t.step(n - 1) == t.end);
    lemma_only_the_last_finishes(t, plan, n - 1);
}

/// The last states of a run that succeeds.
proof fn lemma_last_places(t: Trace, plan: Plan, j: int)
    requires
        t.wf(plan),
        t.end is Finished,
        0 <= j < 12,
    ensures
        t.states.len() > j,
        pipeline::place(t.states[t.states.len() - 1 - j].progress) == 21 - j,
    decreases j,
{
    let n = t.states.len() as int;
    if j == 0 {
        lemma_end(t, plan);
    } else {
        lemma_last_places(t, plan, j - 1);
        lemma_states(t, plan, n - j);
        if n - j > 0 {
            lemma_places(t.states[n - 1 - j].progress, t.states[n - j].progress);
        }
    }
}

// ---------------------------------------------------------------------------
// The end of a run
// ---------------------------------------------------------------------------

pub proof fn lemma_state(t: Trace, plan: Plan, k: int)
    requires
        t.wf(plan),
        0 <= k < t.states.len(),
    ensures
        t.states[k].plan == plan,
        t.states[k].wants(t.actions[k]),
{
    lemma_states(t, plan, k);
    reveal(holds_at);
}

pub proof fn lemma_state_wf(t: Trace, plan: Plan, k: int)
    requires
        t.wf(plan),
        0 <= k < t.states.len(),
    ensures
        t.states[k].plan == plan,
        t.states[k].wf(),
{
    lemma_states(t, plan, k);
    reveal(holds_at);
}

pub proof fn lemma_precedent(t: Trace, plan: Plan, k: int)
    requires
        t.wf(plan),
        0 < k < t.states.len(),
    ensures
        precedes(t.states[k - 1].progress, t.states[k].progress),
        good(t.events[k - 1]),
{
    lemma_states(t, plan, k);
}

/// The last states of a run that succeeds: all of the optimized resume.
pub proof fn lemma_tail(t: Trace, plan: Plan) -> (o: Optimized)
    requires
        t.wf(plan),
        t.end is Finished,
    ensures
        t.states.len() > 11,
        ({
            let n = t.states.len() as int;
            &&& t.states[n - 1].progress == Progress::Renaming(o)
            &&& t.states[n - 2].progress == Progress::Copying(o)
            &&& t.states[n - 3].progress == Progress::OutputDir(o)
            &&& t.states[n - 4].progress == Progress::PdfCheck(o)
            &&& t.states[n - 5].progress == Progress::Pdf(o)
            &&& t.states[n - 6].progress == Progress::FinalMd(o)
            &&& t.states[n - 7].progress == Progress::OptimizedMd(o)
        }),
{
    let n = t.states.len() as int;
    lemma_last_places(t, plan, 11);
    lemma_last_places(t, plan, 0);
    lemma_precedent(t, plan, n - 1);
    lemma_precedent(t, plan, n - 2);
    lemma_precedent(t, plan, n - 3);
    lemma_precedent(t, plan, n - 4);
    lemma_precedent(t, plan, n - 5);
    lemma_precedent(t, plan, n - 6);
    reveal(precedes);
    t.states[n - 1].progress->Renaming_0
}

/// The optimized resume is the text of the reply to the last request.
proof fn lemma_optimized(t: Trace, plan: Plan, o: Optimized)
    requires
        t.wf(plan),
        t.end is Finished,
        t.states.len() > 11,
        t.states[t.states.len() - 7].progress == Progress::OptimizedMd(o),
    ensures
        ({
            let n = t.states.len() as int;
            &&& t.states[n - 8].progress matches Progress::Measuring(m)
            &&& t.states[n - 9].progress matches Progress::Optimizing(e)
            &&& t.events[n - 9] matches Event::Reply { reply: Ok(response), timestamp }
            &&& o.markdown@ == response.content@
            &&& o.report == m.report
            &&& o.extracted.keywords == e.keywords
            &&& o.extracted.rendered.cached == e.rendered.cached
            &&& o.extracted.rendered.open.slug == e.rendered.open.slug
            &&& o.run().path_spec() == e.rendered.open.run.path_spec()
        }),
{
    let n = t.states.len() as int;
    lemma_precedent(t, plan, n - 7);
    lemma_precedent(t, plan, n - 8);
    assert(t.states[n - 8].progress is Measuring && t.states[n - 9].progress is Optimizing) by {
        reveal(precedes);
    }
    let m = t.states[n - 8].progress->Measuring_0;
    let e = t.states[n - 9].progress->Optimizing_0;
    lemma_step_of_optimizing(t, plan, n - 9, e);
    assert(o.markdown == m.markdown && o.report == m.report && o.extracted.keywords
        == m.extracted.keywords && o.extracted.rendered.cached == m.extracted.rendered.cached
        && pipeline::carried(m.extracted.rendered.open, o.extracted.rendered.open)) by {
        reveal(precedes);
    }
}

proof fn lemma_step_of_optimizing(t: Trace, plan: Plan, k: int, e: Extracted)
    requires
        t.wf(plan),
        0 <= k < t.states.len() - 1,
        t.states[k].progress == Progress::Optimizing(e),
    ensures
        t.events[k] matches Event::Reply { reply: Ok(response), timestamp } && {
            &&& t.states[k + 1].progress matches Progress::Measuring(o)
            &&& o.markdown == response.content
            &&& o.extracted.keywords == e.keywords
            &&& o.extracted.rendered.cached == e.rendered.cached
            &&& o.extracted.rendered.open.slug == e.rendered.open.slug
            &&& o.run().path_spec() == e.rendered.open.run.path_spec()
        },
{
    assert(t.takes(k));
    reveal(Trace::takes);
    lemma_precedent(t, plan, k + 1);
}

/// The name of the documents of a run, without an extension.
pub open spec fn stem(result: pipeline::RunPipelineResult) -> Seq<char> {
    result.ts_prefix@ + "_"@ + result.slug@ + "_resume"@
}

/// In a run that succeeds, the text of the reply to the request for an optimized
/// resume is what is written to `optimized.md` and to the final Markdown, and what the
/// PDF is made of. The PDF is looked for where it was made, and is copied from there to
/// the output directory under its own name. The result names these files.
pub proof fn final_documents_hold_the_reply(t: Trace, plan: Plan)
    requires
        t.wf(plan),
        t.end is Finished,
    ensures
        t.actions.len() > 11,
        ({
            let n = t.actions.len() as int;
            let result = t.end->Finished_result;
            let text = answer(t.events[n - 9]);
            &&& t.actions[n - 9] is AskOptimize
            &&& t.events[n - 9] matches Event::Reply { reply: Ok(_), timestamp }
            &&& wrote(t.actions[n - 7], inside(result.run_dir@, "optimized.md"@), text)
            &&& wrote(t.actions[n - 6], result.final_md@, text)
            &&& t.actions[n - 5] matches Action::RenderPdf { markdown, path } && markdown@ == text
                && path@ == result.final_pdf@
            &&& t.actions[n - 4] matches Action::CheckFile { path } && path@ == result.final_pdf@
            &&& t.events[n - 4] == Event::Exists(true)
            &&& t.actions[n - 3] matches Action::CreateDir { path } && path@ == beside(
                plan,
                "output"@,
            )
            &&& t.actions[n - 2] matches Action::CopyFile { from, to } && from@
                == result.final_pdf@ && to@ == inside(
                beside(plan, "output"@),
                ".tmp_"@ + stem(result) + ".pdf"@,
            )
            &&& t.actions[n - 1] matches Action::RenameFile { from, to } && from@
                == t.actions[n - 2]->CopyFile_to@ && to@ == result.output_pdf@
            &&& result.final_md@ == inside(result.run_dir@, stem(result) + ".md"@)
            &&& result.final_pdf@ == inside(result.run_dir@, stem(result) + ".pdf"@)
            &&& result.output_pdf@ == inside(beside(plan, "output"@), stem(result) + ".pdf"@)
        }),
{
    let n = t.states.len() as int;
    let o = lemma_tail(t, plan);
    lemma_optimized(t, plan, o);
    lemma_finish(t, plan, o);
    lemma_asks_for_optimized(t, plan, n - 9);
    lemma_writes_optimized(t, plan, n - 7, o);
    lemma_writes_final(t, plan, n - 6, o);
    lemma_renders(t, plan, n - 5, o);
    lemma_checks(t, plan, n - 4, o);
    lemma_makes_output(t, plan, n - 3, o);
    lemma_copies(t, plan, n - 2, o);
    lemma_renames(t, plan, n - 1, o);
    assert(seq!["output"@] =~= Seq::empty().push("output"@));
}

proof fn lemma_asks_for_optimized(t: Trace, plan: Plan, k: int)
    requires
        t.wf(plan),
        0 <= k < t.states.len(),
        t.states[k].progress is Optimizing,
    ensures
        t.actions[k] is AskOptimize,
{
    lemma_state(t, plan, k);
}

proof fn lemma_writes_optimized(t: Trace, plan: Plan, k: int, o: Optimized)
    requires
        t.wf(plan),
        0 <= k < t.states.len(),
        t.states[k].progress == Progress::OptimizedMd(o),
    ensures
        wrote(t.actions[k], o.run().path_spec().child("optimized.md"@), o.markdown@),
{
    lemma_state(t, plan, k);
}

proof fn lemma_writes_final(t: Trace, plan: Plan, k: int, o: Optimized)
    requires
        t.wf(plan),
        0 <= k < t.states.len(),
        t.states[k].progress == Progress::FinalMd(o),
    ensures
        wrote(t.actions[k], o.final_md(plan), o.markdown@),
{
    lemma_state(t, plan, k);
}

proof fn lemma_renders(t: Trace, plan: Plan, k: int, o: Optimized)
    requires
        t.wf(plan),
        0 <= k < t.states.len(),
        t.states[k].progress == Progress::Pdf(o),
    ensures
        t.actions[k] matches Action::RenderPdf { markdown, path } && markdown@ == o.markdown@
            && path@ == o.final_pdf(plan),
{
    lemma_state(t, plan, k);
}

proof fn lemma_checks(t: Trace, plan: Plan, k: int, o: Optimized)
    requires
        t.wf(plan),
        0 <= k < t.states.len() - 1,
        t.states[k].progress == Progress::PdfCheck(o),
    ensures
        t.actions[k] matches Action::CheckFile { path } && path@ == o.final_pdf(plan),
        t.events[k] == Event::Exists(true),
{
    lemma_state(t, plan, k);
    lemma_precedent(t, plan, k + 1);
    assert(t.takes(k));
    reveal(Trace::takes);
}

proof fn lemma_makes_output(t: Trace, plan: Plan, k: int, o: Optimized)
    requires
        t.wf(plan),
        0 <= k < t.states.len(),
        t.states[k].progress == Progress::OutputDir(o),
    ensures
        t.actions[k] matches Action::CreateDir { path } && path@
            == crate::fs_layout::binary_child(plan.layout, "output"@),
{
    lemma_state(t, plan, k);
}

proof fn lemma_copies(t: Trace, plan: Plan, k: int, o: Optimized)
    requires
        t.wf(plan),
        0 <= k < t.states.len(),
        t.states[k].progress == Progress::Copying(o),
    ensures
        t.actions[k] matches Action::CopyFile { from, to } && from@ == o.final_pdf(plan) && to@
            == o.output_tmp(plan),
{
    lemma_state(t, plan, k);
}

proof fn lemma_renames(t: Trace, plan: Plan, k: int, o: Optimized)
    requires
        t.wf(plan),
        0 <= k < t.states.len(),
        t.states[k].progress == Progress::Renaming(o),
    ensures
        t.actions[k] matches Action::RenameFile { from, to } && from@ == o.output_tmp(plan) && to@
            == o.output_pdf(plan),
{
    lemma_state(t, plan, k);
}

pub proof fn lemma_finish(t: Trace, plan: Plan, o: Optimized)
    requires
        t.wf(plan),
        t.end is Finished,
        t.states.last().progress == Progress::Renaming(o),
    ensures
        pipeline::finishes(t.end, o, plan),
{
    let n = t.states.len() as int;
    assert(t.takes(n - 1));
    assert(t.step(n - 1) == t.end);
    reveal(Trace::takes);
    lemma_state(t, plan, n - 1);
}

// ---------------------------------------------------------------------------
// The middle of a run
// ---------------------------------------------------------------------------

proof fn lemma_after(t: Trace, plan: Plan, k: int, j: int)
    requires
        t.wf(plan),
        0 <= k <= j < t.states.len(),
        pipeline::place(t.states[k].progress) >= 11,
    ensures
        pipeline::place(t.states[j].progress) == pipeline::place(t.states[k].progress) + (j - k),
    decreases j - k,
{
    if k < j {
        lemma_after(t, plan, k, j - 1);
        lemma_precedent(t, plan, j);
        lemma_places(t.states[j - 1].progress, t.states[j].progress);
    }
}

/// The keywords are asked for from the baseline on, until they are there.
proof fn lemma_attempts(t: Trace, plan: Plan, w: int, k: int)
    requires
        t.wf(plan),
        t.end is Finished,
        0 <= w < k <= t.states.len() - 12,
        t.states[w].progress is BaselineMd,
    ensures
        t.states[k].progress matches Progress::Extracting { rendered, extraction } && rendered
            == t.states[w].progress->BaselineMd_0 && extraction.posting_md@
            == rendered.open.posting.markdown@ && plan.config.models.keyword_extraction.same(
            extraction.model,
        ),
    decreases k,
{
    let n = t.states.len() as int;
    lemma_precedent(t, plan, k);
    lemma_places(t.states[k - 1].progress, t.states[k].progress);
    if k > w + 1 {
        lemma_attempts(t, plan, w, k - 1);
    } else {
        lemma_first_attempt(t, plan, w);
    }
    lemma_last_places(t, plan, 10);
    if pipeline::place(t.states[k].progress) >= 11 {
        lemma_after(t, plan, k, n - 11);
    }
    reveal(precedes);
}

proof fn lemma_first_attempt(t: Trace, plan: Plan, w: int)
    requires
        t.wf(plan),
        0 <= w < t.states.len() - 1,
        t.states[w].progress is BaselineMd,
    ensures
        t.states[w + 1].progress matches Progress::Extracting { rendered, extraction }
            && plan.config.models.keyword_extraction.same(extraction.model) && extraction.posting_md@
            == rendered.open.posting.markdown@ && rendered == t.states[w].progress->BaselineMd_0,
{
    lemma_state(t, plan, w);
    lemma_precedent(t, plan, w + 1);
    assert(t.takes(w));
    reveal(Trace::takes);
}

/// Where the baseline is written: right after the cache is read, or after it is stored.
proof fn lemma_baseline_place(t: Trace, plan: Plan) -> (w: int)
    requires
        t.wf(plan),
        t.end is Finished,
    ensures
        w == 8 || w == 9,
        w < t.states.len() - 12,
        t.states[w].progress is BaselineMd,
        w == 9 <==> t.states[8].progress is Storing,
{
    let n = t.states.len() as int;
    let open = lemma_head(t, plan);
    lemma_last_places(t, plan, 11);
    lemma_precedent(t, plan, 8);
    lemma_places(t.states[7].progress, t.states[8].progress);
    lemma_first_places(t, plan, 8);
    assert(n - 12 > 8) by {
        assert(pipeline::place(t.states[n - 12].progress) == 10);
        if n - 12 <= 7 {
            lemma_first_places(t, plan, n - 12);
        }
    }
    if t.states[8].progress is BaselineMd {
        8
    } else {
        lemma_precedent(t, plan, 9);
        lemma_places(t.states[8].progress, t.states[9].progress);
        assert(n - 12 != 9);
        9
    }
}

/// The folder and the posting of the end are those of the start.
proof fn lemma_same_folder(t: Trace, plan: Plan, open: Open)
    requires
        t.wf(plan),
        t.end is Finished,
        t.states.len() > 11,
        t.states[7].progress == Progress::Loading(open),
    ensures
        t.end->Finished_result.run_dir@ == open.run.path_spec(),
        t.end->Finished_result.slug@ == open.slug@,
        t.end->Finished_result.ts_prefix@ == crate::audit::compact_time(plan.started_at),
{
    let o = lemma_tail(t, plan);
    lemma_optimized(t, plan, o);
    lemma_finish(t, plan, o);
    let n = t.states.len() as int;
    lemma_same_rendered(t, plan, open);
}

proof fn lemma_same_rendered(t: Trace, plan: Plan, open: Open) -> (w: int)
    requires
        t.wf(plan),
        t.end is Finished,
        t.states.len() > 11,
        t.states[7].progress == Progress::Loading(open),
    ensures
        w == 8 || w == 9,
        w == 9 <==> t.states[8].progress is Storing,
        w < t.states.len() - 12,
        t.states[w].progress matches Progress::BaselineMd(r) && {
            let n = t.states.len() as int;
            &&& pipeline::carried(open, r.open)
            &&& t.states[n - 12].progress matches Progress::Extracting { rendered, extraction }
            &&& t.states[n - 11].progress matches Progress::KeywordsJson(e)
            &&& t.states[n - 10].progress == Progress::KeywordsMd(e)
            &&& t.states[n - 9].progress == Progress::Optimizing(e)
            &&& rendered == r
            &&& e.rendered.baseline == r.baseline
            &&& e.rendered.cached == r.cached
            &&& e.rendered.open.slug == open.slug
            &&& e.rendered.open.posting == open.posting
            &&& e.rendered.open.run.path_spec() == open.run.path_spec()
            &&& r.open.run.path_spec() == open.run.path_spec()
        },
{
    let n = t.states.len() as int;
    let w = lemma_baseline_place(t, plan);
    lemma_attempts(t, plan, w, n - 12);
    lemma_last_places(t, plan, 8);
    lemma_precedent(t, plan, n - 9);
    lemma_precedent(t, plan, n - 10);
    lemma_precedent(t, plan, n - 11);
    lemma_precedent(t, plan, w);
    lemma_precedent(t, plan, 8);
    reveal(precedes);
    w
}

// ---------------------------------------------------------------------------
// The start of a run
// ---------------------------------------------------------------------------

/// The first states of a run that succeeds: all of the posting.
pub proof fn lemma_head(t: Trace, plan: Plan) -> (open: Open)
    requires
        t.wf(plan),
        t.end is Finished,
    ensures
        t.states.len() > 11,
        t.states[0].progress is Fetching,
        t.states[1].progress is Scraping,
        t.states[2].progress is Draining,
        t.states[3].progress is Creating,
        ({
            let records = t.states[3].progress->Creating_records;
            let first = t.states[3].progress->Creating_open;
            &&& open == pipeline::with_tokens(first, first.scrape_usage)
            &&& t.states[4].progress == (Progress::PostingJson { open, records })
            &&& t.states[5].progress == (Progress::PostingMd { open, records })
            &&& t.states[6].progress == Progress::Building(open)
            &&& t.states[7].progress == Progress::Loading(open)
        }),
{
    let o = lemma_tail(t, plan);
    lemma_first_places(t, plan, 0);
    lemma_first_places(t, plan, 1);
    lemma_first_places(t, plan, 2);
    lemma_first_places(t, plan, 3);
    lemma_first_places(t, plan, 4);
    lemma_first_places(t, plan, 5);
    lemma_first_places(t, plan, 6);
    lemma_first_places(t, plan, 7);
    lemma_precedent(t, plan, 4);
    lemma_precedent(t, plan, 5);
    lemma_precedent(t, plan, 6);
    lemma_precedent(t, plan, 7);
    reveal(precedes);
    t.states[7].progress->Loading_0
}

proof fn lemma_fetches(t: Trace, plan: Plan)
    requires
        t.wf(plan),
        t.states.len() > 1,
    ensures
        t.actions[0] matches Action::FetchHtml { url, idle_timeout_ms } && url@ == plan.input.url@
            && idle_timeout_ms == plan.config.scrape.network_idle_timeout_ms,
        t.events[0] matches Event::Page(Ok(html)) && t.actions[1] matches Action::AskScrape(q)
            && asks(q, plan.config.models.scrape_to_markdown, html@),
{
    lemma_state(t, plan, 0);
    lemma_precedent(t, plan, 1);
    assert(t.takes(0));
    reveal(Trace::takes);
}

/// The posting that a reply of the model holds: an object with its title, which may be
/// missing, and its body; or a list of the two.
pub open spec fn says(t: Tree, p: JobPosting) -> bool {
    match t {
        Tree::Object(m) => {
            &&& m.dom().contains("markdown"@) && m["markdown"@] == Tree::Text(p.markdown@)
            &&& m.dom().contains("title"@) ==> m["title"@] == Tree::Text(p.title@)
            &&& !m.dom().contains("title"@) ==> p.title@.len() == 0
        },
        Tree::List(items) => items.len() == 2 && items[0] == Tree::Text(p.title@) && items[1]
            == Tree::Text(p.markdown@),
        _ => false,
    }
}

proof fn lemma_scrapes(t: Trace, plan: Plan)
    requires
        t.wf(plan),
        t.states.len() > 2,
        t.states[1].progress is Scraping,
    ensures
        t.events[1] matches Event::Reply { reply: Ok(response), timestamp } && {
            &&& t.states[2].progress matches Progress::Draining(o)
            &&& json::json_parsed(text::trimmed(response.content@)) is Ok
            &&& says(json::json_parsed(text::trimmed(response.content@))->Ok_0, o.posting)
            &&& o.usage == response.usage
        },
{
    lemma_precedent(t, plan, 2);
    assert(t.takes(1));
    reveal(Trace::takes);
}

pub proof fn lemma_opens(t: Trace, plan: Plan)
    requires
        t.wf(plan),
        t.states.len() > 3,
        t.states[2].progress is Draining,
    ensures
        t.events[2] matches Event::Audit(Ok(drained)) && {
            &&& t.states[3].progress matches Progress::Creating { open, records }
            &&& records == drained
            &&& open.posting == t.states[2].progress->Draining_0.posting
            &&& open.wf(plan)
            &&& t.actions[3] matches Action::CreateFolder { dirs, path }
            &&& dirs@.len() == 3
            &&& dirs@[0]@ == crate::fs_layout::binary_child(plan.layout, "cache"@)
            &&& dirs@[1]@ == crate::fs_layout::binary_child(plan.layout, "runs"@)
            &&& dirs@[2]@ == crate::fs_layout::binary_child(plan.layout, "output"@)
            &&& path@ == open.run.path_spec()
        },
{
    lemma_precedent(t, plan, 3);
    lemma_state(t, plan, 3);
    lemma_state_wf(t, plan, 3);
    assert(t.takes(2));
    reveal(Trace::takes);
}

proof fn lemma_writes_posting(t: Trace, plan: Plan, open: Open, records: Vec<ports::LlmCallRecord>)
    requires
        t.wf(plan),
        t.states.len() > 7,
        t.states[4].progress == (Progress::PostingJson { open, records }),
        t.states[5].progress == (Progress::PostingMd { open, records }),
        t.states[6].progress == Progress::Building(open),
    ensures
        wrote(
            t.actions[4],
            open.run.path_spec().child("posting.json"@),
            json::json_pretty(pipeline::posting_tree(open.posting)),
        ),
        wrote(t.actions[5], open.run.path_spec().child("posting.md"@), open.posting.markdown@),
        t.actions[6] matches Action::BuildStages { dir, records: handed } && dir@
            == open.run.path_spec() && handed == records,
{
    lemma_state(t, plan, 4);
    lemma_state(t, plan, 5);
    lemma_hands_records(t, plan, open, records);
}

proof fn lemma_hands_records(t: Trace, plan: Plan, open: Open, records: Vec<ports::LlmCallRecord>)
    requires
        t.wf(plan),
        t.states.len() > 7,
        t.states[5].progress == (Progress::PostingMd { open, records }),
        t.states[6].progress == Progress::Building(open),
    ensures
        t.actions[6] matches Action::BuildStages { dir, records: handed } && dir@
            == open.run.path_spec() && handed == records,
{
    lemma_state(t, plan, 6);
    lemma_precedent(t, plan, 6);
    assert(t.takes(5));
    reveal(Trace::takes);
}

/// In a run that succeeds, the page of the link is fetched and handed to the model as it
/// stands. What the model says of the posting is what is written down: the body to
/// `posting.md`, and title and body to `posting.json`. The folder of the run is made next
/// to the program, and named by the time, the command and the slug of the title. The
/// records of the scrape go to the audit log in that folder.
pub proof fn posting_is_what_the_page_says(t: Trace, plan: Plan) -> (posting: JobPosting)
    requires
        t.wf(plan),
        t.end is Finished,
    ensures
        t.actions.len() > 7,
        ({
            let result = t.end->Finished_result;
            let dir = result.run_dir@;
            &&& t.actions[0] matches Action::FetchHtml { url, idle_timeout_ms } && url@
                == plan.input.url@ && idle_timeout_ms
                == plan.config.scrape.network_idle_timeout_ms
            &&& t.events[0] matches Event::Page(Ok(html)) && t.actions[1] matches Action::AskScrape(
                q,
            ) && asks(q, plan.config.models.scrape_to_markdown, html@)
            &&& t.events[1] matches Event::Reply { reply: Ok(_), timestamp }
            &&& says(json::json_parsed(text::trimmed(answer(t.events[1])))->Ok_0, posting)
            &&& t.actions[2] is TakeAudit
            &&& t.actions[3] matches Action::CreateFolder { dirs, path } && path@ == dir
                && dirs@.len() == 3 && dirs@[0]@ == beside(plan, "cache"@) && dirs@[1]@ == beside(
                plan,
                "runs"@,
            ) && dirs@[2]@ == beside(plan, "output"@)
            &&& wrote(
                t.actions[4],
                inside(dir, "posting.json"@),
                json::json_pretty(
                    Tree::Object(
                        map!["title"@ => Tree::Text(posting.title@), "markdown"@ => Tree::Text(posting.markdown@)],
                    ),
                ),
            )
            &&& wrote(t.actions[5], inside(dir, "posting.md"@), posting.markdown@)
            &&& t.actions[6] matches Action::BuildStages { dir: d, records } && d@ == dir
                && t.events[2] == Event::Audit(Ok(records))
            &&& result.slug@ == crate::slug::slug_of(posting.title@)
            &&& result.ts_prefix@ == crate::audit::compact_time(plan.started_at)
            &&& dir == inside(
                beside(plan, "runs"@),
                result.ts_prefix@ + "_"@ + "run"@ + "_"@ + result.slug@,
            )
        }),
{
    let open = lemma_head(t, plan);
    let records = t.states[3].progress->Creating_records;
    let first = t.states[3].progress->Creating_open;
    lemma_fetches(t, plan);
    lemma_scrapes(t, plan);
    lemma_opens(t, plan);
    lemma_drains(t, plan);
    lemma_writes_posting(t, plan, open, records);
    lemma_same_folder(t, plan, open);
    crate::slug::slug_is_well_formed(open.posting.title@);
    lemma_beside(plan);
    assert(pipeline::posting_tree(open.posting) == Tree::Object(
        map!["title"@ => Tree::Text(open.posting.title@), "markdown"@ => Tree::Text(open.posting.markdown@)],
    )) by {
        assert(Map::<Seq<char>, Tree>::empty().insert(
            "title"@,
            Tree::Text(open.posting.title@),
        ).insert("markdown"@, Tree::Text(open.posting.markdown@))
            =~= map!["title"@ => Tree::Text(open.posting.title@), "markdown"@ => Tree::Text(open.posting.markdown@)]);
    }
    open.posting
}

proof fn lemma_drains(t: Trace, plan: Plan)
    requires
        t.wf(plan),
        t.states.len() > 2,
        t.states[2].progress is Draining,
    ensures
        t.actions[2] is TakeAudit,
{
    lemma_state(t, plan, 2);
}

proof fn lemma_beside(plan: Plan)
    ensures
        crate::fs_layout::binary_child(plan.layout, "cache"@) == beside(plan, "cache"@),
        crate::fs_layout::binary_child(plan.layout, "runs"@) == beside(plan, "runs"@),
        crate::fs_layout::binary_child(plan.layout, "output"@) == beside(plan, "output"@),
{
    assert(seq!["cache"@] =~= Seq::empty().push("cache"@));
    assert(seq!["runs"@] =~= Seq::empty().push("runs"@));
    assert(seq!["output"@] =~= Seq::empty().push("output"@));
}

// ---------------------------------------------------------------------------
// What the stages hand on
// ---------------------------------------------------------------------------

proof fn lemma_loads(t: Trace, plan: Plan, open: Open)
    requires
        t.wf(plan),
        t.states.len() > 9,
        t.states[7].progress == Progress::Loading(open),
    ensures
        t.actions[7] matches Action::LoadCache { path } && path@ == crate::render::cache::cache_file(
            plan.layout,
            plan.input.yaml_bytes@,
        ),
        t.events[7] matches Event::Stored { stored: Ok(found), shown } && match found {
            Some(content) => t.states[8].progress matches Progress::BaselineMd(r) && r.baseline@
                == content@ && r.cached,
            None => t.states[8].progress matches Progress::Storing { open: o, baseline, cache_shown }
                && baseline@ == markdown::baseline(plan.input.resume),
        },
{
    lemma_state(t, plan, 7);
    lemma_precedent(t, plan, 8);
    assert(t.takes(7));
    reveal(Trace::takes);
}

proof fn lemma_stores(t: Trace, plan: Plan)
    requires
        t.wf(plan),
        t.states.len() > 9,
        t.states[8].progress is Storing,
    ensures
        t.actions[8] matches Action::StoreCache(w) && w.content@
            == t.states[8].progress->Storing_baseline@ && w.path@
            == crate::render::cache::cache_file(plan.layout, plan.input.yaml_bytes@),
        t.states[9].progress matches Progress::BaselineMd(r) && r.baseline
            == t.states[8].progress->Storing_baseline && !r.cached,
{
    lemma_state(t, plan, 8);
    lemma_precedent(t, plan, 9);
    reveal(precedes);
}

proof fn lemma_writes_baseline(t: Trace, plan: Plan, w: int)
    requires
        t.wf(plan),
        0 <= w < t.states.len(),
        t.states[w].progress is BaselineMd,
    ensures
        wrote(
            t.actions[w],
            t.states[w].progress->BaselineMd_0.open.run.path_spec().child("baseline.md"@),
            t.states[w].progress->BaselineMd_0.baseline@,
        ),
{
    lemma_state(t, plan, w);
}

/// Where the baseline of a run that succeeds is written.
pub open spec fn baseline_at(t: Trace) -> int {
    if t.events[7] matches Event::Stored { stored: Ok(None), shown } {
        9
    } else {
        8
    }
}

/// In a run that succeeds, `baseline.md` holds the cached baseline where there is one;
/// else the resume as it is rendered now, which is also what goes to the cache, in the
/// place where the baseline was looked for. The result tells which of the two it was.
pub proof fn baseline_is_cached_or_rendered(t: Trace, plan: Plan)
    requires
        t.wf(plan),
        t.end is Finished,
    ensures
        t.actions.len() > 12 + baseline_at(t),
        ({
            let result = t.end->Finished_result;
            let file = inside(result.run_dir@, "baseline.md"@);
            &&& t.actions[7] matches Action::LoadCache { path } && {
                &&& t.events[7] matches Event::Stored { stored: Ok(found), shown }
                &&& match found {
                    Some(content) => wrote(t.actions[8], file, content@) && result.cached_baseline,
                    None => {
                        &&& t.actions[8] matches Action::StoreCache(w) && w.path@ == path@
                            && w.content@ == markdown::baseline(plan.input.resume)
                        &&& wrote(t.actions[9], file, markdown::baseline(plan.input.resume))
                        &&& !result.cached_baseline
                    },
                }
            }
        }),
{
    let open = lemma_head(t, plan);
    let w = lemma_same_rendered(t, plan, open);
    lemma_same_folder(t, plan, open);
    lemma_loads(t, plan, open);
    lemma_writes_baseline(t, plan, w);
    if t.states[8].progress is Storing {
        lemma_stores(t, plan);
    }
    lemma_cached(t, plan, w);
}

proof fn lemma_cached(t: Trace, plan: Plan, w: int)
    requires
        t.wf(plan),
        t.end is Finished,
        t.states.len() > 11,
        t.states[w].progress is BaselineMd,
        ({
            let n = t.states.len() as int;
            &&& t.states[n - 9].progress matches Progress::Optimizing(e)
            &&& e.rendered.cached == t.states[w].progress->BaselineMd_0.cached
        }),
    ensures
        t.end->Finished_result.cached_baseline == t.states[w].progress->BaselineMd_0.cached,
{
    let o = lemma_tail(t, plan);
    lemma_optimized(t, plan, o);
    lemma_finish(t, plan, o);
}

proof fn lemma_asks_for_keywords(t: Trace, plan: Plan, k: int)
    requires
        t.wf(plan),
        0 <= k < t.states.len(),
        t.states[k].progress matches Progress::Extracting { rendered, extraction }
            && plan.config.models.keyword_extraction.same(extraction.model),
    ensures
        t.actions[k] matches Action::AskKeywords { record, request } && asks(
            request,
            plan.config.models.keyword_extraction,
            t.states[k].progress->Extracting_extraction.posting_md@,
        ),
{
    lemma_state(t, plan, k);
}

proof fn lemma_reads_keywords(t: Trace, plan: Plan, k: int)
    requires
        t.wf(plan),
        0 <= k < t.states.len() - 1,
        t.states[k].progress is Extracting,
        t.states[k + 1].progress is KeywordsJson,
    ensures
        t.events[k] matches Event::Reply { reply: Ok(response), timestamp } && {
            let set = t.states[k + 1].progress->KeywordsJson_0.keywords.set;
            &&& crate::stage::keywords::content_problem(response.content@) is None
            &&& <KeywordSet as crate::decode::Decode>::decodes(
                json::json_parsed(response.content@)->Ok_0,
                set,
            )
        },
{
    lemma_precedent(t, plan, k + 1);
    assert(t.takes(k));
    reveal(Trace::takes);
}

proof fn lemma_writes_keywords(t: Trace, plan: Plan, k: int, e: Extracted)
    requires
        t.wf(plan),
        0 <= k < t.states.len() - 1,
        t.states[k].progress == Progress::KeywordsJson(e),
        t.states[k + 1].progress == Progress::KeywordsMd(e),
    ensures
        t.actions[k] matches Action::WriteKeywords { path } && path@
            == e.rendered.open.run.path_spec().child("keywords.json"@),
        wrote(
            t.actions[k + 1],
            e.rendered.open.run.path_spec().child("keywords.md"@),
            crate::stage::keywords::markdown_view(e.keywords.set),
        ),
{
    lemma_state(t, plan, k);
    lemma_state(t, plan, k + 1);
    lemma_state_wf(t, plan, k + 1);
}

/// In a run that succeeds, the model is asked for the keywords of the text in
/// `posting.md`, in the same words at every attempt. Its last reply reads as a catalogue.
/// That catalogue is what is written to `keywords.json`, and its view to `keywords.md`.
pub proof fn keywords_are_those_of_the_posting(t: Trace, plan: Plan) -> (set: KeywordSet)
    requires
        t.wf(plan),
        t.end is Finished,
    ensures
        t.actions.len() > 12 + baseline_at(t),
        ({
            let n = t.actions.len() as int;
            let result = t.end->Finished_result;
            &&& forall|k: int|
                baseline_at(t) < k <= n - 12 ==> (#[trigger] t.actions[k]
                    matches Action::AskKeywords { record, request } && asks(
                    request,
                    plan.config.models.keyword_extraction,
                    t.actions[5]->WriteFile_content@,
                ))
            &&& t.events[n - 12] matches Event::Reply { reply: Ok(_), timestamp }
            &&& <KeywordSet as crate::decode::Decode>::decodes(
                json::json_parsed(answer(t.events[n - 12]))->Ok_0,
                set,
            )
            &&& t.actions[n - 11] matches Action::WriteKeywords { path } && path@ == inside(
                result.run_dir@,
                "keywords.json"@,
            )
            &&& t.states[n - 11].progress matches Progress::KeywordsJson(e) && e.keywords.set == set
            &&& wrote(
                t.actions[n - 10],
                inside(result.run_dir@, "keywords.md"@),
                crate::stage::keywords::markdown_view(set),
            )
        }),
{
    let n = t.states.len() as int;
    let open = lemma_head(t, plan);
    let records = t.states[3].progress->Creating_records;
    let w = lemma_same_rendered(t, plan, open);
    lemma_same_folder(t, plan, open);
    lemma_baseline_at(t, plan, open);
    lemma_writes_posting(t, plan, open, records);
    lemma_all_attempts(t, plan, w, open.posting.markdown@);
    let e = t.states[n - 11].progress->KeywordsJson_0;
    lemma_reads_keywords(t, plan, n - 12);
    lemma_writes_keywords(t, plan, n - 11, e);
    e.keywords.set
}

proof fn lemma_baseline_at(t: Trace, plan: Plan, open: Open)
    requires
        t.wf(plan),
        t.states.len() > 9,
        t.states[7].progress == Progress::Loading(open),
    ensures
        baseline_at(t) == 9 <==> t.states[8].progress is Storing,
{
    lemma_loads(t, plan, open);
}

proof fn lemma_all_attempts(t: Trace, plan: Plan, w: int, posting: Seq<char>)
    requires
        t.wf(plan),
        t.end is Finished,
        0 <= w,
        t.states[w].progress matches Progress::BaselineMd(r) && r.open.posting.markdown@ == posting,
    ensures
        forall|k: int|
            w < k <= t.actions.len() - 12 ==> (#[trigger] t.actions[k]
                matches Action::AskKeywords { record, request } && asks(
                request,
                plan.config.models.keyword_extraction,
                posting,
            )),
{
    assert forall|k: int| w < k <= t.actions.len() - 12 implies (#[trigger] t.actions[k]
        matches Action::AskKeywords { record, request } && asks(
        request,
        plan.config.models.keyword_extraction,
        posting,
    )) by {
        lemma_attempts(t, plan, w, k);
        lemma_asks_for_keywords(t, plan, k);
    }
}

proof fn lemma_asks_with_both(t: Trace, plan: Plan, k: int, e: Extracted)
    requires
        t.wf(plan),
        0 <= k < t.states.len(),
        t.states[k].progress == Progress::Optimizing(e),
    ensures
        t.actions[k] matches Action::AskOptimize(request) && asks(
            request,
            plan.config.models.resume_optimization,
            "=== RESUME ===\n"@ + e.rendered.baseline@ + "\n\n=== KEYWORDS ===\n"@
                + crate::stage::keywords::markdown_view(e.keywords.set) + "\n"@,
        ),
{
    lemma_state(t, plan, k);
    lemma_state_wf(t, plan, k);
}

/// In a run that succeeds, the model is asked to optimize the resume in `baseline.md` for
/// the keywords in `keywords.md`: both go into the request as they stand.
pub proof fn resume_is_optimized_for_the_keywords(t: Trace, plan: Plan)
    requires
        t.wf(plan),
        t.end is Finished,
    ensures
        t.actions.len() > 12 + baseline_at(t),
        ({
            let n = t.actions.len() as int;
            &&& t.actions[baseline_at(t)] is WriteFile
            &&& t.actions[n - 10] is WriteFile
            &&& t.actions[n - 9] matches Action::AskOptimize(request)
            &&& asks(
                request,
                plan.config.models.resume_optimization,
                "=== RESUME ===\n"@ + t.actions[baseline_at(t)]->WriteFile_content@
                    + "\n\n=== KEYWORDS ===\n"@ + t.actions[n - 10]->WriteFile_content@ + "\n"@,
            )
        }),
{
    let n = t.states.len() as int;
    let open = lemma_head(t, plan);
    let w = lemma_same_rendered(t, plan, open);
    lemma_baseline_at(t, plan, open);
    let e = t.states[n - 9].progress->Optimizing_0;
    lemma_writes_baseline(t, plan, w);
    lemma_writes_keywords(t, plan, n - 11, e);
    lemma_asks_with_both(t, plan, n - 9, e);
}

/// In a run that succeeds, the density that is reported is that of the keywords of the
/// run in the text of the reply to the request for an optimized resume.
pub proof fn density_is_that_of_the_reply(t: Trace, plan: Plan)
    requires
        t.wf(plan),
        t.end is Finished,
    ensures
        t.actions.len() > 11,
        ({
            let n = t.actions.len() as int;
            let text = answer(t.events[n - 9]);
            &&& t.states[n - 11].progress matches Progress::KeywordsJson(e)
            &&& t.actions[n - 8] matches Action::ReportDensity(report)
            &&& report.numerator == crate::laws::density::measured(e.keywords.set.terms(), text)
            &&& report.denominator == crate::density::word_count(text) as u32
        }),
{
    let n = t.states.len() as int;
    let open = lemma_head(t, plan);
    let w = lemma_same_rendered(t, plan, open);
    let o = lemma_tail(t, plan);
    lemma_optimized(t, plan, o);
    lemma_reports(t, plan, n - 8);
    lemma_state_wf(t, plan, n - 7);
}

proof fn lemma_reports(t: Trace, plan: Plan, k: int)
    requires
        t.wf(plan),
        0 <= k < t.states.len(),
        t.states[k].progress is Measuring,
    ensures
        t.actions[k] == Action::ReportDensity(t.states[k].progress->Measuring_0.report),
{
    lemma_state(t, plan, k);
}

/// The text that the PDF is made of is the text that was written right before.
pub proof fn pdf_is_made_of_the_text_written_before(
    p: Pipeline,
    action: Action,
    event: Event,
    q: Pipeline,
    next: Action,
)
    requires
        p.wf(),
        p.wants(action),
        p.awaits(event),
        p.leads_to(event, Step::Next { pipeline: q, action: next }),
        next is RenderPdf,
    ensures
        action is WriteFile,
        next->RenderPdf_markdown@ == action->WriteFile_content@,
{
    lemma_goes_on(p, event, q, next);
    lemma_renders_in_order(q, next);
    lemma_precedes(p, event, q, next);
    let o = q.progress->Pdf_0;
    assert(p.progress == Progress::FinalMd(o)) by {
        reveal(precedes);
    }
    lemma_writes_in_order(p, action, o);
}

proof fn lemma_renders_in_order(q: Pipeline, next: Action)
    requires
        q.wants(next),
        next is RenderPdf,
    ensures
        q.progress matches Progress::Pdf(o) && next->RenderPdf_markdown@ == o.markdown@,
{
}

proof fn lemma_writes_in_order(p: Pipeline, action: Action, o: Optimized)
    requires
        p.wants(action),
        p.progress == Progress::FinalMd(o),
    ensures
        action matches Action::WriteFile { path, content } && content@ == o.markdown@,
{
}

} // verus!
