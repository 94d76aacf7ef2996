//! How runs end: what they have cost, and what a failure leaves.

use vstd::prelude::*;
use crate::error::AtsError;
use crate::laws::run;
use crate::laws::run::Trace;
use crate::pipeline;
use crate::pipeline::{Action, Event, Pipeline, Plan, Progress, RunPipelineError, Step};
use crate::ports;
use crate::ports::{TokenUsage, UsageTotal};

verus! {

/// The usage of a reply of the model.
pub open spec fn usage_in(event: Event) -> Seq<TokenUsage> {
    match event {
        Event::Reply { reply: Ok(response), timestamp } => seq![response.usage],
        _ => Seq::empty(),
    }
}

/// The usages of all replies of the model, in order.
pub open spec fn usages(events: Seq<Event>) -> Seq<TokenUsage>
    decreases events.len(),
{
    if events.len() == 0 {
        Seq::empty()
    } else {
        usages(events.drop_last()) + usage_in(events.last())
    }
}

/// The tokens that a run has spent so far.
#[verifier::opaque]
spec fn spent(p: Progress) -> Seq<TokenUsage> {
    match p {
        Progress::Fetching => Seq::empty(),
        Progress::Scraping => Seq::empty(),
        Progress::Draining(o) => seq![o.usage],
        Progress::Creating { open, records } => seq![open.scrape_usage],
        Progress::Extracting { rendered, extraction } => seq![
            rendered.open.run.token_usage_total,
            extraction.usage_total,
        ],
        _ => seq![pipeline::folder_of(p)->Some_0.token_usage_total],
    }
}

spec fn same_total(a: Seq<TokenUsage>, b: Seq<TokenUsage>) -> bool {
    ports::usage_total(a) == ports::usage_total(b)
}

proof fn lemma_totals_of_few(a: TokenUsage, b: TokenUsage, c: TokenUsage)
    ensures
        ports::usage_total(Seq::<TokenUsage>::empty()) == (UsageTotal {
            prompt: 0,
            completion: 0,
            total: 0,
        }),
        ports::usage_total(seq![a]) == (UsageTotal {
            prompt: a.prompt as nat,
            completion: a.completion as nat,
            total: a.total as nat,
        }),
        ports::usage_total(seq![a, b]) == (UsageTotal {
            prompt: (a.prompt + b.prompt) as nat,
            completion: (a.completion + b.completion) as nat,
            total: (a.total + b.total) as nat,
        }),
        ports::usage_total(seq![a, b, c]) == (UsageTotal {
            prompt: (a.prompt + b.prompt + c.prompt) as nat,
            completion: (a.completion + b.completion + c.completion) as nat,
            total: (a.total + b.total + c.total) as nat,
        }),
{
    assert(seq![a].drop_last() =~= Seq::empty());
    assert(seq![a, b].drop_last() =~= seq![a]);
    assert(seq![a, b, c].drop_last() =~= seq![a, b]);
    assert(ports::usage_total(seq![a]) == (UsageTotal {
        prompt: a.prompt as nat,
        completion: a.completion as nat,
        total: a.total as nat,
    })) by {
        assert(seq![a].last() == a);
        assert(ports::usage_total(Seq::<TokenUsage>::empty()) == (UsageTotal {
            prompt: 0,
            completion: 0,
            total: 0,
        }));
    }
    assert(seq![a, b].last() == b);
    assert(ports::usage_total(seq![a, b]) == (UsageTotal {
        prompt: (a.prompt + b.prompt) as nat,
        completion: (a.completion + b.completion) as nat,
        total: (a.total + b.total) as nat,
    }));
    assert(seq![a, b, c].last() == c);
}

spec fn waits_for_reply(p: Progress) -> bool {
    p is Scraping || p is Extracting || p is Optimizing
}

/// A step that is no reply of the model spends nothing.
proof fn lemma_spends_nothing(p: Progress, q: Progress)
    requires
        run::precedes(p, q),
        !waits_for_reply(p),
    ensures
        same_total(spent(q), spent(p)),
{
    reveal(spent);
    reveal(run::precedes);
    if p is BaselineMd {
        lemma_totals_of_few(
            p->BaselineMd_0.open.run.token_usage_total,
            TokenUsage::none(),
            TokenUsage::none(),
        );
    }
}

proof fn lemma_waits(t: Trace, plan: Plan, k: int)
    requires
        t.wf(plan),
        0 <= k < t.states.len(),
    ensures
        t.events[k] is Reply <==> waits_for_reply(t.states[k].progress),
{
    assert(t.takes(k));
    reveal(Trace::takes);
}

proof fn lemma_scrape_spends(t: Trace, plan: Plan, k: int)
    requires
        t.wf(plan),
        0 <= k < t.states.len() - 1,
        t.states[k].progress is Scraping,
    ensures
        t.events[k] matches Event::Reply { reply: Ok(response), timestamp } && same_total(
            spent(t.states[k + 1].progress),
            spent(t.states[k].progress).push(response.usage),
        ),
{
    run::lemma_precedent(t, plan, k + 1);
    assert(t.takes(k));
    reveal(Trace::takes);
    let usage = t.events[k]->Reply_reply->Ok_0.usage;
    assert(t.states[k + 1].progress is Draining && t.states[k + 1].progress->Draining_0.usage
        == usage);
    reveal(spent);
    assert(Seq::empty().push(usage) =~= seq![usage]);
}

proof fn lemma_keywords_step(t: Trace, plan: Plan, k: int)
    requires
        t.wf(plan),
        0 <= k < t.states.len() - 1,
        t.states[k].progress is Extracting,
    ensures
        ({
            let a = t.states[k].progress->Extracting_rendered.open.run.token_usage_total;
            let b = t.states[k].progress->Extracting_extraction.usage_total;
            &&& t.events[k] matches Event::Reply { reply: Ok(response), timestamp }
            &&& b.fits(response.usage)
            &&& a.fits(b.sum(response.usage))
            &&& {
                ||| t.states[k + 1].progress matches Progress::Extracting { rendered, extraction }
                    && rendered.open.run.token_usage_total == a && extraction.usage_total == b.sum(
                    response.usage,
                )
                ||| t.states[k + 1].progress matches Progress::KeywordsJson(e)
                    && e.rendered.open.run.token_usage_total == a.sum(b.sum(response.usage))
            }
        }),
{
    run::lemma_precedent(t, plan, k + 1);
    assert(t.takes(k));
    reveal(Trace::takes);
}

proof fn lemma_keywords_spend(t: Trace, plan: Plan, k: int)
    requires
        t.wf(plan),
        0 <= k < t.states.len() - 1,
        t.states[k].progress is Extracting,
    ensures
        t.events[k] matches Event::Reply { reply: Ok(response), timestamp } && same_total(
            spent(t.states[k + 1].progress),
            spent(t.states[k].progress).push(response.usage),
        ),
{
    lemma_keywords_step(t, plan, k);
    let usage = t.events[k]->Reply_reply->Ok_0.usage;
    let a = t.states[k].progress->Extracting_rendered.open.run.token_usage_total;
    let b = t.states[k].progress->Extracting_extraction.usage_total;
    lemma_totals_of_few(a, b, usage);
    lemma_totals_of_few(a, b.sum(usage), usage);
    lemma_totals_of_few(a.sum(b.sum(usage)), b, usage);
    assert(seq![a, b].push(usage) =~= seq![a, b, usage]);
    reveal(spent);
}

proof fn lemma_optimizing_step(t: Trace, plan: Plan, k: int)
    requires
        t.wf(plan),
        0 <= k < t.states.len() - 1,
        t.states[k].progress is Optimizing,
    ensures
        ({
            let a = t.states[k].progress->Optimizing_0.rendered.open.run.token_usage_total;
            &&& t.events[k] matches Event::Reply { reply: Ok(response), timestamp }
            &&& a.fits(response.usage)
            &&& t.states[k + 1].progress matches Progress::Measuring(o)
            &&& o.run().token_usage_total == a.sum(response.usage)
        }),
{
    run::lemma_precedent(t, plan, k + 1);
    assert(t.takes(k));
    reveal(Trace::takes);
}

proof fn lemma_optimizing_spends(t: Trace, plan: Plan, k: int)
    requires
        t.wf(plan),
        0 <= k < t.states.len() - 1,
        t.states[k].progress is Optimizing,
    ensures
        t.events[k] matches Event::Reply { reply: Ok(response), timestamp } && same_total(
            spent(t.states[k + 1].progress),
            spent(t.states[k].progress).push(response.usage),
        ),
{
    lemma_optimizing_step(t, plan, k);
    let usage = t.events[k]->Reply_reply->Ok_0.usage;
    let a = t.states[k].progress->Optimizing_0.rendered.open.run.token_usage_total;
    lemma_totals_of_few(a, usage, usage);
    lemma_totals_of_few(a.sum(usage), usage, usage);
    assert(seq![a].push(usage) =~= seq![a, usage]);
    reveal(spent);
}

proof fn lemma_total_of_concat(a: Seq<TokenUsage>, b: Seq<TokenUsage>, next: TokenUsage)
    requires
        same_total(a, b),
    ensures
        same_total(a.push(next), b.push(next)),
{
    assert(a.push(next).drop_last() =~= a);
    assert(b.push(next).drop_last() =~= b);
}

proof fn lemma_spent_so_far(t: Trace, plan: Plan, k: int)
    requires
        t.wf(plan),
        0 <= k < t.states.len(),
    ensures
        same_total(spent(t.states[k].progress), usages(t.events.take(k))),
    decreases k,
{
    let upto = t.events.take(k);
    if k == 0 {
        run::lemma_first_places(t, plan, 0);
        reveal(spent);
        assert(upto.len() == 0);
    } else {
        lemma_spent_so_far(t, plan, k - 1);
        let event = t.events[k - 1];
        assert(upto.drop_last() =~= t.events.take(k - 1));
        assert(upto.last() == event);
        lemma_step_spends(t, plan, k);
        let before = usages(t.events.take(k - 1));
        if event is Reply {
            let usage = event->Reply_reply->Ok_0.usage;
            assert(before + seq![usage] =~= before.push(usage));
            lemma_total_of_concat(spent(t.states[k - 1].progress), before, usage);
        } else {
            assert(before + Seq::<TokenUsage>::empty() =~= before);
        }
    }
}

proof fn lemma_step_spends(t: Trace, plan: Plan, k: int)
    requires
        t.wf(plan),
        0 < k < t.states.len(),
    ensures
        ({
            let event = t.events[k - 1];
            &&& event is Reply ==> event->Reply_reply is Ok && same_total(
                spent(t.states[k].progress),
                spent(t.states[k - 1].progress).push(event->Reply_reply->Ok_0.usage),
            )
            &&& !(event is Reply) ==> same_total(
                spent(t.states[k].progress),
                spent(t.states[k - 1].progress),
            )
        }),
{
    run::lemma_precedent(t, plan, k);
    lemma_waits(t, plan, k - 1);
    let p = t.states[k - 1].progress;
    if p is Scraping {
        lemma_scrape_spends(t, plan, k - 1);
    } else if p is Extracting {
        lemma_keywords_spend(t, plan, k - 1);
    } else if p is Optimizing {
        lemma_optimizing_spends(t, plan, k - 1);
    } else {
        lemma_spends_nothing(p, t.states[k].progress);
    }
}

/// The tokens that a run reports are those of all replies of the model together: that
/// of the scrape, that of every attempt at the keywords, and that of the optimization.
pub proof fn run_reports_every_token(t: Trace, plan: Plan)
    requires
        t.wf(plan),
        t.end is Finished,
    ensures
        ports::totals(t.end->Finished_result.total_tokens, usages(t.events)),
{
    let n = t.states.len() as int;
    let o = run::lemma_tail(t, plan);
    run::lemma_finish(t, plan, o);
    lemma_spent_so_far(t, plan, n - 1);
    lemma_last_is_done(t, plan, n - 1);
    assert(t.events.drop_last() =~= t.events.take(n - 1));
    assert(usages(t.events) =~= usages(t.events.take(n - 1)));
    let total = t.end->Finished_result.total_tokens;
    lemma_totals_of_few(total, total, total);
    assert(spent(t.states[n - 1].progress) == seq![o.run().token_usage_total]) by {
        reveal(spent);
    }
}

proof fn lemma_last_is_done(t: Trace, plan: Plan, k: int)
    requires
        t.wf(plan),
        0 <= k < t.states.len(),
        t.states[k].progress is Renaming,
    ensures
        t.events[k] is Done,
{
    assert(t.takes(k));
    reveal(Trace::takes);
}

// ---------------------------------------------------------------------------
// Failures
// ---------------------------------------------------------------------------

/// The error of a failure.
pub open spec fn error_of(e: RunPipelineError) -> AtsError {
    match e {
        RunPipelineError::Early(err) => err,
        RunPipelineError::Late { run, err } => err,
    }
}

/// The error is the one that the event reports.
pub open spec fn reported(event: Event, err: AtsError) -> bool {
    match event {
        Event::Page(Err(e)) => err == AtsError::Scrape(e.class_spec()),
        Event::Reply { reply: Err(e), timestamp } => err matches AtsError::Llm(c) && e.class_of(c),
        Event::Audit(Err(m)) => err == AtsError::Io(m),
        Event::Done(Err(m)) => err == AtsError::Io(m),
        Event::Built(Err(e)) => err == e,
        Event::Stored { stored: Err(m), shown } => err == AtsError::Io(m),
        Event::KeywordsWritten(Err(e)) => err == e,
        Event::Pdf(Err(e)) => err matches AtsError::Pdf(m) && m@ == e.text(),
        Event::Exists(found) => !found && (err matches AtsError::Pdf(m) && m@
            == "pdf output missing after render"@),
        _ => false,
    }
}

/// An event that reports a failure ends the run with that failure.
pub proof fn failure_ends_the_run(p: Pipeline, event: Event, step: Step)
    requires
        p.wf(),
        p.awaits(event),
        p.leads_to(event, step),
        !run::good(event),
    ensures
        step matches Step::Failed { error, record, cleanup } && reported(event, error_of(error)),
{
}

/// An event that reports a success does not end the run in a failure, unless it is a page
/// or a reply of the model that cannot be used, or the extraction cannot begin.
pub proof fn success_does_not_fail(p: Pipeline, event: Event, step: Step)
    requires
        p.wf(),
        p.awaits(event),
        p.leads_to(event, step),
        run::good(event),
        step is Failed,
    ensures
        event is Page || event is Reply || p.progress is BaselineMd,
{
}

proof fn lemma_folder_stays(p: Progress, q: Progress)
    requires
        run::precedes(p, q),
        pipeline::folder_of(p) is Some,
    ensures
        pipeline::folder_of(q) is Some,
        pipeline::folder_of(q)->Some_0.path_spec() == pipeline::folder_of(p)->Some_0.path_spec(),
{
    reveal(run::precedes);
}

proof fn lemma_folder(t: Trace, plan: Plan, k: int)
    requires
        t.wf(plan),
        4 <= k < t.states.len(),
    ensures
        t.actions[3] is CreateFolder,
        pipeline::folder_of(t.states[k].progress) matches Some(run) && run.path_spec()
            == t.actions[3]->CreateFolder_path@,
    decreases k,
{
    if k == 4 {
        run::lemma_first_places(t, plan, 2);
        run::lemma_first_places(t, plan, 4);
        run::lemma_opens(t, plan);
        run::lemma_precedent(t, plan, 4);
        reveal(run::precedes);
    } else {
        lemma_folder(t, plan, k - 1);
        run::lemma_precedent(t, plan, k);
        lemma_folder_stays(t.states[k - 1].progress, t.states[k].progress);
    }
}

#[verifier::spinoff_prover]
#[verifier::rlimit(40)]
proof fn lemma_late_hands_back(p: Pipeline, event: Event, step: Step)
    requires
        p.wf(),
        p.awaits(event),
        p.leads_to(event, step),
        step is Failed,
    ensures
        step->Failed_error matches RunPipelineError::Late { run, err } ==> pipeline::folder_of(
            p.progress,
        ) == Some(run),
{
}

/// A run that fails before its folder is made leaves nothing; one that fails later hands
/// the folder back that it had made.
pub proof fn failed_run_hands_its_folder_back(t: Trace, plan: Plan)
    requires
        t.wf(plan),
        t.end is Failed,
    ensures
        t.end->Failed_error is Early <==> t.actions.len() <= 4,
        t.end->Failed_error matches RunPipelineError::Late { run, err } ==> t.actions[3]
            matches Action::CreateFolder { dirs, path } && run.path_spec() == path@,
{
    let n = t.states.len() as int;
    run::lemma_states(t, plan, n - 1);
    lemma_end_hands_back(t, plan);
    if n > 4 {
        lemma_folder(t, plan, n - 1);
    } else {
        run::lemma_first_places(t, plan, n - 1);
    }
}

proof fn lemma_end_hands_back(t: Trace, plan: Plan)
    requires
        t.wf(plan),
        t.end is Failed,
        run::holds_at(t, plan, t.states.len() - 1),
    ensures
        t.end->Failed_error is Early <==> pipeline::folder_of(t.states.last().progress) is None,
        t.end->Failed_error matches RunPipelineError::Late { run, err } ==> pipeline::folder_of(
            t.states.last().progress,
        ) == Some(run),
{
    let n = t.states.len() as int;
    assert(t.takes(n - 1));
    assert(t.step(n - 1) == t.end);
    reveal(run::holds_at);
    reveal(Trace::takes);
    pipeline::failures_are_early_or_late(t.states[n - 1], t.events[n - 1], t.end);
    lemma_late_hands_back(t.states[n - 1], t.events[n - 1], t.end);
}

/// Only a copy that could not be given its name is left to be removed.
pub proof fn only_the_copy_is_cleaned_up(p: Pipeline, action: Action, event: Event, step: Step)
    requires
        p.wf(),
        p.wants(action),
        p.awaits(event),
        p.leads_to(event, step),
        step matches Step::Failed { error, record, cleanup } && cleanup is Some,
    ensures
        action matches Action::RenameFile { from, to } && step->Failed_cleanup->Some_0@ == from@,
{
}

} // verus!
