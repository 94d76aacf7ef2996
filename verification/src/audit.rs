//! The folder of one invocation: what it is called, and the `run.json` that is
//! left in it.

use vstd::prelude::*;
use serde_json::Value;
use crate::fs_layout;
use crate::fs_layout::{BinaryFsLayout, FsPath, PathModel};
use crate::json;
use crate::json::Tree;
use crate::ports::TokenUsage;
use crate::text;

verus! {

/// A point in local time, to the second.
#[derive(Debug, Clone, Copy, PartialEq, Eq, Structural)]
pub struct Timestamp {
    pub year: u16,
    pub month: u8,
    pub day: u8,
    pub hour: u8,
    pub minute: u8,
    pub second: u8,
}

impl Timestamp {
    /// The fields have the widths of a calendar date and a time of day.
    pub open spec fn wf(self) -> bool {
        &&& self.year <= 9999
        &&& self.month <= 99
        &&& self.day <= 99
        &&& self.hour <= 99
        &&& self.minute <= 99
        &&& self.second <= 99
    }

    /// Whether the fields have the widths of a calendar date and a time of day.
    pub fn is_well_formed(&self) -> (r: bool)
        ensures
            r == self.wf(),
    {
        self.year <= 9999 && self.month <= 99 && self.day <= 99 && self.hour <= 99 && self.minute
            <= 99 && self.second <= 99
    }
}

/// `YYYYMMDD-HHMMSS`.
pub open spec fn compact_time(t: Timestamp) -> Seq<char> {
    text::padded(t.year as nat, 4) + text::padded(t.month as nat, 2) + text::padded(t.day as nat, 2)
        + "-"@ + text::padded(t.hour as nat, 2) + text::padded(t.minute as nat, 2) + text::padded(
        t.second as nat,
        2,
    )
}

/// The time as `YYYYMMDD-HHMMSS`, for names of folders and files.
pub fn format_run_dir_ts(t: &Timestamp) -> (r: String)
    requires
        t.wf(),
    ensures
        r@ == compact_time(*t),
{
    let mut out = text::padded_decimal(t.year as u64, 4);
    out.push_str(text::padded_decimal(t.month as u64, 2).as_str());
    out.push_str(text::padded_decimal(t.day as u64, 2).as_str());
    out.push_str("-");
    out.push_str(text::padded_decimal(t.hour as u64, 2).as_str());
    out.push_str(text::padded_decimal(t.minute as u64, 2).as_str());
    out.push_str(text::padded_decimal(t.second as u64, 2).as_str());
    out
}

/// The name of the folder of an invocation: its time, its command, and its slug
/// where there is one.
pub open spec fn run_name(t: Timestamp, command: Seq<char>, slug: Option<Seq<char>>) -> Seq<char> {
    match slug {
        Some(s) => if s.len() == 0 {
            compact_time(t) + "_"@ + command
        } else {
            compact_time(t) + "_"@ + command + "_"@ + s
        },
        None => compact_time(t) + "_"@ + command,
    }
}

/// The name of the folder of an invocation.
pub fn folder_name(started_at: &Timestamp, command: &str, slug: Option<&str>) -> (r: String)
    requires
        started_at.wf(),
    ensures
        r@ == run_name(
            *started_at,
            command@,
            match slug {
                Some(s) => Some(s@),
                None => None,
            },
        ),
{
    let ts = format_run_dir_ts(started_at);
    let mut out = text::concat3(ts.as_str(), "_", command);
    if let Some(s) = slug {
        if !s.is_empty() {
            out.push_str("_");
            out.push_str(s);
        }
    }
    out
}

/// The parts of a path that count: those between slashes that are neither empty
/// nor a single dot.
pub open spec fn counted_parts(parts: Seq<Seq<char>>) -> Seq<Seq<char>>
    decreases parts.len(),
{
    if parts.len() == 0 {
        Seq::empty()
    } else if parts.last().len() == 0 || parts.last() == "."@ {
        counted_parts(parts.drop_last())
    } else {
        counted_parts(parts.drop_last()).push(parts.last())
    }
}

/// Two names lead from a directory to the same place: their parts are the same.
pub open spec fn same_place(a: Seq<char>, b: Seq<char>) -> bool {
    counted_parts(text::segments(a)) == counted_parts(text::segments(b))
}

fn parts_of(name: &str) -> (r: Vec<String>)
    ensures
        text::views(r@) == counted_parts(text::segments(name@)),
{
    let chars = text::chars_of(name);
    assert(chars@.skip(0) =~= name@);
    let segs = text::split_segments(&chars, 0);
    let ghost all = text::rows(segs@);
    let mut out: Vec<String> = Vec::new();
    assert(text::views(out@) =~= counted_parts(all.take(0)));
    for i in 0..segs.len()
        invariant
            all == text::rows(segs@),
            text::views(out@) == counted_parts(all.take(i as int)),
    {
        assert(all.take(i + 1).drop_last() =~= all.take(i as int));
        let part = text::string_of(&segs[i]);
        if !part.as_str().is_empty() && !text::same_text(part.as_str(), ".") {
            let ghost before = out@;
            out.push(part);
            assert(text::views(out@) =~= text::views(before).push(all[i as int]));
        }
    }
    assert(all.take(segs@.len() as int) =~= all);
    out
}

/// Whether two names lead from a directory to the same place.
pub fn is_same_place(a: &str, b: &str) -> (r: bool)
    ensures
        r == same_place(a@, b@),
{
    let x = parts_of(a);
    let y = parts_of(b);
    if x.len() != y.len() {
        assert(text::views(x@).len() != text::views(y@).len());
        return false;
    }
    for i in 0..x.len()
        invariant
            text::views(x@) == counted_parts(text::segments(a@)),
            text::views(y@) == counted_parts(text::segments(b@)),
            x@.len() == y@.len(),
            forall|k: int| 0 <= k < i ==> (#[trigger] x@[k])@ == y@[k]@,
    {
        if !text::same_text(x[i].as_str(), y[i].as_str()) {
            assert(text::views(x@)[i as int] != text::views(y@)[i as int]);
            return false;
        }
    }
    assert(text::views(x@) =~= text::views(y@));
    true
}

/// What an invocation came to.
#[derive(Debug, Clone, Copy)]
pub enum RunOutcome<'a> {
    Success,
    Unimplemented,
    Failure(&'a str),
}

impl<'a> RunOutcome<'a> {
    /// The tag of the outcome.
    pub open spec fn tag(self) -> Seq<char> {
        match self {
            RunOutcome::Success => "success"@,
            RunOutcome::Unimplemented => "unimplemented"@,
            RunOutcome::Failure(t) => t@,
        }
    }

    /// The tag of the outcome.
    pub fn as_tag(&self) -> (r: &'a str)
        ensures
            r@ == self.tag(),
    {
        match self {
            RunOutcome::Success => "success",
            RunOutcome::Unimplemented => "unimplemented",
            RunOutcome::Failure(t) => t,
        }
    }
}

/// The folder of one invocation, and the metadata of its `run.json`.
pub struct RunFolder {
    pub runs_dir: FsPath,
    pub started_at: Timestamp,
    pub command: &'static str,
    /// The slug in the name of the folder on disk.
    pub named_slug: Option<String>,
    /// The slug that is recorded.
    pub slug: Option<String>,
    pub args_summary: Value,
    pub config_snapshot: Value,
    pub token_usage_total: TokenUsage,
    /// Further members of `run.json`, in the order in which they came.
    pub extras: Vec<(String, Value)>,
}

/// What renaming a folder takes.
pub enum RenamePlan {
    /// Nothing: there is no slug.
    Keep,
    /// The folder stands there already.
    Named,
    /// The folder has to be renamed, unless something of that name is there.
    Rename { from: FsPath, to: FsPath },
}

/// The text of an optional string.
pub open spec fn slug_text(slug: Option<String>) -> Option<Seq<char>> {
    match slug {
        Some(s) => Some(s@),
        None => None,
    }
}

/// Token usage as JSON.
pub open spec fn usage_tree(u: TokenUsage) -> Tree {
    Tree::Object(
        Map::empty().insert("prompt"@, Tree::Int(u.prompt as int)).insert(
            "completion"@,
            Tree::Int(u.completion as int),
        ).insert("total"@, Tree::Int(u.total as int)),
    )
}

/// Token usage as JSON.
pub fn usage_value(u: &TokenUsage) -> (r: Value)
    ensures
        json::json_tree(r) == usage_tree(*u),
{
    let mut out = json::empty_object();
    json::insert_member(&mut out, "prompt", json::unsigned_value(u.prompt));
    json::insert_member(&mut out, "completion", json::unsigned_value(u.completion));
    json::insert_member(&mut out, "total", json::unsigned_value(u.total));
    out
}

/// `members` with the extras put over them, one behind the other.
pub open spec fn with_extras(members: Map<Seq<char>, Tree>, extras: Seq<(String, Value)>) -> Map<
    Seq<char>,
    Tree,
>
    decreases extras.len(),
{
    if extras.len() == 0 {
        members
    } else {
        with_extras(members, extras.drop_last()).insert(
            extras.last().0@,
            json::json_tree(extras.last().1),
        )
    }
}

/// Extra members of `run.json` as plain values.
pub open spec fn extras_view(extras: Seq<(String, Value)>) -> Seq<(Seq<char>, Tree)> {
    Seq::new(extras.len(), |i: int| (extras[i].0@, json::json_tree(extras[i].1)))
}

impl RunFolder {
    /// The name of the folder on disk.
    pub open spec fn name(self) -> Seq<char> {
        run_name(self.started_at, self.command@, slug_text(self.named_slug))
    }

    /// The path of the folder on disk.
    pub open spec fn path_spec(self) -> PathModel {
        self.runs_dir@.child(self.name())
    }

    /// The members of `run.json` without the extras.
    pub open spec fn base_members(
        self,
        started: Seq<char>,
        finished: Seq<char>,
        outcome: Seq<char>,
        exit_code: i32,
    ) -> Map<Seq<char>, Tree> {
        let first = Map::empty().insert("started_at"@, Tree::Text(started)).insert(
            "finished_at"@,
            Tree::Text(finished),
        ).insert("command"@, Tree::Text(self.command@));
        let named = match self.slug {
            Some(s) => first.insert("slug"@, Tree::Text(s@)),
            None => first,
        };
        named.insert("args_summary"@, json::json_tree(self.args_summary)).insert(
            "outcome"@,
            Tree::Text(outcome),
        ).insert("exit_code"@, Tree::Int(exit_code as int)).insert(
            "config_snapshot"@,
            json::json_tree(self.config_snapshot),
        ).insert("token_usage_total"@, usage_tree(self.token_usage_total))
    }

    /// The folder of an invocation that started at the given time.
    pub fn new_with_started_at(
        layout: &BinaryFsLayout,
        started_at: Timestamp,
        command: &'static str,
        slug: Option<&str>,
    ) -> (r: RunFolder)
        requires
            started_at.wf(),
        ensures
            r.runs_dir@ == fs_layout::binary_child(*layout, "runs"@),
            r.started_at == started_at,
            r.command@ == command@,
            slug_text(r.slug) == (match slug {
                Some(s) => Some(s@),
                None => None,
            }),
            r.named_slug == r.slug,
            json::json_tree(r.args_summary) == Tree::Null,
            json::json_tree(r.config_snapshot) == Tree::Null,
            r.token_usage_total == TokenUsage::none(),
            r.extras@.len() == 0,
    {
        let owned: Option<String> = match slug {
            Some(s) => Some(s.to_string()),
            None => None,
        };
        let named: Option<String> = match &owned {
            Some(s) => Some(s.clone()),
            None => None,
        };
        RunFolder {
            runs_dir: layout.runs_dir(),
            started_at,
            command,
            named_slug: named,
            slug: owned,
            args_summary: json::null_value(),
            config_snapshot: json::null_value(),
            token_usage_total: TokenUsage::zero(),
            extras: Vec::new(),
        }
    }

    /// The path of the folder.
    pub fn path(&self) -> (r: FsPath)
        requires
            self.started_at.wf(),
        ensures
            r@ == self.path_spec(),
    {
        let slug: Option<&str> = match &self.named_slug {
            Some(s) => Some(s.as_str()),
            None => None,
        };
        let name = folder_name(&self.started_at, self.command, slug);
        self.runs_dir.join(name.as_str())
    }

    /// When the invocation started.
    pub fn started_at(&self) -> (r: Timestamp)
        ensures
            r == self.started_at,
    {
        self.started_at
    }

    /// Sets how the tool was invoked.
    pub fn set_args_summary(&mut self, value: Value)
        ensures
            *final(self) == (RunFolder { args_summary: value, ..*old(self) }),
    {
        self.args_summary = value;
    }

    /// Sets the configuration, in which the API key has to be masked already.
    pub fn set_config_snapshot(&mut self, value: Value)
        ensures
            *final(self) == (RunFolder { config_snapshot: value, ..*old(self) }),
    {
        self.config_snapshot = value;
    }

    /// Adds a member of `run.json`; a later one of the same key wins.
    pub fn set_extra(&mut self, key: &str, value: Value)
        ensures
            final(self).runs_dir == old(self).runs_dir,
            final(self).started_at == old(self).started_at,
            final(self).command == old(self).command,
            final(self).named_slug == old(self).named_slug,
            final(self).slug == old(self).slug,
            final(self).args_summary == old(self).args_summary,
            final(self).config_snapshot == old(self).config_snapshot,
            final(self).token_usage_total == old(self).token_usage_total,
            final(self).extras@.len() == old(self).extras@.len() + 1,
            final(self).extras@.drop_last() == old(self).extras@,
            final(self).extras@.last().0@ == key@,
            final(self).extras@.last().1 == value,
            extras_view(final(self).extras@) == extras_view(old(self).extras@).push(
                (key@, json::json_tree(value)),
            ),
    {
        self.extras.push((key.to_string(), value));
        assert(self.extras@.drop_last() =~= old(self).extras@);
        assert(extras_view(self.extras@) =~= extras_view(old(self).extras@).push(
            (key@, json::json_tree(value)),
        ));
    }

    /// Adds the tokens of a call to the total.
    pub fn add_token_usage(&mut self, usage: &TokenUsage)
        requires
            old(self).token_usage_total.fits(*usage),
        ensures
            *final(self) == (RunFolder {
                token_usage_total: old(self).token_usage_total.sum(*usage),
                ..*old(self)
            }),
    {
        let total = self.token_usage_total.plus(usage);
        self.token_usage_total = total;
    }

    /// The tokens of all calls so far.
    pub fn aggregated_token_usage(&self) -> (r: TokenUsage)
        ensures
            r == self.token_usage_total,
    {
        self.token_usage_total
    }

    /// What it takes to put a slug into the name of the folder. Names are compared
    /// as paths, part by part, with the slash as the separator.
    pub fn plan_rename(&self, new_slug: &str) -> (r: RenamePlan)
        requires
            self.started_at.wf(),
        ensures
            match r {
                RenamePlan::Keep => new_slug@.len() == 0,
                RenamePlan::Named => new_slug@.len() > 0 && same_place(
                    self.name(),
                    run_name(self.started_at, self.command@, Some(new_slug@)),
                ),
                RenamePlan::Rename { from, to } => {
                    &&& new_slug@.len() > 0
                    &&& !same_place(
                        self.name(),
                        run_name(self.started_at, self.command@, Some(new_slug@)),
                    )
                    &&& from@ == self.path_spec()
                    &&& to@ == self.runs_dir@.child(
                        run_name(self.started_at, self.command@, Some(new_slug@)),
                    )
                },
            },
    {
        if new_slug.is_empty() {
            return RenamePlan::Keep;
        }
        let slug: Option<&str> = match &self.named_slug {
            Some(s) => Some(s.as_str()),
            None => None,
        };
        let old_name = folder_name(&self.started_at, self.command, slug);
        let new_name = folder_name(&self.started_at, self.command, Some(new_slug));
        if is_same_place(old_name.as_str(), new_name.as_str()) {
            return RenamePlan::Named;
        }
        RenamePlan::Rename { from: self.path(), to: self.runs_dir.join(new_name.as_str()) }
    }

    /// Takes note of the slug of a folder that stands where it should already: its
    /// path stays.
    pub fn keep_path(&mut self, new_slug: &str)
        ensures
            final(self).runs_dir == old(self).runs_dir,
            final(self).started_at == old(self).started_at,
            final(self).command == old(self).command,
            final(self).named_slug == old(self).named_slug,
            slug_text(final(self).slug) == Some(new_slug@),
            final(self).args_summary == old(self).args_summary,
            final(self).config_snapshot == old(self).config_snapshot,
            final(self).token_usage_total == old(self).token_usage_total,
            final(self).extras == old(self).extras,
    {
        self.slug = Some(new_slug.to_string());
    }

    /// Takes note that the folder has the slug in its name by now.
    pub fn renamed(&mut self, new_slug: &str)
        ensures
            final(self).runs_dir == old(self).runs_dir,
            final(self).started_at == old(self).started_at,
            final(self).command == old(self).command,
            slug_text(final(self).named_slug) == Some(new_slug@),
            slug_text(final(self).slug) == Some(new_slug@),
            final(self).args_summary == old(self).args_summary,
            final(self).config_snapshot == old(self).config_snapshot,
            final(self).token_usage_total == old(self).token_usage_total,
            final(self).extras == old(self).extras,
    {
        self.named_slug = Some(new_slug.to_string());
        self.slug = Some(new_slug.to_string());
    }

    /// The message of a rename that would hit something else.
    pub fn rename_refused(target: &str) -> (r: String)
        ensures
            r@ == "refusing to rename run folder: "@ + target@ + " already exists"@,
    {
        text::concat3("refusing to rename run folder: ", target, " already exists")
    }

    /// The contents of `run.json`. The times are given in full form.
    pub fn run_json(&self, started: &str, finished: &str, outcome: RunOutcome, exit_code: i32) -> (r:
        Value)
        ensures
            json::json_tree(r) == Tree::Object(
                with_extras(
                    self.base_members(started@, finished@, outcome.tag(), exit_code),
                    self.extras@,
                ),
            ),
    {
        let mut out = json::empty_object();
        json::insert_member(&mut out, "started_at", json::text_value(started));
        json::insert_member(&mut out, "finished_at", json::text_value(finished));
        json::insert_member(&mut out, "command", json::text_value(self.command));
        if let Some(s) = &self.slug {
            json::insert_member(&mut out, "slug", json::text_value(s.as_str()));
        }
        json::insert_member(&mut out, "args_summary", self.args_summary.clone());
        json::insert_member(&mut out, "outcome", json::text_value(outcome.as_tag()));
        json::insert_member(&mut out, "exit_code", json::signed_value(exit_code as i64));
        json::insert_member(&mut out, "config_snapshot", self.config_snapshot.clone());
        json::insert_member(&mut out, "token_usage_total", usage_value(&self.token_usage_total));
        let ghost base = self.base_members(started@, finished@, outcome.tag(), exit_code);
        assert(json::json_tree(out) == Tree::Object(base));
        assert(with_extras(base, self.extras@.take(0)) == base);
        for i in 0..self.extras.len()
            invariant
                json::json_tree(out) == Tree::Object(
                    with_extras(base, self.extras@.take(i as int)),
                ),
        {
            assert(self.extras@.take(i + 1).drop_last() =~= self.extras@.take(i as int));
            let entry = &self.extras[i];
            json::insert_member(&mut out, entry.0.as_str(), entry.1.clone());
        }
        assert(self.extras@.take(self.extras@.len() as int) =~= self.extras@);
        out
    }

    /// The text of `run.json`.
    pub fn finalize(&self, started: &str, finished: &str, outcome: RunOutcome, exit_code: i32) -> (r:
        String)
        ensures
            r@ == json::json_pretty(
                Tree::Object(
                    with_extras(
                        self.base_members(started@, finished@, outcome.tag(), exit_code),
                        self.extras@,
                    ),
                ),
            ),
    {
        let value = self.run_json(started, finished, outcome, exit_code);
        json::pretty_text(&value)
    }
}

// ---------------------------------------------------------------------------
// Laws
// ---------------------------------------------------------------------------

/// Renaming to a slug gives the folder the name that it would have had if it had
/// been made with the slug.
pub proof fn rename_equals_creation(renamed: RunFolder, made: RunFolder, slug: Seq<char>)
    requires
        renamed.runs_dir@ == made.runs_dir@,
        renamed.started_at == made.started_at,
        renamed.command@ == made.command@,
        slug_text(renamed.named_slug) == Some(slug),
        slug_text(made.named_slug) == Some(slug),
    ensures
        renamed.path_spec() == made.path_spec(),
{
}

/// Slashes at the end of a name do not count.
pub proof fn trailing_slash_does_not_count(name: Seq<char>)
    ensures
        same_place(name.push('/'), name),
{
    let all = name.push('/');
    assert(all.drop_last() =~= name);
    assert(text::segments(all).drop_last() =~= text::segments(name));
}

proof fn lemma_extras_shadow(
    members: Map<Seq<char>, Tree>,
    extras: Seq<(String, Value)>,
    k: int,
)
    requires
        0 <= k < extras.len(),
        forall|i: int| k < i < extras.len() ==> (#[trigger] extras[i]).0@ != extras[k].0@,
    ensures
        with_extras(members, extras).dom().contains(extras[k].0@),
        with_extras(members, extras)[extras[k].0@] == json::json_tree(extras[k].1),
    decreases extras.len(),
{
    let n = extras.len() - 1;
    if k < n {
        let before = extras.drop_last();
        assert(before[k] == extras[k]);
        assert forall|i: int| k < i < before.len() implies (#[trigger] before[i]).0@
            != before[k].0@ by {
            assert(before[i] == extras[i]);
        }
        lemma_extras_shadow(members, before, k);
        assert(extras[n].0@ != extras[k].0@);
    }
}

/// An extra member wins over every member of the same key that came before it:
/// the last value that was set under a key is the one that `run.json` shows.
pub proof fn last_extra_wins(
    members: Map<Seq<char>, Tree>,
    extras: Seq<(String, Value)>,
    k: int,
)
    requires
        0 <= k < extras.len(),
        forall|i: int| k < i < extras.len() ==> (#[trigger] extras[i]).0@ != extras[k].0@,
    ensures
        json::tree_member(Tree::Object(with_extras(members, extras)), extras[k].0@) == Some(
            json::json_tree(extras[k].1),
        ),
{
    lemma_extras_shadow(members, extras, k);
}

/// A member whose key no extra has is shown as it is.
pub proof fn other_members_stay(
    members: Map<Seq<char>, Tree>,
    extras: Seq<(String, Value)>,
    key: Seq<char>,
)
    requires
        forall|i: int| 0 <= i < extras.len() ==> (#[trigger] extras[i]).0@ != key,
    ensures
        json::tree_member(Tree::Object(with_extras(members, extras)), key) == json::tree_member(
            Tree::Object(members),
            key,
        ),
    decreases extras.len(),
{
    if extras.len() > 0 {
        let before = extras.drop_last();
        assert forall|i: int| 0 <= i < before.len() implies (#[trigger] before[i]).0@ != key by {
            assert(before[i] == extras[i]);
        }
        other_members_stay(members, before, key);
        assert(extras[extras.len() - 1].0@ != key);
    }
}

} // verus!
