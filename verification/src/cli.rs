//! What the commands decide around their stages: where input comes from, what
//! is recorded of the arguments, how a failure is tagged, and what is written.

use vstd::prelude::*;
use serde_json::Value;
use crate::audit::RunOutcome;
use crate::domain::KeywordSet;
use crate::decode::Decode;
use crate::error::{AtsError, LlmClass, YamlDiag};
use crate::json;
use crate::json::Tree;
use crate::ports::LlmCallRecord;
use crate::scrape_port::ScrapeError;
use crate::stage::keywords;
use crate::text;

verus! {

// ---------------------------------------------------------------------------
// Input
// ---------------------------------------------------------------------------

/// Where the text of an argument comes from.
#[derive(Debug, Clone, PartialEq, Eq)]
pub enum InputSource {
    /// Standard input.
    Stdin,
    /// A file.
    File(String),
}

impl InputSource {
    /// `-` is standard input; anything else is a path.
    pub fn parse(s: &str) -> (r: InputSource)
        ensures
            s@ == "-"@ ==> r is Stdin,
            s@ != "-"@ ==> (r matches InputSource::File(p) && p@ == s@),
            r.description() == s@,
    {
        if text::same_text(s, "-") {
            InputSource::Stdin
        } else {
            InputSource::File(s.to_string())
        }
    }

    /// Whether this is standard input.
    pub fn is_stdin(&self) -> (r: bool)
        ensures
            r == (*self is Stdin),
    {
        match self {
            InputSource::Stdin => true,
            InputSource::File(_) => false,
        }
    }

    /// The argument as the user gave it.
    pub open spec fn description(self) -> Seq<char> {
        match self {
            InputSource::Stdin => "-"@,
            InputSource::File(p) => p@,
        }
    }

    /// The argument as the user gave it.
    pub fn describe(&self) -> (r: String)
        ensures
            r@ == self.description(),
    {
        match self {
            InputSource::Stdin => "-".to_string(),
            InputSource::File(p) => p.clone(),
        }
    }
}

impl std::str::FromStr for InputSource {
    type Err = String;

    /// Every argument is a source: `-` is standard input, anything else a path.
    fn from_str(s: &str) -> (r: Result<Self, String>)
        ensures
            r is Ok,
            s@ == "-"@ ==> r->Ok_0 is Stdin,
            s@ != "-"@ ==> (r->Ok_0 matches InputSource::File(p) && p@ == s@),
            r->Ok_0.description() == s@,
    {
        Ok(InputSource::parse(s))
    }
}

// ---------------------------------------------------------------------------
// Commands
// ---------------------------------------------------------------------------

/// A command with its arguments.
#[derive(Debug)]
pub enum Command {
    Render { yaml: String },
    Scrape { url: String },
    Keywords,
    Optimize { resume: InputSource, keywords: InputSource },
    Pdf { out: String },
    Run { yaml: String, url: String },
}

impl Command {
    /// The name of the command.
    pub open spec fn command_name(self) -> Seq<char> {
        match self {
            Command::Render { yaml } => "render"@,
            Command::Scrape { url } => "scrape"@,
            Command::Keywords => "keywords"@,
            Command::Optimize { resume, keywords } => "optimize"@,
            Command::Pdf { out } => "pdf"@,
            Command::Run { yaml, url } => "run"@,
        }
    }

    /// The arguments as `run.json` records them.
    pub open spec fn summary(self) -> Tree {
        Tree::Object(
            match self {
                Command::Render { yaml } => Map::empty().insert("yaml"@, Tree::Text(yaml@)),
                Command::Scrape { url } => Map::empty().insert("url"@, Tree::Text(url@)),
                Command::Keywords => Map::empty(),
                Command::Optimize { resume, keywords } => Map::empty().insert(
                    "resume"@,
                    Tree::Text(resume.description()),
                ).insert("keywords"@, Tree::Text(keywords.description())),
                Command::Pdf { out } => Map::empty().insert("out"@, Tree::Text(out@)),
                Command::Run { yaml, url } => Map::empty().insert("yaml"@, Tree::Text(yaml@)).insert(
                    "url"@,
                    Tree::Text(url@),
                ),
            },
        )
    }

    /// The name of the command.
    pub fn name(&self) -> (r: &'static str)
        ensures
            r@ == self.command_name(),
    {
        match self {
            Command::Render { yaml: _ } => "render",
            Command::Scrape { url: _ } => "scrape",
            Command::Keywords => "keywords",
            Command::Optimize { resume: _, keywords: _ } => "optimize",
            Command::Pdf { out: _ } => "pdf",
            Command::Run { yaml: _, url: _ } => "run",
        }
    }

    /// The arguments as `run.json` records them.
    pub fn args_summary(&self) -> (r: Value)
        ensures
            json::json_tree(r) == self.summary(),
    {
        let mut out = json::empty_object();
        match self {
            Command::Render { yaml } => {
                json::insert_member(&mut out, "yaml", json::text_value(yaml.as_str()));
            },
            Command::Scrape { url } => {
                json::insert_member(&mut out, "url", json::text_value(url.as_str()));
            },
            Command::Keywords => {},
            Command::Optimize { resume, keywords } => {
                json::insert_member(
                    &mut out,
                    "resume",
                    json::text_value(resume.describe().as_str()),
                );
                json::insert_member(
                    &mut out,
                    "keywords",
                    json::text_value(keywords.describe().as_str()),
                );
            },
            Command::Pdf { out: path } => {
                json::insert_member(&mut out, "out", json::text_value(path.as_str()));
            },
            Command::Run { yaml, url } => {
                json::insert_member(&mut out, "yaml", json::text_value(yaml.as_str()));
                json::insert_member(&mut out, "url", json::text_value(url.as_str()));
            },
        }
        out
    }
}

/// Standard input can be read once: only one of the two inputs of `optimize` may
/// come from it.
pub fn check_inputs(resume: &InputSource, keywords: &InputSource) -> (r: Result<(), AtsError>)
    ensures
        r is Err <==> *resume is Stdin && *keywords is Stdin,
        r matches Err(e) ==> (e matches AtsError::Config(m) && m@
            == "only one of --resume and --keywords may be '-' (stdin); both cannot read from standard input"@),
{
    if resume.is_stdin() && keywords.is_stdin() {
        return Err(
            AtsError::Config(
                "only one of --resume and --keywords may be '-' (stdin); both cannot read from standard input".to_string(),
            ),
        );
    }
    Ok(())
}

/// The error for a resume file that cannot be read: a missing one is a fault of
/// the resume, anything else a filesystem failure.
pub fn yaml_read_error(missing: bool, path: &str, cause: &str) -> (r: AtsError)
    ensures
        missing ==> (r matches AtsError::Yaml(d) && d.path is None && d.reason@
            == "yaml file not found: "@ + path@ && d.line is None && d.column is None),
        !missing ==> (r matches AtsError::Io(m) && m@ == cause@),
{
    if missing {
        AtsError::Yaml(
            YamlDiag {
                path: None,
                reason: text::concat2("yaml file not found: ", path),
                line: None,
                column: None,
            },
        )
    } else {
        AtsError::Io(cause.to_string())
    }
}

/// Why keywords from a file or from standard input cannot be used, where they
/// cannot.
pub open spec fn input_problem(raw: Seq<char>) -> Option<Seq<char>> {
    match json::json_parsed(raw) {
        Err(e) => Some(
            "keywords input is not valid JSON ("@ + e
                + "); expected a document matching the ats_keyword_extraction schema"@,
        ),
        Ok(t) => match keywords::value_problem(t) {
            Some(p) => Some(
                "keywords JSON did not match ats_keyword_extraction schema: "@ + p,
            ),
            None => None,
        },
    }
}

/// The catalogue in the keyword input of `optimize`.
pub fn keywords_from_input(raw: &str) -> (r: Result<KeywordSet, AtsError>)
    ensures
        match r {
            Ok(set) => input_problem(raw@) is None && KeywordSet::decodes(
                json::json_parsed(raw@)->Ok_0,
                set,
            ),
            Err(e) => e matches AtsError::SchemaInvalid(m) && input_problem(raw@) == Some(m@),
        },
{
    let value = match json::parse(raw) {
        Ok(v) => v,
        Err(e) => {
            return Err(
                AtsError::SchemaInvalid(
                    text::concat3(
                        "keywords input is not valid JSON (",
                        e.as_str(),
                        "); expected a document matching the ats_keyword_extraction schema",
                    ),
                ),
            );
        },
    };
    match keywords::parse_keywords_from_value(&value) {
        Ok(set) => Ok(set),
        Err(e) => Err(
            AtsError::SchemaInvalid(
                text::concat2(
                    "keywords JSON did not match ats_keyword_extraction schema: ",
                    e.as_str(),
                ),
            ),
        ),
    }
}

// ---------------------------------------------------------------------------
// Output
// ---------------------------------------------------------------------------

/// A failed write to standard output.
pub struct WriteFailure {
    /// The reader has closed the pipe.
    pub broken_pipe: bool,
    pub cause: String,
}

/// What a write to standard output came to: a reader that stops early is no
/// failure.
pub fn after_write(failure: Option<WriteFailure>) -> (r: Result<(), AtsError>)
    ensures
        match failure {
            None => r is Ok,
            Some(f) => if f.broken_pipe {
                r is Ok
            } else {
                r == Err::<(), AtsError>(AtsError::Io(f.cause))
            },
        },
{
    match failure {
        None => Ok(()),
        Some(f) => {
            if f.broken_pipe {
                Ok(())
            } else {
                Err(AtsError::Io(f.cause))
            }
        },
    }
}

/// The line that reports an audit record to the user.
pub open spec fn usage_line_text(stage: Seq<char>, call: LlmCallRecord) -> Seq<char> {
    "["@ + stage + "] tokens: prompt="@ + text::numeral(call.usage.prompt as nat) + " completion="@
        + text::numeral(call.usage.completion as nat) + " total="@ + text::numeral(
        call.usage.total as nat,
    ) + " attempt="@ + text::numeral(call.attempt as nat) + " outcome="@ + call.outcome@ + "\n"@
}

/// Reports audit records to the user, one line each, under the name of a stage.
#[derive(Debug, Clone, Copy)]
pub struct StderrUsageReporter {
    pub stage: &'static str,
}

impl StderrUsageReporter {
    /// A reporter for a stage.
    pub fn new(stage: &'static str) -> (r: Self)
        ensures
            r.stage@ == stage@,
    {
        StderrUsageReporter { stage }
    }

    /// The line for a record.
    pub fn line(&self, call: &LlmCallRecord) -> (r: String)
        ensures
            r@ == usage_line_text(self.stage@, *call),
    {
        let mut out = text::concat3("[", self.stage, "] tokens: prompt=");
        out.push_str(text::decimal(call.usage.prompt).as_str());
        out.push_str(" completion=");
        out.push_str(text::decimal(call.usage.completion).as_str());
        out.push_str(" total=");
        out.push_str(text::decimal(call.usage.total).as_str());
        out.push_str(" attempt=");
        out.push_str(text::decimal(call.attempt as u64).as_str());
        out.push_str(" outcome=");
        out.push_str(call.outcome.as_str());
        out.push_str("\n");
        out
    }
}

// ---------------------------------------------------------------------------
// Outcomes
// ---------------------------------------------------------------------------

/// The tag of a model failure.
pub open spec fn llm_tag(class: LlmClass) -> Seq<char> {
    match class {
        LlmClass::Transient(_) => "transient"@,
        LlmClass::Auth(_) => "auth"@,
        LlmClass::ContextExceeded(_) => "context-exceeded"@,
        LlmClass::Other(_) => "other"@,
    }
}

/// The tag of a model failure.
pub fn llm_class_tag(class: &LlmClass) -> (r: &'static str)
    ensures
        r@ == llm_tag(*class),
{
    match class {
        LlmClass::Transient(_) => "transient",
        LlmClass::Auth(_) => "auth",
        LlmClass::ContextExceeded(_) => "context-exceeded",
        LlmClass::Other(_) => "other",
    }
}

/// The message of a command that does nothing yet.
pub const NOT_IMPLEMENTED: &'static str = "not implemented in Effort 1";

/// What a failed invocation came to.
pub enum FailedOutcome {
    Unimplemented,
    /// The tag of the failure.
    Failure(String),
}

/// The tag of a failure in `run.json`: the class of the error, with the class of
/// the scrape or model failure behind a slash.
pub open spec fn failure_tag(err: AtsError) -> Seq<char> {
    match err {
        AtsError::Scrape(class) => "scrape/"@ + class.tag(),
        AtsError::Llm(class) => "llm/"@ + llm_tag(class),
        _ => err.class_spec(),
    }
}

/// What a failed invocation came to.
pub fn classify_outcome(err: &AtsError) -> (r: FailedOutcome)
    ensures
        *err matches AtsError::Other(m) && m@ == NOT_IMPLEMENTED@ ==> r is Unimplemented,
        !(*err matches AtsError::Other(m) && m@ == NOT_IMPLEMENTED@) ==> (r
            matches FailedOutcome::Failure(t) && t@ == failure_tag(*err)),
{
    match err {
        AtsError::Other(m) => {
            if text::same_text(m.as_str(), NOT_IMPLEMENTED) {
                FailedOutcome::Unimplemented
            } else {
                FailedOutcome::Failure(err.class().to_string())
            }
        },
        AtsError::Scrape(class) => FailedOutcome::Failure(
            text::concat2("scrape/", class.class_tag().as_str()),
        ),
        AtsError::Llm(class) => FailedOutcome::Failure(text::concat2("llm/", llm_class_tag(class))),
        _ => FailedOutcome::Failure(err.class().to_string()),
    }
}

impl FailedOutcome {
    /// The outcome in the form in which it is recorded.
    pub fn as_outcome(&self) -> (r: RunOutcome)
        ensures
            match *self {
                FailedOutcome::Unimplemented => r is Unimplemented,
                FailedOutcome::Failure(t) => r matches RunOutcome::Failure(s) && s@ == t@,
            },
    {
        match self {
            FailedOutcome::Unimplemented => RunOutcome::Unimplemented,
            FailedOutcome::Failure(t) => RunOutcome::Failure(t.as_str()),
        }
    }
}

// ---------------------------------------------------------------------------
// Stub pages
// ---------------------------------------------------------------------------

/// The failure that a stub page asks for.
pub open spec fn is_stub_error(tag: Seq<char>, e: ScrapeError) -> bool {
    if tag == "offline"@ {
        e matches ScrapeError::Offline(m) && m@ == "stub: offline"@
    } else if tag == "network-timeout"@ {
        e matches ScrapeError::NetworkTimeout(m) && m@ == "stub: network-timeout"@
    } else if tag == "timeout"@ {
        e matches ScrapeError::Timeout(m) && m@ == "stub: timeout"@
    } else if tag == "auth-required"@ {
        e == (ScrapeError::AuthRequired { status: 401 })
    } else if tag == "not-found"@ {
        e == (ScrapeError::NotFound { status: 404 })
    } else if tag == "geo-blocked"@ {
        e == (ScrapeError::GeoBlocked { status: 451 })
    } else if tag == "http-418"@ {
        e == (ScrapeError::Http { status: 418 })
    } else if tag == "browser-missing"@ {
        e matches ScrapeError::BrowserMissing(m) && m@ == "stub: no Chrome"@
    } else {
        e matches ScrapeError::Other(m) && m@ == "stub: "@ + tag
    }
}

/// The failure that a stub page asks for.
pub fn stub_error(tag: &str) -> (r: ScrapeError)
    ensures
        is_stub_error(tag@, r),
{
    if text::same_text(tag, "offline") {
        ScrapeError::Offline("stub: offline".to_string())
    } else if text::same_text(tag, "network-timeout") {
        ScrapeError::NetworkTimeout("stub: network-timeout".to_string())
    } else if text::same_text(tag, "timeout") {
        ScrapeError::Timeout("stub: timeout".to_string())
    } else if text::same_text(tag, "auth-required") {
        ScrapeError::AuthRequired { status: 401 }
    } else if text::same_text(tag, "not-found") {
        ScrapeError::NotFound { status: 404 }
    } else if text::same_text(tag, "geo-blocked") {
        ScrapeError::GeoBlocked { status: 451 }
    } else if text::same_text(tag, "http-418") {
        ScrapeError::Http { status: 418 }
    } else if text::same_text(tag, "browser-missing") {
        ScrapeError::BrowserMissing("stub: no Chrome".to_string())
    } else {
        ScrapeError::Other(text::concat2("stub: ", tag))
    }
}

/// `s` starts with `prefix`.
pub open spec fn starts_with(s: Seq<char>, prefix: Seq<char>) -> bool {
    prefix.len() <= s.len() && s.take(prefix.len() as int) == prefix
}

/// What a stub page stands for: a failure where it starts with `error:`, else
/// itself.
pub fn stub_page(raw: String) -> (r: Result<String, ScrapeError>)
    ensures
        !starts_with(raw@, "error:"@) ==> (r matches Ok(page) && page@ == raw@),
        starts_with(raw@, "error:"@) ==> (r matches Err(e) && is_stub_error(
            text::trimmed(raw@.skip(6)),
            e,
        )),
{
    proof {
        reveal_strlit("error:");
        assert("error:"@.len() == 6);
    }
    let chars = text::chars_of(raw.as_str());
    if chars.len() < 6 {
        return Ok(raw);
    }
    assert(chars@.subrange(0, 6) =~= raw@.take(6));
    let head = text::string_of_range(&chars, 0, 6);
    if !text::same_text(head.as_str(), "error:") {
        return Ok(raw);
    }
    assert(chars@.subrange(6, chars@.len() as int) =~= raw@.skip(6));
    let rest = text::string_of_range(&chars, 6, chars.len());
    let tag = text::trim(rest.as_str());
    Err(stub_error(tag.as_str()))
}

} // verus!
