//! The error taxonomy. Every failure has one variant, every variant one exit
//! code; the codes are the external contract of the command line tool.

use vstd::prelude::*;
use crate::ports::PdfError;
use crate::text;

verus! {

/// Any failure of a stage or of a command.
#[derive(Debug)]
pub enum AtsError {
    /// Missing or malformed configuration.
    Config(String),
    /// The resume failed to parse or to validate.
    Yaml(YamlDiag),
    /// The posting could not be fetched.
    Scrape(ScrapeClass),
    /// The language model failed after all retries.
    Llm(LlmClass),
    /// The keyword response failed validation in every attempt.
    SchemaInvalid(String),
    /// The PDF could not be rendered.
    Pdf(String),
    /// Any other filesystem failure.
    Io(String),
    /// Anything else.
    Other(String),
}

impl AtsError {
    /// The exit code of the variant.
    pub open spec fn exit_code_spec(self) -> i32 {
        match self {
            AtsError::Config(_) => 2,
            AtsError::Yaml(_) => 3,
            AtsError::Scrape(_) => 4,
            AtsError::Llm(_) => 5,
            AtsError::SchemaInvalid(_) => 6,
            AtsError::Pdf(_) => 7,
            AtsError::Io(_) => 1,
            AtsError::Other(_) => 1,
        }
    }

    /// The log tag of the variant.
    pub open spec fn class_spec(self) -> Seq<char> {
        match self {
            AtsError::Config(_) => "config"@,
            AtsError::Yaml(_) => "yaml"@,
            AtsError::Scrape(_) => "scrape"@,
            AtsError::Llm(_) => "llm"@,
            AtsError::SchemaInvalid(_) => "schema-invalid"@,
            AtsError::Pdf(_) => "pdf"@,
            AtsError::Io(_) => "io"@,
            AtsError::Other(_) => "other"@,
        }
    }

    /// The message of the error.
    pub open spec fn text(self) -> Seq<char> {
        match self {
            AtsError::Config(m) => "config error: "@ + m@,
            AtsError::Yaml(d) => "yaml error: "@ + d.text(),
            AtsError::Scrape(c) => "scrape error: "@ + c.text(),
            AtsError::Llm(c) => "llm error: "@ + c.text(),
            AtsError::SchemaInvalid(m) => "schema validation failed: "@ + m@,
            AtsError::Pdf(m) => "pdf error: "@ + m@,
            AtsError::Io(m) => "io error: "@ + m@,
            AtsError::Other(m) => m@,
        }
    }

    /// The exit code that the process ends with.
    pub fn exit_code(&self) -> (r: i32)
        ensures
            r == self.exit_code_spec(),
    {
        match self {
            AtsError::Config(_) => 2,
            AtsError::Yaml(_) => 3,
            AtsError::Scrape(_) => 4,
            AtsError::Llm(_) => 5,
            AtsError::SchemaInvalid(_) => 6,
            AtsError::Pdf(_) => 7,
            AtsError::Io(_) => 1,
            AtsError::Other(_) => 1,
        }
    }

    /// A short tag for logs.
    pub fn class(&self) -> (r: &'static str)
        ensures
            r@ == self.class_spec(),
    {
        match self {
            AtsError::Config(_) => "config",
            AtsError::Yaml(_) => "yaml",
            AtsError::Scrape(_) => "scrape",
            AtsError::Llm(_) => "llm",
            AtsError::SchemaInvalid(_) => "schema-invalid",
            AtsError::Pdf(_) => "pdf",
            AtsError::Io(_) => "io",
            AtsError::Other(_) => "other",
        }
    }

    /// The message for the user.
    pub fn to_string(&self) -> (r: String)
        ensures
            r@ == self.text(),
    {
        match self {
            AtsError::Config(m) => text::concat2("config error: ", m.as_str()),
            AtsError::Yaml(d) => text::concat2("yaml error: ", d.to_string().as_str()),
            AtsError::Scrape(c) => text::concat2("scrape error: ", c.to_string().as_str()),
            AtsError::Llm(c) => text::concat2("llm error: ", c.to_string().as_str()),
            AtsError::SchemaInvalid(m) => text::concat2("schema validation failed: ", m.as_str()),
            AtsError::Pdf(m) => text::concat2("pdf error: ", m.as_str()),
            AtsError::Io(m) => text::concat2("io error: ", m.as_str()),
            AtsError::Other(m) => m.clone(),
        }
    }

    /// The error for a failed PDF rendering.
    pub fn from_pdf(value: PdfError) -> (r: AtsError)
        ensures
            r matches AtsError::Pdf(m) && m@ == value.text(),
    {
        AtsError::Pdf(value.to_string())
    }
}

impl From<YamlDiag> for AtsError {
    fn from(value: YamlDiag) -> (r: Self) {
        AtsError::Yaml(value)
    }
}

impl vstd::std_specs::convert::FromSpecImpl<YamlDiag> for AtsError {
    open spec fn obeys_from_spec() -> bool {
        true
    }

    open spec fn from_spec(value: YamlDiag) -> Self {
        AtsError::Yaml(value)
    }
}

/// A diagnostic about a resume document: where, what, and, for a syntax error,
/// at which line and column.
#[derive(Debug)]
pub struct YamlDiag {
    /// Path into the document, such as `cv.work_experience[1].start_date`.
    pub path: Option<String>,
    /// What is wrong.
    pub reason: String,
    /// The line, where it is known.
    pub line: Option<usize>,
    /// The column, where it is known.
    pub column: Option<usize>,
}

impl YamlDiag {
    /// The path, where there is one, and the reason.
    pub open spec fn headline(self) -> Seq<char> {
        match self.path {
            Some(p) => p@ + ": "@ + self.reason@,
            None => self.reason@,
        }
    }

    /// The position as a trailing remark.
    pub open spec fn position(self) -> Seq<char> {
        match (self.line, self.column) {
            (Some(l), Some(c)) => " (line "@ + text::numeral(l as nat) + ", column "@ + text::numeral(
                c as nat,
            ) + ")"@,
            (Some(l), None) => " (line "@ + text::numeral(l as nat) + ")"@,
            _ => Seq::empty(),
        }
    }

    /// The diagnostic on one line.
    pub open spec fn text(self) -> Seq<char> {
        self.headline() + self.position()
    }

    /// The diagnostic on one line: `path: reason (line l, column c)`, without
    /// the parts that are not known. A column without a line is not shown.
    pub fn to_string(&self) -> (r: String)
        ensures
            r@ == self.text(),
    {
        let mut out = match &self.path {
            Some(p) => text::concat3(p.as_str(), ": ", self.reason.as_str()),
            None => self.reason.clone(),
        };
        if let Some(l) = self.line {
            out.push_str(" (line ");
            out.push_str(text::decimal(l as u64).as_str());
            if let Some(c) = self.column {
                out.push_str(", column ");
                out.push_str(text::decimal(c as u64).as_str());
            }
            out.push_str(")");
        }
        assert(out@ =~= self.text());
        out
    }
}

/// Why a posting could not be fetched.
#[derive(Debug, Clone, PartialEq, Eq)]
pub enum ScrapeClass {
    /// The page asks for credentials.
    AuthRequired,
    /// There is no such page.
    NotFound,
    /// The page is blocked for legal reasons.
    GeoBlocked,
    /// The transport failed while the page was loading.
    NetworkTimeout,
    /// The host could not be reached.
    Offline,
    /// The page did not settle in time.
    Timeout,
    /// Any other failing status.
    Http(u16),
    /// There is no browser to fetch the page with.
    BrowserMissing(String),
    /// Anything else.
    Other(String),
}

impl ScrapeClass {
    /// The message of the class.
    pub open spec fn text(self) -> Seq<char> {
        match self {
            ScrapeClass::AuthRequired => "auth-required"@,
            ScrapeClass::NotFound => "not-found"@,
            ScrapeClass::GeoBlocked => "geo-blocked"@,
            ScrapeClass::NetworkTimeout => "network-timeout"@,
            ScrapeClass::Offline => "offline"@,
            ScrapeClass::Timeout => "timeout"@,
            ScrapeClass::Http(s) => "http "@ + text::numeral(s as nat),
            ScrapeClass::BrowserMissing(m) => "browser-missing: "@ + m@,
            ScrapeClass::Other(m) => "other: "@ + m@,
        }
    }

    /// The stable tag of the class.
    pub open spec fn tag(self) -> Seq<char> {
        match self {
            ScrapeClass::AuthRequired => "auth-required"@,
            ScrapeClass::NotFound => "not-found"@,
            ScrapeClass::GeoBlocked => "geo-blocked"@,
            ScrapeClass::NetworkTimeout => "network-timeout"@,
            ScrapeClass::Offline => "offline"@,
            ScrapeClass::Timeout => "timeout"@,
            ScrapeClass::Http(s) => "http-"@ + text::numeral(s as nat),
            ScrapeClass::BrowserMissing(_) => "browser-missing"@,
            ScrapeClass::Other(_) => "other"@,
        }
    }

    /// A short tag that stays the same from run to run: it leaves the free-form
    /// detail out.
    pub fn class_tag(&self) -> (r: String)
        ensures
            r@ == self.tag(),
    {
        match self {
            ScrapeClass::AuthRequired => "auth-required".to_string(),
            ScrapeClass::NotFound => "not-found".to_string(),
            ScrapeClass::GeoBlocked => "geo-blocked".to_string(),
            ScrapeClass::NetworkTimeout => "network-timeout".to_string(),
            ScrapeClass::Offline => "offline".to_string(),
            ScrapeClass::Timeout => "timeout".to_string(),
            ScrapeClass::Http(s) => text::concat2("http-", text::decimal(*s as u64).as_str()),
            ScrapeClass::BrowserMissing(_) => "browser-missing".to_string(),
            ScrapeClass::Other(_) => "other".to_string(),
        }
    }

    /// The message of the class.
    pub fn to_string(&self) -> (r: String)
        ensures
            r@ == self.text(),
    {
        match self {
            ScrapeClass::AuthRequired => "auth-required".to_string(),
            ScrapeClass::NotFound => "not-found".to_string(),
            ScrapeClass::GeoBlocked => "geo-blocked".to_string(),
            ScrapeClass::NetworkTimeout => "network-timeout".to_string(),
            ScrapeClass::Offline => "offline".to_string(),
            ScrapeClass::Timeout => "timeout".to_string(),
            ScrapeClass::Http(s) => text::concat2("http ", text::decimal(*s as u64).as_str()),
            ScrapeClass::BrowserMissing(m) => text::concat2("browser-missing: ", m.as_str()),
            ScrapeClass::Other(m) => text::concat2("other: ", m.as_str()),
        }
    }
}

/// Why the language model failed.
#[derive(Debug, Clone, PartialEq, Eq)]
pub enum LlmClass {
    /// Rate limit, server failure or network failure in every attempt.
    Transient(String),
    /// The credentials were refused.
    Auth(String),
    /// The prompt is longer than the model's context window.
    ContextExceeded(String),
    /// Anything else.
    Other(String),
}

impl LlmClass {
    /// The message of the class.
    pub open spec fn text(self) -> Seq<char> {
        match self {
            LlmClass::Transient(m) => "transient: "@ + m@,
            LlmClass::Auth(m) => "auth: "@ + m@,
            LlmClass::ContextExceeded(m) => "context-exceeded: "@ + m@,
            LlmClass::Other(m) => "llm-other: "@ + m@,
        }
    }

    /// The message of the class.
    pub fn to_string(&self) -> (r: String)
        ensures
            r@ == self.text(),
    {
        match self {
            LlmClass::Transient(m) => text::concat2("transient: ", m.as_str()),
            LlmClass::Auth(m) => text::concat2("auth: ", m.as_str()),
            LlmClass::ContextExceeded(m) => text::concat2("context-exceeded: ", m.as_str()),
            LlmClass::Other(m) => text::concat2("llm-other: ", m.as_str()),
        }
    }
}

// ---------------------------------------------------------------------------
// Laws
// ---------------------------------------------------------------------------

/// The exit codes of failures lie between one and seven, never zero, and tell
/// the classes apart: two errors have the same code exactly when they have the
/// same log tag, apart from filesystem failures, which share code one with the
/// catch-all.
pub proof fn exit_codes_tell_classes_apart(a: AtsError, b: AtsError)
    ensures
        1 <= a.exit_code_spec() <= 7,
        a.exit_code_spec() == b.exit_code_spec() <==> {
            ||| a.class_spec() == b.class_spec()
            ||| (a is Io || a is Other) && (b is Io || b is Other)
        },
{
    reveal_strlit("config");
    reveal_strlit("yaml");
    reveal_strlit("scrape");
    reveal_strlit("llm");
    reveal_strlit("schema-invalid");
    reveal_strlit("pdf");
    reveal_strlit("io");
    reveal_strlit("other");
    assert("config"@.len() == 6 && "config"@[0] == 'c');
    assert("yaml"@.len() == 4);
    assert("scrape"@.len() == 6 && "scrape"@[0] == 's');
    assert("llm"@.len() == 3 && "llm"@[0] == 'l');
    assert("schema-invalid"@.len() == 14);
    assert("pdf"@.len() == 3 && "pdf"@[0] == 'p');
    assert("io"@.len() == 2);
    assert("other"@.len() == 5);
}

} // verus!
