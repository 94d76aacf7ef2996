//! Fetching a page: the probe, the browser, the navigation, the capture.
//!
//! The fetch is a state machine. It says what to do next; the caller does it and
//! reports the event. The browser is started only for a host that answered, and
//! whatever happens after that, it is released.

use vstd::prelude::*;
use crate::chromium;
use crate::chromium::{CdpFailure, NavigationEvent};
use crate::probe;
use crate::probe::{ConnectEvent, LookupEvent, ProbePlan};
use crate::scrape_port::ScrapeError;
use crate::text;

verus! {

/// How long a lookup and a connection may take each, in milliseconds.
pub const PROBE_TIMEOUT_MS: u64 = 2_000;

/// How long the browser may take to start, in milliseconds.
pub const BROWSER_LAUNCH_TIMEOUT_MS: u64 = 15_000;

/// What a navigation is given on top of the configured time, and how long a page
/// may settle after it, in milliseconds.
pub const POST_NAV_GRACE_MS: u64 = 500;

/// How long each step of closing the browser may take, in milliseconds.
pub const SHUTDOWN_TIMEOUT_MS: u64 = 3_000;

/// The width of the browser window.
pub const DEFAULT_VIEWPORT_WIDTH: u32 = 1280;

/// The height of the browser window.
pub const DEFAULT_VIEWPORT_HEIGHT: u32 = 800;

/// How far a fetch has come: what it waits for.
pub enum Progress {
    /// The addresses of the host.
    LookingUp { host: String },
    /// A connection to the address.
    Connecting { address: String },
    /// The browser.
    Launching,
    /// A blank page.
    Opening,
    /// A listener for the responses of the page.
    Listening,
    /// The end of the navigation.
    Navigating,
    /// The status of the page, once it has settled.
    Settling,
    /// The content of the page.
    Capturing,
}

/// A fetch.
pub struct Fetch {
    pub url: String,
    pub idle_timeout_ms: u64,
    pub progress: Progress,
}

/// What the caller has to do.
pub enum Action {
    /// Look up the addresses of `host:port`, within [`PROBE_TIMEOUT_MS`].
    Lookup { target: String },
    /// Connect to the address, within [`PROBE_TIMEOUT_MS`].
    Connect { address: String },
    /// Start a browser with a profile of its own, within
    /// [`BROWSER_LAUNCH_TIMEOUT_MS`].
    Launch,
    /// Open a blank page.
    OpenPage,
    /// Note the status of the first document of the page's main frame.
    Listen,
    /// Go to the address, within the time and [`POST_NAV_GRACE_MS`].
    Navigate { url: String, idle_timeout_ms: u64 },
    /// Wait for [`POST_NAV_GRACE_MS`], then look at the noted status.
    Settle,
    /// Read the page as it stands.
    Capture,
}

/// Why the browser did not start.
pub enum LaunchFailure {
    /// There is no directory for its profile.
    Profile(String),
    /// It cannot be configured.
    Settings(String),
    /// It took too long.
    TimedOut,
    /// It failed.
    Browser(CdpFailure),
}

/// What the caller reports.
pub enum Event {
    Looked(LookupEvent),
    Connected(ConnectEvent),
    Launched(Result<(), LaunchFailure>),
    Opened(Result<(), CdpFailure>),
    Listening(Result<(), CdpFailure>),
    Navigated(NavigationEvent),
    Settled(Option<u16>),
    Captured(Result<String, CdpFailure>),
}

/// What becomes of the browser at the end of a fetch.
#[derive(Debug, Clone, Copy, PartialEq, Eq, Structural)]
pub enum Release {
    /// There is none.
    Nothing,
    /// It is closed in the background.
    Abandon,
    /// Its page is closed, and then it is.
    Close,
}

/// What comes after an event.
pub enum Step {
    /// The fetch goes on.
    Next { fetch: Fetch, action: Action },
    /// The fetch is over.
    Over { page: Result<String, ScrapeError>, release: Release },
}

/// The error for a browser that did not start.
pub open spec fn is_launch_failure(failure: LaunchFailure, e: ScrapeError) -> bool {
    match failure {
        LaunchFailure::Profile(m) => e matches ScrapeError::Other(n) && n@
            == "browser profile temp dir: "@ + m@,
        LaunchFailure::Settings(m) => e == ScrapeError::BrowserMissing(m),
        LaunchFailure::TimedOut => e matches ScrapeError::BrowserMissing(n) && n@
            == "Chromium did not launch within 15s"@,
        LaunchFailure::Browser(err) => e == chromium::launch_error(
            err,
            text::unicode_lowercase_text(err.message@),
        ),
    }
}

/// The error for a browser that did not start.
pub fn launch_failure(failure: LaunchFailure) -> (r: ScrapeError)
    ensures
        is_launch_failure(failure, r),
{
    match failure {
        LaunchFailure::Profile(m) => ScrapeError::Other(
            text::concat2("browser profile temp dir: ", m.as_str()),
        ),
        LaunchFailure::Settings(m) => ScrapeError::BrowserMissing(m),
        LaunchFailure::TimedOut => chromium::launch_timed_out(),
        LaunchFailure::Browser(err) => chromium::map_launch_error(err),
    }
}

/// The error of a step, where the step is the end of a failed fetch that leaves
/// the browser so.
pub open spec fn failed(step: Step, release: Release) -> Option<ScrapeError> {
    match step {
        Step::Over { page: Err(e), release: r } => if r == release {
            Some(e)
        } else {
            None
        },
        _ => None,
    }
}

/// The error of a browser command.
pub open spec fn is_browser_error(err: CdpFailure, e: ScrapeError) -> bool {
    chromium::is_navigation_error(err, text::unicode_uppercase_text(err.message@), e)
}

impl Fetch {
    /// The event is one that the fetch waits for.
    pub open spec fn awaits(self, event: Event) -> bool {
        match self.progress {
            Progress::LookingUp { host } => event is Looked,
            Progress::Connecting { address } => event is Connected,
            Progress::Launching => event is Launched,
            Progress::Opening => event is Opened,
            Progress::Listening => event is Listening,
            Progress::Navigating => event is Navigated,
            Progress::Settling => event is Settled,
            Progress::Capturing => event is Captured,
        }
    }

    /// The action is the one that brings the event that the fetch waits for,
    /// once the host is known.
    pub open spec fn wants(self, action: Action) -> bool {
        match self.progress {
            Progress::LookingUp { host } => action is Lookup,
            Progress::Connecting { address } => action matches Action::Connect { address: a } && a@
                == address@,
            Progress::Launching => action is Launch,
            Progress::Opening => action is OpenPage,
            Progress::Listening => action is Listen,
            Progress::Navigating => action matches Action::Navigate { url, idle_timeout_ms } && url@
                == self.url@ && idle_timeout_ms == self.idle_timeout_ms,
            Progress::Settling => action is Settle,
            Progress::Capturing => action is Capture,
        }
    }

    /// The fetch goes on for the same page, with the action for its progress.
    pub open spec fn goes_on(self, step: Step) -> bool {
        step matches Step::Next { fetch, action } && fetch.url == self.url && fetch.idle_timeout_ms
            == self.idle_timeout_ms && fetch.wants(action)
    }

    /// There is a browser.
    pub open spec fn has_browser(self) -> bool {
        match self.progress {
            Progress::LookingUp { host } => false,
            Progress::Connecting { address } => false,
            Progress::Launching => false,
            _ => true,
        }
    }

    /// What comes after an event that the fetch waits for.
    pub open spec fn leads_to(self, event: Event, step: Step) -> bool {
        match (self.progress, event) {
            (Progress::LookingUp { host }, Event::Looked(e)) => match e {
                LookupEvent::Found(addresses) => if addresses@.len() == 0 {
                    failed(step, Release::Nothing) matches Some(ScrapeError::Offline(m)) && m@
                        == "DNS lookup for "@ + host@ + " returned no addresses"@
                } else {
                    self.goes_on(step) && (progress_of(step) matches Progress::Connecting {
                        address,
                    } && address@ == addresses@[0]@)
                },
                LookupEvent::TimedOut => failed(step, Release::Nothing) matches Some(
                    ScrapeError::Offline(m),
                ) && m@ == "DNS lookup for "@ + host@ + " timed out after 2s"@,
                LookupEvent::Failed(cause) => failed(step, Release::Nothing) matches Some(
                    ScrapeError::Offline(m),
                ) && m@ == "DNS lookup for "@ + host@ + " failed: "@ + cause@,
            },
            (Progress::Connecting { address }, Event::Connected(e)) => match e {
                ConnectEvent::Connected => self.goes_on(step) && progress_of(step) is Launching,
                ConnectEvent::TimedOut => failed(step, Release::Nothing) matches Some(
                    ScrapeError::Offline(m),
                ) && m@ == "TCP connect to "@ + address@ + " timed out after 2s"@,
                ConnectEvent::Failed(cause) => failed(step, Release::Nothing) matches Some(
                    ScrapeError::Offline(m),
                ) && m@ == "TCP connect to "@ + address@ + " failed: "@ + cause@,
            },
            (Progress::Launching, Event::Launched(Err(failure))) => failed(step, Release::Nothing)
                matches Some(e) && is_launch_failure(failure, e),
            (Progress::Launching, Event::Launched(Ok(_))) => self.goes_on(step) && progress_of(
                step,
            ) is Opening,
            (Progress::Opening, Event::Opened(Err(err))) => failed(step, Release::Abandon)
                matches Some(e) && is_browser_error(err, e),
            (Progress::Opening, Event::Opened(Ok(_))) => self.goes_on(step) && progress_of(step)
                is Listening,
            (Progress::Listening, Event::Listening(Err(err))) => failed(step, Release::Abandon)
                matches Some(e) && is_browser_error(err, e),
            (Progress::Listening, Event::Listening(Ok(_))) => self.goes_on(step) && progress_of(
                step,
            ) is Navigating,
            (Progress::Navigating, Event::Navigated(e)) => match e {
                NavigationEvent::TimedOut(budget) => failed(step, Release::Close) matches Some(
                    ScrapeError::Timeout(m),
                ) && m@ == "page did not finish navigating within "@ + budget@,
                NavigationEvent::Failed(err) => failed(step, Release::Close) matches Some(e)
                    && is_browser_error(err, e),
                NavigationEvent::Complete => self.goes_on(step) && progress_of(step) is Settling,
            },
            (Progress::Settling, Event::Settled(status)) => match status {
                Some(s) => match chromium::status_error(s) {
                    Some(e) => failed(step, Release::Close) == Some(e),
                    None => self.goes_on(step) && progress_of(step) is Capturing,
                },
                None => self.goes_on(step) && progress_of(step) is Capturing,
            },
            (Progress::Capturing, Event::Captured(Err(err))) => failed(step, Release::Close)
                matches Some(e) && is_browser_error(err, e),
            (Progress::Capturing, Event::Captured(Ok(html))) => step == (Step::Over {
                page: Ok(html),
                release: Release::Close,
            }),
            _ => true,
        }
    }

    /// Begins a fetch: a local file goes straight to the browser, any other page
    /// is probed first, and a URL that cannot be probed ends the fetch.
    pub fn start(url: &str, idle_timeout_ms: u64) -> (r: Step)
        ensures
            is_start(url@, idle_timeout_ms, probe::url_parsed(url@), r),
    {
        let plan = probe::plan_probe(url);
        begin(url, idle_timeout_ms, plan)
    }

    fn go_on(self, progress: Progress, action: Action) -> (r: Step)
        ensures
            r == (Step::Next { fetch: Fetch { progress, ..self }, action }),
    {
        Step::Next {
            fetch: Fetch { url: self.url, idle_timeout_ms: self.idle_timeout_ms, progress },
            action,
        }
    }

    /// Takes the fetch to what comes after an event.
    pub fn step(self, event: Event) -> (r: Step)
        requires
            self.awaits(event),
        ensures
            self.leads_to(event, r),
    {
        match (&self.progress, event) {
            (Progress::LookingUp { host }, Event::Looked(e)) => match probe::on_lookup(
                host.as_str(),
                e,
            ) {
                Err(e) => over(e, Release::Nothing),
                Ok(address) => {
                    let copy = address.clone();
                    self.go_on(Progress::Connecting { address }, Action::Connect { address: copy })
                },
            },
            (Progress::Connecting { address }, Event::Connected(e)) => match probe::on_connect(
                address.as_str(),
                e,
            ) {
                Err(e) => over(e, Release::Nothing),
                Ok(_) => self.go_on(Progress::Launching, Action::Launch),
            },
            (Progress::Launching, Event::Launched(launched)) => match launched {
                Err(failure) => over(launch_failure(failure), Release::Nothing),
                Ok(_) => self.go_on(Progress::Opening, Action::OpenPage),
            },
            (Progress::Opening, Event::Opened(opened)) => match opened {
                Err(err) => over(chromium::map_navigation_error(err), Release::Abandon),
                Ok(_) => self.go_on(Progress::Listening, Action::Listen),
            },
            (Progress::Listening, Event::Listening(listening)) => match listening {
                Err(err) => over(chromium::map_navigation_error(err), Release::Abandon),
                Ok(_) => {
                    let url = self.url.clone();
                    let idle_timeout_ms = self.idle_timeout_ms;
                    self.go_on(Progress::Navigating, Action::Navigate { url, idle_timeout_ms })
                },
            },
            (Progress::Navigating, Event::Navigated(e)) => match chromium::on_navigation(e) {
                Err(e) => over(e, Release::Close),
                Ok(_) => self.go_on(Progress::Settling, Action::Settle),
            },
            (Progress::Settling, Event::Settled(status)) => match chromium::on_status(status) {
                Err(e) => over(e, Release::Close),
                Ok(_) => self.go_on(Progress::Capturing, Action::Capture),
            },
            (Progress::Capturing, Event::Captured(captured)) => match captured {
                Err(err) => over(chromium::map_navigation_error(err), Release::Close),
                Ok(html) => Step::Over { page: Ok(html), release: Release::Close },
            },
            _ => vstd::pervasive::unreached(),
        }
    }

    /// Whether the event is one that the fetch waits for.
    pub fn accepts(&self, event: &Event) -> (r: bool)
        ensures
            r == self.awaits(*event),
    {
        match (&self.progress, event) {
            (Progress::LookingUp { host: _ }, Event::Looked(_)) => true,
            (Progress::Connecting { address: _ }, Event::Connected(_)) => true,
            (Progress::Launching, Event::Launched(_)) => true,
            (Progress::Opening, Event::Opened(_)) => true,
            (Progress::Listening, Event::Listening(_)) => true,
            (Progress::Navigating, Event::Navigated(_)) => true,
            (Progress::Settling, Event::Settled(_)) => true,
            (Progress::Capturing, Event::Captured(_)) => true,
            _ => false,
        }
    }
}

/// The progress of a fetch that goes on.
pub open spec fn progress_of(step: Step) -> Progress {
    step->Next_fetch.progress
}

/// The start of a fetch, given what its URL parses to.
pub open spec fn is_start(
    url: Seq<char>,
    idle_timeout_ms: u64,
    parsed: Result<probe::UrlModel, Seq<char>>,
    step: Step,
) -> bool {
    match parsed {
        Err(e) => failed(step, Release::Nothing) matches Some(ScrapeError::Other(m)) && m@
            == "invalid URL `"@ + url + "`: "@ + e,
        Ok(u) => if u.scheme == "file"@ {
            begins(url, idle_timeout_ms, step) && progress_of(step) is Launching
        } else {
            match (u.host, u.port) {
                (None, _) => failed(step, Release::Nothing) matches Some(ScrapeError::Other(m))
                    && m@ == "URL `"@ + url + "` has no host"@,
                (Some(_), None) => failed(step, Release::Nothing) matches Some(
                    ScrapeError::Other(m),
                ) && m@ == "URL `"@ + url + "` has no default port"@,
                (Some(h), Some(p)) => {
                    &&& begins(url, idle_timeout_ms, step)
                    &&& progress_of(step) matches Progress::LookingUp { host } && host@ == h
                    &&& step->Next_action matches Action::Lookup { target } && target@ == h + ":"@
                        + text::numeral(p as nat)
                },
            }
        },
    }
}

/// The step begins a fetch of the page.
pub open spec fn begins(url: Seq<char>, idle_timeout_ms: u64, step: Step) -> bool {
    step matches Step::Next { fetch, action } && fetch.url@ == url && fetch.idle_timeout_ms
        == idle_timeout_ms && fetch.wants(action)
}

fn over(e: ScrapeError, release: Release) -> (r: Step)
    ensures
        failed(r, release) == Some(e),
{
    Step::Over { page: Err(e), release }
}

/// Begins a fetch, given the plan for its URL.
pub fn begin(url: &str, idle_timeout_ms: u64, plan: Result<ProbePlan, ScrapeError>) -> (r: Step)
    ensures
        match plan {
            Err(e) => failed(r, Release::Nothing) == Some(e),
            Ok(ProbePlan::Skip) => begins(url@, idle_timeout_ms, r) && progress_of(r) is Launching,
            Ok(ProbePlan::Lookup { host, target }) => {
                &&& begins(url@, idle_timeout_ms, r)
                &&& progress_of(r) == (Progress::LookingUp { host })
                &&& r->Next_action == (Action::Lookup { target })
            },
        },
{
    match plan {
        Err(e) => over(e, Release::Nothing),
        Ok(ProbePlan::Skip) => Step::Next {
            fetch: Fetch { url: url.to_string(), idle_timeout_ms, progress: Progress::Launching },
            action: Action::Launch,
        },
        Ok(ProbePlan::Lookup { host, target }) => Step::Next {
            fetch: Fetch {
                url: url.to_string(),
                idle_timeout_ms,
                progress: Progress::LookingUp { host },
            },
            action: Action::Lookup { target },
        },
    }
}

// ---------------------------------------------------------------------------
// Laws
// ---------------------------------------------------------------------------

/// However a fetch ends, its browser is released where there is one, and no
/// browser is spoken of where there is none.
pub proof fn browser_is_always_released(f: Fetch, event: Event, step: Step)
    requires
        f.awaits(event),
        f.leads_to(event, step),
    ensures
        step matches Step::Over { page, release } ==> (release == Release::Nothing
            <==> !f.has_browser()),
        step matches Step::Over { page: Ok(html), release } ==> f.progress is Capturing && release
            == Release::Close,
{
}

/// A browser is started only after the host has answered: before that, a fetch
/// comes to the browser through a connection alone, and every other end of the
/// probe is an offline host.
pub proof fn browser_waits_for_the_host(f: Fetch, event: Event, step: Step)
    requires
        f.progress is LookingUp || f.progress is Connecting,
        f.awaits(event),
        f.leads_to(event, step),
    ensures
        step matches Step::Next { fetch, action } ==> (action is Launch <==> event
            == Event::Connected(ConnectEvent::Connected)),
        step matches Step::Over { page, release } ==> (page matches Err(e) && e is Offline),
{
}

/// Where a fetch stands in the order of its steps.
pub open spec fn place(progress: Progress) -> nat {
    match progress {
        Progress::LookingUp { host } => 0,
        Progress::Connecting { address } => 1,
        Progress::Launching => 2,
        Progress::Opening => 3,
        Progress::Listening => 4,
        Progress::Navigating => 5,
        Progress::Settling => 6,
        Progress::Capturing => 7,
    }
}

/// A fetch takes its steps in order and skips none.
pub proof fn steps_come_in_order(f: Fetch, event: Event, step: Step)
    requires
        f.awaits(event),
        f.leads_to(event, step),
    ensures
        step matches Step::Next { fetch, action } ==> place(fetch.progress) == place(f.progress)
            + 1,
        place(f.progress) <= 7,
{
}

} // verus!
