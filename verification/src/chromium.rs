//! What the browser's answers mean: the status of the page, the failures of
//! starting the browser, and the failures of navigating.

use vstd::prelude::*;
use crate::probe;
use crate::scrape_port::ScrapeError;
use crate::text;

verus! {

/// The kinds of browser failures that are told apart.
#[derive(Debug, Clone, Copy, PartialEq, Eq, Structural)]
pub enum CdpKind {
    /// The browser exited while it was starting.
    LaunchExit,
    /// The browser could not be started.
    LaunchIo,
    /// The browser took too long to start.
    LaunchTimeout,
    /// A command took too long.
    Timeout,
    /// Anything else.
    Other,
}

/// A browser failure: its kind and its message.
#[derive(Debug, Clone)]
pub struct CdpFailure {
    pub kind: CdpKind,
    pub message: String,
}

/// The error for the status of the page, where it is one. A status of zero says
/// that there was no response to speak of.
pub open spec fn status_error(status: u16) -> Option<ScrapeError> {
    if status == 0 || 200 <= status <= 399 {
        None
    } else if status == 401 || status == 403 {
        Some(ScrapeError::AuthRequired { status })
    } else if status == 404 {
        Some(ScrapeError::NotFound { status })
    } else if status == 451 {
        Some(ScrapeError::GeoBlocked { status })
    } else {
        Some(ScrapeError::Http { status })
    }
}

/// The error for the status of the page, where it is one.
pub fn classify_status(status: u16) -> (r: Option<ScrapeError>)
    ensures
        r == status_error(status),
{
    if status == 0 || (200 <= status && status <= 399) {
        None
    } else if status == 401 || status == 403 {
        Some(ScrapeError::AuthRequired { status })
    } else if status == 404 {
        Some(ScrapeError::NotFound { status })
    } else if status == 451 {
        Some(ScrapeError::GeoBlocked { status })
    } else {
        Some(ScrapeError::Http { status })
    }
}

/// The status of the page after one more response: the first document of the
/// main frame decides.
pub fn note_response(seen: Option<u16>, is_document: bool, is_main_frame: bool, status: u16) -> (r:
    Option<u16>)
    ensures
        r == (if seen is None && is_document && is_main_frame {
            Some(status)
        } else {
            seen
        }),
{
    if !is_document || !is_main_frame {
        return seen;
    }
    match seen {
        Some(s) => Some(s),
        None => Some(status),
    }
}

/// A message, in small letters, that says that there is no browser.
pub open spec fn says_browser_missing(lower: Seq<char>) -> bool {
    ||| text::occurs(lower, "could not auto detect"@)
    ||| text::occurs(lower, "chrome executable"@)
    ||| text::occurs(lower, "no such file"@)
    ||| text::occurs(lower, "cannot find"@)
    ||| text::occurs(lower, "not found"@)
    ||| text::occurs(lower, "chromiumlauncher"@)
    ||| text::occurs(lower, "executable"@)
}

/// The error for a browser that did not start, given its message in small
/// letters.
pub open spec fn launch_error(err: CdpFailure, lower: Seq<char>) -> ScrapeError {
    if says_browser_missing(lower) || err.kind == CdpKind::LaunchExit || err.kind
        == CdpKind::LaunchIo || err.kind == CdpKind::LaunchTimeout {
        ScrapeError::BrowserMissing(err.message)
    } else {
        ScrapeError::Other(err.message)
    }
}

/// Classes a browser that did not start, given its message in small letters.
pub fn classify_launch(err: CdpFailure, lower: &str) -> (r: ScrapeError)
    ensures
        r == launch_error(err, lower@),
{
    if text::contains(lower, "could not auto detect") || text::contains(lower, "chrome executable")
        || text::contains(lower, "no such file") || text::contains(lower, "cannot find")
        || text::contains(lower, "not found") || text::contains(lower, "chromiumlauncher")
        || text::contains(lower, "executable") {
        return ScrapeError::BrowserMissing(err.message);
    }
    match err.kind {
        CdpKind::LaunchExit => ScrapeError::BrowserMissing(err.message),
        CdpKind::LaunchIo => ScrapeError::BrowserMissing(err.message),
        CdpKind::LaunchTimeout => ScrapeError::BrowserMissing(err.message),
        CdpKind::Timeout => ScrapeError::Other(err.message),
        CdpKind::Other => ScrapeError::Other(err.message),
    }
}

/// Classes a browser that did not start.
pub fn map_launch_error(err: CdpFailure) -> (r: ScrapeError)
    ensures
        r == launch_error(err, text::unicode_lowercase_text(err.message@)),
        text::ascii_text(err.message@) ==> r == launch_error(
            err,
            text::ascii_lowercase(err.message@),
        ),
{
    let lower = text::lowercase_text(err.message.as_str());
    classify_launch(err, lower.as_str())
}

/// The error for a browser that did not start in time.
pub fn launch_timed_out() -> (r: ScrapeError)
    ensures
        r matches ScrapeError::BrowserMissing(m) && m@ == "Chromium did not launch within 15s"@,
{
    ScrapeError::BrowserMissing("Chromium did not launch within 15s".to_string())
}

/// The error for a failed navigation, given its message in capitals: what the
/// message says comes first, a timeout of the browser second.
pub open spec fn is_navigation_error(err: CdpFailure, upper: Seq<char>, r: ScrapeError) -> bool {
    if probe::says_offline(upper) {
        r matches ScrapeError::Offline(m) && m@ == err.message@
    } else if probe::says_transport(upper) {
        r matches ScrapeError::NetworkTimeout(m) && m@ == err.message@
    } else if err.kind == CdpKind::Timeout {
        r matches ScrapeError::Timeout(m) && m@ == err.message@
    } else {
        r matches ScrapeError::Other(m) && m@ == err.message@
    }
}

/// Classes a failed navigation, given what its message says.
pub fn classify_navigation(err: CdpFailure, named: Option<ScrapeError>) -> (r: ScrapeError)
    ensures
        match named {
            Some(e) => r == e,
            None => if err.kind == CdpKind::Timeout {
                r == ScrapeError::Timeout(err.message)
            } else {
                r == ScrapeError::Other(err.message)
            },
        },
{
    if let Some(e) = named {
        return e;
    }
    match err.kind {
        CdpKind::Timeout => ScrapeError::Timeout(err.message),
        _ => ScrapeError::Other(err.message),
    }
}

/// Classes a failed navigation.
pub fn map_navigation_error(err: CdpFailure) -> (r: ScrapeError)
    ensures
        is_navigation_error(err, text::unicode_uppercase_text(err.message@), r),
        text::ascii_text(err.message@) ==> is_navigation_error(
            err,
            text::ascii_uppercase(err.message@),
            r,
        ),
{
    let named = probe::classify_reachability_error(err.message.as_str());
    classify_navigation(err, named)
}

/// What a navigation came to.
pub enum NavigationEvent {
    /// It took longer than the time in words.
    TimedOut(String),
    Failed(CdpFailure),
    Complete,
}

/// Whether the page can be read after a navigation.
pub fn on_navigation(event: NavigationEvent) -> (r: Result<(), ScrapeError>)
    ensures
        match event {
            NavigationEvent::TimedOut(budget) => r matches Err(ScrapeError::Timeout(m)) && m@
                == "page did not finish navigating within "@ + budget@,
            NavigationEvent::Failed(err) => r matches Err(e) && is_navigation_error(
                err,
                text::unicode_uppercase_text(err.message@),
                e,
            ),
            NavigationEvent::Complete => r is Ok,
        },
{
    match event {
        NavigationEvent::TimedOut(budget) => Err(
            ScrapeError::Timeout(
                text::concat2("page did not finish navigating within ", budget.as_str()),
            ),
        ),
        NavigationEvent::Failed(err) => Err(map_navigation_error(err)),
        NavigationEvent::Complete => Ok(()),
    }
}

/// Whether the page may be read, given the status of its main frame. A page
/// without a status is read as it is.
pub fn on_status(status: Option<u16>) -> (r: Result<(), ScrapeError>)
    ensures
        match status {
            None => r is Ok,
            Some(s) => match status_error(s) {
                Some(e) => r == Err::<(), ScrapeError>(e),
                None => r is Ok,
            },
        },
{
    match status {
        None => Ok(()),
        Some(s) => match classify_status(s) {
            Some(e) => Err(e),
            None => Ok(()),
        },
    }
}

} // verus!
