//! Pages that come in and documents that go out: the page of the link is handed back, a
//! PDF is checked, and what stands in the way is told apart.

use vstd::prelude::*;
use crate::chromium;
use crate::chromium::{CdpFailure, CdpKind};
use crate::fetch;
use crate::fetch::{Action, Event, Fetch, Step};
use crate::pdf;
use crate::pdf::{PdfAction, PdfEvent};
use crate::probe;
use crate::scrape_port::ScrapeError;
use crate::text;

verus! {

/// The page that is asked for is the one of the link, and its text is handed back as it
/// was captured. The browser is closed.
pub proof fn page_of_the_link_is_handed_back(
    f: Fetch,
    html: String,
    next: Action,
    navigating: Fetch,
    step: Step,
)
    requires
        navigating.progress is Navigating,
        navigating.wants(next),
        f.progress is Capturing,
        f.leads_to(Event::Captured(Ok::<String, CdpFailure>(html)), step),
    ensures
        next matches Action::Navigate { url, idle_timeout_ms } && url@ == navigating.url@
            && idle_timeout_ms == navigating.idle_timeout_ms,
        step matches Step::Over { page: Ok(p), release } && p == html && release
            is Close,
{
}

/// From one step to the next, the link and the patience stay the same.
pub proof fn fetch_keeps_its_link(f: Fetch, event: Event, next: Fetch, action: Action)
    requires
        f.awaits(event),
        f.leads_to(event, Step::Next { fetch: next, action }),
    ensures
        next.url == f.url,
        next.idle_timeout_ms == f.idle_timeout_ms,
{
}

/// The status of a page is no error where it is a success or a redirection, or unknown.
/// Everything else is an error that tells the status.
pub proof fn page_statuses_are_told_apart(status: u16)
    ensures
        chromium::status_error(status) is None <==> (status == 0 || 200 <= status < 400),
        chromium::status_error(status) matches Some(e) ==> {
            ||| e == (ScrapeError::AuthRequired { status }) && (status == 401 || status == 403)
            ||| e == (ScrapeError::NotFound { status }) && status == 404
            ||| e == (ScrapeError::GeoBlocked { status }) && status == 451
            ||| e == (ScrapeError::Http { status }) && status != 401 && status != 403 && status
                != 404 && status != 451
        },
{
}

/// The message of an error, where it has one.
pub open spec fn message_of(e: ScrapeError) -> Option<Seq<char>> {
    match e {
        ScrapeError::Offline(m) => Some(m@),
        ScrapeError::NetworkTimeout(m) => Some(m@),
        ScrapeError::Timeout(m) => Some(m@),
        ScrapeError::BrowserMissing(m) => Some(m@),
        ScrapeError::Other(m) => Some(m@),
        _ => None,
    }
}

/// A failed navigation keeps the message of the browser. A name that does not resolve and
/// a machine without a network are told as offline, before anything else.
pub proof fn failed_navigation_keeps_its_message(err: CdpFailure, upper: Seq<char>, r: ScrapeError)
    requires
        chromium::is_navigation_error(err, upper, r),
    ensures
        message_of(r) == Some(err.message@),
        r is Offline <==> (text::occurs(upper, "ERR_NAME_NOT_RESOLVED"@) || text::occurs(
            upper,
            "ERR_INTERNET_DISCONNECTED"@,
        ) || text::occurs(upper, "ERR_ADDRESS_UNREACHABLE"@)),
        !(r is Offline) ==> (r is NetworkTimeout <==> (text::occurs(upper, "ERR_CONNECTION_REFUSED"@)
            || text::occurs(upper, "ERR_CONNECTION_RESET"@) || text::occurs(upper, "ERR_CONNECTION_CLOSED"@)
            || text::occurs(upper, "ERR_SSL_"@) || text::occurs(upper, "ERR_CERT_"@) || text::occurs(
            upper,
            "ERR_TIMED_OUT"@,
        ))),
        r is Timeout ==> err.kind == CdpKind::Timeout,
{
}

/// A browser that does not start keeps its message too.
pub proof fn failed_launch_keeps_its_message(err: CdpFailure, lower: Seq<char>)
    ensures
        message_of(chromium::launch_error(err, lower)) == Some(err.message@),
        err.kind == CdpKind::LaunchExit || err.kind == CdpKind::LaunchIo || err.kind
            == CdpKind::LaunchTimeout ==> chromium::launch_error(err, lower) is BrowserMissing,
        text::occurs(lower, "executable"@) ==> chromium::launch_error(err, lower) is BrowserMissing,
{
}

/// A link is probed at its host and its port; a local file is not probed at all.
pub proof fn link_is_probed_at_its_host(
    url: Seq<char>,
    u: probe::UrlModel,
    r: Result<probe::ProbePlan, ScrapeError>,
)
    requires
        probe::is_plan(url, Ok(u), r),
    ensures
        u.scheme == "file"@ ==> (r matches Ok(probe::ProbePlan::Skip)),
        u.scheme != "file"@ && u.host is Some && u.port is Some ==> (r matches Ok(
            probe::ProbePlan::Lookup { host, target },
        ) && host@ == u.host->Some_0 && target@ == u.host->Some_0 + ":"@ + text::numeral(
            u.port->Some_0 as nat,
        )),
        u.scheme != "file"@ && (u.host is None || u.port is None) ==> (r matches Err(
            ScrapeError::Other(m),
        ) && text::occurs(m@, url)),
{
    if u.scheme != "file"@ && (u.host is None || u.port is None) {
        let head = "URL `"@;
        assert(url.subrange(0, url.len() as int) =~= url);
        assert(text::stands_at(url, url, 0));
        text::lemma_occurs_behind(head, url, url);
        text::lemma_occurs_in_front(head + url, "` has no host"@, url);
        text::lemma_occurs_in_front(head + url, "` has no default port"@, url);
    }
}

/// The text of a failure to render.
pub open spec fn refusal(action: PdfAction) -> Option<Seq<char>> {
    match action {
        PdfAction::Fail { error, remove_temporary } => Some(error.text()),
        _ => None,
    }
}

/// A PDF is there only once its first five bytes were read and are those of a PDF. A step
/// that fails is reported in its own words; the temporary file is removed where it was not
/// renamed yet, and left alone afterwards.
pub proof fn pdf_is_there_once_it_is_one(event: PdfEvent, action: PdfAction)
    requires
        pdf::leads_to(event, action),
    ensures
        action is Finish <==> (event matches PdfEvent::Read(Ok(head)) && head@ == seq![
            0x25u8,
            0x50u8,
            0x44u8,
            0x46u8,
            0x2du8,
        ]),
        event matches PdfEvent::Rendered(Err(m)) ==> refusal(action) == Some("render: "@ + m@),
        event matches PdfEvent::Renamed(Err(m)) ==> refusal(action) == Some("render: "@ + m@),
        event matches PdfEvent::Read(Err(m)) ==> refusal(action) == Some("render: "@ + m@),
        action matches PdfAction::Fail { error, remove_temporary } ==> (remove_temporary <==> event
            is Rendered || event is Renamed),
        action is Rename <==> (event matches PdfEvent::Rendered(Ok(_))),
        action is Look <==> (event matches PdfEvent::Renamed(Ok(_))),
        action is Read <==> event == PdfEvent::Looked(true),
{
    assert(pdf::magic() =~= seq![0x25u8, 0x50u8, 0x44u8, 0x46u8, 0x2du8]);
}

/// The first address of the host is the one that is tried. A host that cannot be looked up
/// is told as offline, with its name and the cause.
pub proof fn first_address_is_tried(f: Fetch, event: probe::LookupEvent, step: Step)
    requires
        f.progress is LookingUp,
        f.leads_to(Event::Looked(event), step),
    ensures
        event matches probe::LookupEvent::Found(addresses) && addresses@.len() > 0 ==> (step
            matches Step::Next { fetch: next, action: Action::Connect { address } } && address@
            == event->Found_0@[0]@),
        event matches probe::LookupEvent::Failed(cause) ==> (step matches Step::Over {
            page: Err(ScrapeError::Offline(m)),
            release,
        } && m@ == "DNS lookup for "@ + f.progress->LookingUp_host@ + " failed: "@
            + event->Failed_0@),
        !(step is Next) ==> (step matches Step::Over { page: Err(ScrapeError::Offline(m)), release }
            && text::occurs(m@, f.progress->LookingUp_host@)),
{
    let host = f.progress->LookingUp_host@;
    let head = "DNS lookup for "@;
    assert(host.subrange(0, host.len() as int) =~= host);
    assert(text::stands_at(host, host, 0));
    text::lemma_occurs_behind(head, host, host);
    text::lemma_occurs_in_front(head + host, " returned no addresses"@, host);
    text::lemma_occurs_in_front(head + host, " timed out after 2s"@, host);
    text::lemma_occurs_in_front(head + host, " failed: "@, host);
    if event is Failed {
        text::lemma_occurs_in_front(head + host + " failed: "@, event->Failed_0@, host);
    }
}

/// A page whose status is an error is not captured; any other is.
pub proof fn page_with_an_error_is_not_captured(f: Fetch, status: Option<u16>, step: Step)
    requires
        f.progress is Settling,
        f.leads_to(Event::Settled(status), step),
    ensures
        step matches Step::Next { fetch: next, action } ==> action is Capture,
        step is Over <==> status is Some && status->Some_0 != 0 && !(200 <= status->Some_0 < 400),
{
}

} // verus!
