use ats::chromium::{
    classify_launch, classify_navigation, classify_status, launch_timed_out, map_launch_error,
    map_navigation_error, note_response, on_navigation, on_status, CdpFailure, CdpKind,
    NavigationEvent,
};
use ats::fetch::{launch_failure, Action, Event, Fetch, LaunchFailure, Release, Step};
use ats::pdf::{is_magic, next_action, no_file_name, temporary_name, PdfAction, PdfEvent};
use ats::probe::{
    classify_message, classify_reachability_error, on_connect, on_lookup, plan_for, plan_probe,
    ConnectEvent, LookupEvent, ParsedUrl, ProbePlan,
};
use ats::scrape_port::ScrapeError;

fn failure(kind: CdpKind, message: &str) -> CdpFailure {
    CdpFailure { kind, message: message.into() }
}

#[test]
fn classify_status_maps_locked_buckets() {
    assert!(classify_status(200).is_none());
    assert!(classify_status(301).is_none());
    assert!(matches!(classify_status(401), Some(ScrapeError::AuthRequired { status: 401 })));
    assert!(matches!(classify_status(403), Some(ScrapeError::AuthRequired { status: 403 })));
    assert!(matches!(classify_status(404), Some(ScrapeError::NotFound { status: 404 })));
    assert!(matches!(classify_status(451), Some(ScrapeError::GeoBlocked { status: 451 })));
    assert!(matches!(classify_status(418), Some(ScrapeError::Http { status: 418 })));
    assert!(matches!(classify_status(500), Some(ScrapeError::Http { status: 500 })));
}

#[test]
fn status_edges() {
    assert!(classify_status(0).is_none());
    assert!(classify_status(399).is_none());
    assert!(matches!(classify_status(199), Some(ScrapeError::Http { status: 199 })));
    assert!(matches!(classify_status(400), Some(ScrapeError::Http { status: 400 })));
    assert!(on_status(None).is_ok());
    assert!(on_status(Some(204)).is_ok());
    assert!(matches!(on_status(Some(404)), Err(ScrapeError::NotFound { status: 404 })));
}

#[test]
fn first_document_of_the_main_frame_decides() {
    assert_eq!(note_response(None, false, true, 500), None);
    assert_eq!(note_response(None, true, false, 500), None);
    assert_eq!(note_response(None, true, true, 404), Some(404));
    assert_eq!(note_response(Some(404), true, true, 200), Some(404));
}

#[test]
fn map_launch_error_recognises_missing_chrome_text() {
    let err = failure(CdpKind::Other, "Could not auto detect a Chrome executable");
    match map_launch_error(err) {
        ScrapeError::BrowserMissing(msg) => assert!(msg.to_lowercase().contains("auto detect")),
        other => panic!("expected BrowserMissing, got {other:?}"),
    }
}

#[test]
fn launch_failures_by_kind() {
    for kind in [CdpKind::LaunchExit, CdpKind::LaunchIo, CdpKind::LaunchTimeout] {
        assert!(matches!(
            map_launch_error(failure(kind, "strange")),
            ScrapeError::BrowserMissing(m) if m == "strange"
        ));
    }
    for kind in [CdpKind::Timeout, CdpKind::Other] {
        assert!(matches!(
            map_launch_error(failure(kind, "strange")),
            ScrapeError::Other(m) if m == "strange"
        ));
    }
    assert!(matches!(
        classify_launch(failure(CdpKind::Other, "NO SUCH FILE"), "no such file"),
        ScrapeError::BrowserMissing(m) if m == "NO SUCH FILE"
    ));
    assert_eq!(launch_timed_out().to_string(), "browser-missing: Chromium did not launch within 15s");
    assert_eq!(
        launch_failure(LaunchFailure::Profile("full".into())).to_string(),
        "other: browser profile temp dir: full"
    );
    assert_eq!(
        launch_failure(LaunchFailure::Settings("none".into())).to_string(),
        "browser-missing: none"
    );
}

#[test]
fn map_navigation_error_prefers_chrome_net_classification() {
    let err = failure(CdpKind::Other, "net::ERR_NAME_NOT_RESOLVED");
    assert!(matches!(map_navigation_error(err), ScrapeError::Offline(_)));
    let err = failure(CdpKind::Other, "net::ERR_CONNECTION_REFUSED");
    assert!(matches!(map_navigation_error(err), ScrapeError::NetworkTimeout(_)));
    let err = failure(CdpKind::Timeout, "net::err_internet_disconnected");
    assert!(matches!(map_navigation_error(err), ScrapeError::Offline(_)));
}

#[test]
fn map_navigation_error_cdp_timeout_is_scrape_timeout() {
    assert!(matches!(
        map_navigation_error(failure(CdpKind::Timeout, "Request timed out.")),
        ScrapeError::Timeout(_)
    ));
    assert!(matches!(
        map_navigation_error(failure(CdpKind::Other, "gone")),
        ScrapeError::Other(m) if m == "gone"
    ));
    assert!(matches!(
        classify_navigation(failure(CdpKind::Timeout, "x"), Some(ScrapeError::Offline("y".into()))),
        ScrapeError::Offline(m) if m == "y"
    ));
}

#[test]
fn navigation_that_takes_too_long_names_its_budget() {
    assert_eq!(
        on_navigation(NavigationEvent::TimedOut("30.5s".into())).unwrap_err().to_string(),
        "scrape/timeout: page did not finish navigating within 30.5s"
    );
    assert!(on_navigation(NavigationEvent::Complete).is_ok());
}

#[test]
fn invalid_url_returns_other() {
    match plan_probe("not a url") {
        Err(ScrapeError::Other(m)) => {
            assert_eq!(m, "invalid URL `not a url`: relative URL without a base")
        }
        _ => panic!("expected Other"),
    }
}

#[test]
fn file_urls_bypass_probe() {
    assert!(matches!(plan_probe("file:///tmp/does/not/matter"), Ok(ProbePlan::Skip)));
}

#[test]
fn plans_name_host_and_port() {
    let target = |url: &str| match plan_probe(url) {
        Ok(ProbePlan::Lookup { host, target }) => (host, target),
        _ => panic!("expected a lookup for {url}"),
    };
    assert_eq!(target("https://Example.com/a"), ("example.com".into(), "example.com:443".into()));
    assert_eq!(target("http://[::1]:8080/"), ("[::1]".into(), "[::1]:8080".into()));
    assert_eq!(target("ftp://h"), ("h".into(), "h:21".into()));
    match plan_probe("data:text/plain,x") {
        Err(ScrapeError::Other(m)) => assert_eq!(m, "URL `data:text/plain,x` has no host"),
        _ => panic!("expected Other"),
    }
    match plan_probe("gopher://h/x") {
        Err(ScrapeError::Other(m)) => assert_eq!(m, "URL `gopher://h/x` has no default port"),
        _ => panic!("expected Other"),
    }
    let parsed = ParsedUrl { scheme: "x".into(), host: Some("h".into()), port: Some(9) };
    assert!(matches!(
        plan_for("x://h", Ok(parsed)),
        Ok(ProbePlan::Lookup { target, .. }) if target == "h:9"
    ));
}

#[test]
fn unresolvable_host_returns_offline() {
    let host = "definitely-not-a-real-host-zzz12345.invalid";
    match on_lookup(host, LookupEvent::Failed("unknown".into())) {
        Err(ScrapeError::Offline(m)) => {
            assert_eq!(m, format!("DNS lookup for {host} failed: unknown"))
        }
        other => panic!("expected Offline, got {other:?}"),
    }
    assert_eq!(
        on_lookup("h", LookupEvent::TimedOut).unwrap_err().to_string(),
        "offline: DNS lookup for h timed out after 2s"
    );
    assert_eq!(
        on_lookup("h", LookupEvent::Found(vec![])).unwrap_err().to_string(),
        "offline: DNS lookup for h returned no addresses"
    );
    let found = LookupEvent::Found(vec!["1.2.3.4:80".into(), "[::1]:80".into()]);
    assert_eq!(on_lookup("h", found).unwrap(), "1.2.3.4:80");
}

#[test]
fn refused_connection_returns_offline() {
    match on_connect("127.0.0.1:1", ConnectEvent::Failed("refused".into())) {
        Err(ScrapeError::Offline(m)) => {
            assert_eq!(m, "TCP connect to 127.0.0.1:1 failed: refused")
        }
        other => panic!("expected Offline, got {other:?}"),
    }
    assert_eq!(
        on_connect("a", ConnectEvent::TimedOut).unwrap_err().to_string(),
        "offline: TCP connect to a timed out after 2s"
    );
}

#[test]
fn reachable_loopback_returns_ok() {
    assert!(on_connect("127.0.0.1:80", ConnectEvent::Connected).is_ok());
}

#[test]
fn classify_offline_strings() {
    assert!(matches!(
        classify_reachability_error("Chrome error: net::ERR_NAME_NOT_RESOLVED"),
        Some(ScrapeError::Offline(_))
    ));
    assert!(matches!(
        classify_reachability_error("net::ERR_INTERNET_DISCONNECTED"),
        Some(ScrapeError::Offline(_))
    ));
}

#[test]
fn classify_transport_strings() {
    assert!(matches!(
        classify_reachability_error("net::ERR_CONNECTION_REFUSED"),
        Some(ScrapeError::NetworkTimeout(_))
    ));
    assert!(matches!(
        classify_reachability_error("net::ERR_TIMED_OUT"),
        Some(ScrapeError::NetworkTimeout(_))
    ));
}

#[test]
fn classify_unknown_returns_none() {
    assert!(classify_reachability_error("Some unrelated error").is_none());
}

#[test]
fn every_reachability_code_is_known() {
    for code in ["ERR_NAME_NOT_RESOLVED", "ERR_INTERNET_DISCONNECTED", "ERR_ADDRESS_UNREACHABLE"] {
        assert!(matches!(classify_message(code, code), Some(ScrapeError::Offline(_))), "{code}");
    }
    for code in [
        "ERR_CONNECTION_REFUSED",
        "ERR_CONNECTION_RESET",
        "ERR_CONNECTION_CLOSED",
        "ERR_SSL_PROTOCOL_ERROR",
        "ERR_CERT_DATE_INVALID",
        "ERR_TIMED_OUT",
    ] {
        assert!(
            matches!(classify_message(code, code), Some(ScrapeError::NetworkTimeout(_))),
            "{code}"
        );
    }
    assert!(classify_message("ERR_TIMED_OUT", "nothing").is_none());
}

/// Drives a fetch with scripted events.
fn drive(url: &str, events: Vec<Event>) -> (Result<String, ScrapeError>, Release, Vec<&'static str>) {
    let mut trace = Vec::new();
    let mut step = Fetch::start(url, 1_000);
    let mut events = events.into_iter();
    loop {
        match step {
            Step::Over { page, release } => {
                assert!(events.next().is_none(), "events are left over");
                return (page, release, trace);
            }
            Step::Next { fetch, action } => {
                trace.push(match action {
                    Action::Lookup { .. } => "lookup",
                    Action::Connect { .. } => "connect",
                    Action::Launch => "launch",
                    Action::OpenPage => "open",
                    Action::Listen => "listen",
                    Action::Navigate { url: target, idle_timeout_ms } => {
                        assert_eq!((target.as_str(), idle_timeout_ms), (url, 1_000));
                        "navigate"
                    }
                    Action::Settle => "settle",
                    Action::Capture => "capture",
                });
                let event = events.next().expect("an event for every action");
                assert!(fetch.accepts(&event));
                step = fetch.step(event);
            }
        }
    }
}

fn found() -> Event {
    Event::Looked(LookupEvent::Found(vec!["127.0.0.1:80".into()]))
}

fn up_to_navigation() -> Vec<Event> {
    vec![
        found(),
        Event::Connected(ConnectEvent::Connected),
        Event::Launched(Ok(())),
        Event::Opened(Ok(())),
        Event::Listening(Ok(())),
    ]
}

#[test]
fn e2e_offline_short_circuits_without_chrome() {
    let (page, release, trace) =
        drive("http://h/", vec![Event::Looked(LookupEvent::Failed("no".into()))]);
    assert!(matches!(page, Err(ScrapeError::Offline(_))));
    assert_eq!(release, Release::Nothing);
    assert_eq!(trace, vec!["lookup"]);
    let (page, release, trace) =
        drive("http://h/", vec![found(), Event::Connected(ConnectEvent::TimedOut)]);
    assert!(matches!(page, Err(ScrapeError::Offline(_))));
    assert_eq!((release, trace), (Release::Nothing, vec!["lookup", "connect"]));
}

#[test]
fn e2e_happy_path_returns_rendered_html() {
    let mut events = up_to_navigation();
    events.push(Event::Navigated(NavigationEvent::Complete));
    events.push(Event::Settled(Some(200)));
    events.push(Event::Captured(Ok("<html>hi</html>".into())));
    let (page, release, trace) = drive("http://h/", events);
    assert_eq!(page.unwrap(), "<html>hi</html>");
    assert_eq!(release, Release::Close);
    assert_eq!(
        trace,
        vec!["lookup", "connect", "launch", "open", "listen", "navigate", "settle", "capture"]
    );
}

fn status_page(status: u16) -> ScrapeError {
    let mut events = up_to_navigation();
    events.push(Event::Navigated(NavigationEvent::Complete));
    events.push(Event::Settled(Some(status)));
    let (page, release, _) = drive("http://h/", events);
    assert_eq!(release, Release::Close);
    page.unwrap_err()
}

#[test]
fn e2e_auth_401_is_auth_required() {
    assert!(matches!(status_page(401), ScrapeError::AuthRequired { status: 401 }));
}

#[test]
fn e2e_forbidden_403_is_auth_required() {
    assert!(matches!(status_page(403), ScrapeError::AuthRequired { status: 403 }));
}

#[test]
fn e2e_not_found_404_is_not_found() {
    assert!(matches!(status_page(404), ScrapeError::NotFound { status: 404 }));
}

#[test]
fn e2e_geo_451_is_geo_blocked() {
    assert!(matches!(status_page(451), ScrapeError::GeoBlocked { status: 451 }));
}

#[test]
fn e2e_teapot_418_is_http_status() {
    assert!(matches!(status_page(418), ScrapeError::Http { status: 418 }));
}

#[test]
fn e2e_slow_response_times_out() {
    let mut events = up_to_navigation();
    events.push(Event::Navigated(NavigationEvent::TimedOut("1.5s".into())));
    let (page, release, _) = drive("http://h/", events);
    assert!(matches!(page, Err(ScrapeError::Timeout(_))));
    assert_eq!(release, Release::Close);
}

#[test]
fn local_files_go_straight_to_the_browser() {
    let (page, release, trace) =
        drive("file:///x", vec![Event::Launched(Err(LaunchFailure::TimedOut))]);
    assert!(matches!(page, Err(ScrapeError::BrowserMissing(_))));
    assert_eq!((release, trace), (Release::Nothing, vec!["launch"]));
}

#[test]
fn a_started_browser_is_always_released() {
    let broken = || failure(CdpKind::Other, "broken");
    let mut events = up_to_navigation();
    events.truncate(3);
    events.push(Event::Opened(Err(broken())));
    assert_eq!(drive("http://h/", events).1, Release::Abandon);
    let mut events = up_to_navigation();
    events.truncate(4);
    events.push(Event::Listening(Err(broken())));
    assert_eq!(drive("http://h/", events).1, Release::Abandon);
    let mut events = up_to_navigation();
    events.push(Event::Navigated(NavigationEvent::Failed(broken())));
    assert_eq!(drive("http://h/", events).1, Release::Close);
    let mut events = up_to_navigation();
    events.push(Event::Navigated(NavigationEvent::Complete));
    events.push(Event::Settled(None));
    events.push(Event::Captured(Err(broken())));
    assert_eq!(drive("http://h/", events).1, Release::Close);
}

#[test]
fn bad_addresses_end_a_fetch_at_once() {
    let (page, release, trace) = drive("not a url", vec![]);
    assert!(matches!(page, Err(ScrapeError::Other(_))));
    assert_eq!((release, trace.len()), (Release::Nothing, 0));
}

#[test]
fn pdf_steps_lead_from_rendering_to_the_check() {
    assert!(matches!(next_action(PdfEvent::Rendered(Ok(()))), PdfAction::Rename));
    assert!(matches!(next_action(PdfEvent::Renamed(Ok(()))), PdfAction::Look));
    assert!(matches!(next_action(PdfEvent::Looked(true)), PdfAction::Read));
    assert!(matches!(next_action(PdfEvent::Read(Ok(b"%PDF-".to_vec()))), PdfAction::Finish));
}

fn pdf_failure(event: PdfEvent) -> (String, bool) {
    match next_action(event) {
        PdfAction::Fail { error, remove_temporary } => (error.to_string(), remove_temporary),
        _ => panic!("expected a failure"),
    }
}

#[test]
fn pdf_failures_clean_up_what_they_left() {
    assert_eq!(pdf_failure(PdfEvent::Rendered(Err("e".into()))), ("render: e".into(), true));
    assert_eq!(pdf_failure(PdfEvent::Renamed(Err("e".into()))), ("render: e".into(), true));
    assert_eq!(
        pdf_failure(PdfEvent::Looked(false)),
        ("render: expected pdf path missing after render".into(), false)
    );
    assert_eq!(pdf_failure(PdfEvent::Read(Err("short".into()))), ("render: short".into(), false));
    assert_eq!(
        pdf_failure(PdfEvent::Read(Ok(b"%PDFX".to_vec()))),
        ("render: output is not a valid PDF (missing %PDF- magic)".into(), false)
    );
    assert!(is_magic(&b"%PDF-".to_vec()));
    assert!(!is_magic(&b"%PDF-1".to_vec()) && !is_magic(&vec![]));
    assert_eq!(temporary_name("out.pdf"), "out.pdf.tmp");
    assert_eq!(no_file_name().to_string(), "render: output path has no file name");
}
