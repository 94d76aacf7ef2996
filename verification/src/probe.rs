//! Whether a host can be reached, asked before a browser is started: one DNS
//! lookup and one TCP connection.

use vstd::prelude::*;
use crate::scrape_port::ScrapeError;
use crate::text;

verus! {

// ---------------------------------------------------------------------------
// URLs
// ---------------------------------------------------------------------------

/// What the probe reads of a URL.
pub struct ParsedUrl {
    pub scheme: String,
    pub host: Option<String>,
    /// The port of the URL, or the default port of its scheme.
    pub port: Option<u16>,
}

/// A parsed URL as plain values.
#[verifier::ext_equal]
pub struct UrlModel {
    pub scheme: Seq<char>,
    pub host: Option<Seq<char>>,
    pub port: Option<u16>,
}

impl View for ParsedUrl {
    type V = UrlModel;

    open spec fn view(&self) -> UrlModel {
        UrlModel {
            scheme: self.scheme@,
            host: match self.host {
                Some(h) => Some(h@),
                None => None,
            },
            port: self.port,
        }
    }
}

/// What `Url::parse` makes of a text: the parts of the URL, or the message.
pub uninterp spec fn url_parsed(url: Seq<char>) -> Result<UrlModel, Seq<char>>;

/// `url::Url::parse`, with the scheme, the host and the port (or the default port
/// of the scheme) of the URL. The result depends on the text alone.
#[verifier::external_body]
fn parse_url(url: &str) -> (r: Result<ParsedUrl, String>)
    ensures
        match r {
            Ok(u) => url_parsed(url@) == Ok::<UrlModel, Seq<char>>(u@),
            Err(e) => url_parsed(url@) == Err::<UrlModel, Seq<char>>(e@),
        },
{
    let parsed = url::Url::parse(url).map_err(|e| e.to_string())?;
    Ok(ParsedUrl {
        scheme: parsed.scheme().to_string(),
        host: parsed.host_str().map(|h| h.to_string()),
        port: parsed.port_or_known_default(),
    })
}

// ---------------------------------------------------------------------------
// The probe
// ---------------------------------------------------------------------------

/// What the probe does for a URL.
pub enum ProbePlan {
    /// A local file needs no probe.
    Skip,
    /// Look the host up, under `host:port`.
    Lookup { host: String, target: String },
}

/// The plan for a URL, or the error for one that cannot be probed.
pub open spec fn is_plan(
    url: Seq<char>,
    parsed: Result<UrlModel, Seq<char>>,
    r: Result<ProbePlan, ScrapeError>,
) -> bool {
    match parsed {
        Err(e) => r matches Err(ScrapeError::Other(m)) && m@ == "invalid URL `"@ + url + "`: "@ + e,
        Ok(u) => if u.scheme == "file"@ {
            r matches Ok(ProbePlan::Skip)
        } else {
            match (u.host, u.port) {
                (None, _) => r matches Err(ScrapeError::Other(m)) && m@ == "URL `"@ + url
                    + "` has no host"@,
                (Some(_), None) => r matches Err(ScrapeError::Other(m)) && m@ == "URL `"@ + url
                    + "` has no default port"@,
                (Some(h), Some(p)) => r matches Ok(ProbePlan::Lookup { host, target }) && host@
                    == h && target@ == h + ":"@ + text::numeral(p as nat),
            }
        },
    }
}

/// A parsed URL, or the message of the failure.
pub open spec fn url_model(parsed: Result<ParsedUrl, String>) -> Result<UrlModel, Seq<char>> {
    match parsed {
        Ok(u) => Ok(u@),
        Err(e) => Err(e@),
    }
}

/// The plan for a URL that has been parsed.
pub fn plan_for(url: &str, parsed: Result<ParsedUrl, String>) -> (r: Result<ProbePlan, ScrapeError>)
    ensures
        is_plan(url@, url_model(parsed), r),
{
    let u = match parsed {
        Ok(u) => u,
        Err(e) => {
            let mut m = text::concat3("invalid URL `", url, "`: ");
            m.push_str(e.as_str());
            return Err(ScrapeError::Other(m));
        },
    };
    if text::same_text(u.scheme.as_str(), "file") {
        return Ok(ProbePlan::Skip);
    }
    let host = match u.host {
        Some(h) => h,
        None => {
            return Err(ScrapeError::Other(text::concat3("URL `", url, "` has no host")));
        },
    };
    let port = match u.port {
        Some(p) => p,
        None => {
            return Err(ScrapeError::Other(text::concat3("URL `", url, "` has no default port")));
        },
    };
    let target = text::concat3(host.as_str(), ":", text::decimal(port as u64).as_str());
    Ok(ProbePlan::Lookup { host, target })
}

/// The plan for a URL.
pub fn plan_probe(url: &str) -> (r: Result<ProbePlan, ScrapeError>)
    ensures
        is_plan(url@, url_parsed(url@), r),
{
    let parsed = parse_url(url);
    plan_for(url, parsed)
}

/// What a DNS lookup came to.
pub enum LookupEvent {
    TimedOut,
    Failed(String),
    Found(Vec<String>),
}

/// The address to connect to after a lookup: the first one that was found. A
/// lookup that fails in any way means that the host is offline.
pub fn on_lookup(host: &str, event: LookupEvent) -> (r: Result<String, ScrapeError>)
    ensures
        match event {
            LookupEvent::TimedOut => r matches Err(ScrapeError::Offline(m)) && m@
                == "DNS lookup for "@ + host@ + " timed out after 2s"@,
            LookupEvent::Failed(e) => r matches Err(ScrapeError::Offline(m)) && m@
                == "DNS lookup for "@ + host@ + " failed: "@ + e@,
            LookupEvent::Found(addresses) => if addresses@.len() == 0 {
                r matches Err(ScrapeError::Offline(m)) && m@ == "DNS lookup for "@ + host@
                    + " returned no addresses"@
            } else {
                r matches Ok(a) && a@ == addresses@[0]@
            },
        },
{
    match event {
        LookupEvent::TimedOut => Err(
            ScrapeError::Offline(text::concat3("DNS lookup for ", host, " timed out after 2s")),
        ),
        LookupEvent::Failed(e) => {
            let mut m = text::concat3("DNS lookup for ", host, " failed: ");
            m.push_str(e.as_str());
            Err(ScrapeError::Offline(m))
        },
        LookupEvent::Found(addresses) => {
            if addresses.len() == 0 {
                Err(
                    ScrapeError::Offline(
                        text::concat3("DNS lookup for ", host, " returned no addresses"),
                    ),
                )
            } else {
                Ok(addresses[0].clone())
            }
        },
    }
}

/// What a TCP connection came to.
pub enum ConnectEvent {
    TimedOut,
    Failed(String),
    Connected,
}

/// The result of the probe after a connection was tried.
pub fn on_connect(address: &str, event: ConnectEvent) -> (r: Result<(), ScrapeError>)
    ensures
        match event {
            ConnectEvent::TimedOut => r matches Err(ScrapeError::Offline(m)) && m@
                == "TCP connect to "@ + address@ + " timed out after 2s"@,
            ConnectEvent::Failed(e) => r matches Err(ScrapeError::Offline(m)) && m@
                == "TCP connect to "@ + address@ + " failed: "@ + e@,
            ConnectEvent::Connected => r is Ok,
        },
{
    match event {
        ConnectEvent::TimedOut => Err(
            ScrapeError::Offline(text::concat3("TCP connect to ", address, " timed out after 2s")),
        ),
        ConnectEvent::Failed(e) => {
            let mut m = text::concat3("TCP connect to ", address, " failed: ");
            m.push_str(e.as_str());
            Err(ScrapeError::Offline(m))
        },
        ConnectEvent::Connected => Ok(()),
    }
}

// ---------------------------------------------------------------------------
// Browser messages
// ---------------------------------------------------------------------------

/// A message, in capitals, that says that the host cannot be reached.
pub open spec fn says_offline(upper: Seq<char>) -> bool {
    ||| text::occurs(upper, "ERR_NAME_NOT_RESOLVED"@)
    ||| text::occurs(upper, "ERR_INTERNET_DISCONNECTED"@)
    ||| text::occurs(upper, "ERR_ADDRESS_UNREACHABLE"@)
}

/// A message, in capitals, that says that the transport failed.
pub open spec fn says_transport(upper: Seq<char>) -> bool {
    ||| text::occurs(upper, "ERR_CONNECTION_REFUSED"@)
    ||| text::occurs(upper, "ERR_CONNECTION_RESET"@)
    ||| text::occurs(upper, "ERR_CONNECTION_CLOSED"@)
    ||| text::occurs(upper, "ERR_SSL_"@)
    ||| text::occurs(upper, "ERR_CERT_"@)
    ||| text::occurs(upper, "ERR_TIMED_OUT"@)
}

/// The error for a message whose capitals are known.
pub open spec fn is_reachability(message: Seq<char>, upper: Seq<char>, r: Option<ScrapeError>) -> bool {
    if says_offline(upper) {
        r matches Some(ScrapeError::Offline(m)) && m@ == message
    } else if says_transport(upper) {
        r matches Some(ScrapeError::NetworkTimeout(m)) && m@ == message
    } else {
        r is None
    }
}

/// Classes a message whose capitals are known.
pub fn classify_message(err: &str, upper: &str) -> (r: Option<ScrapeError>)
    ensures
        is_reachability(err@, upper@, r),
{
    if text::contains(upper, "ERR_NAME_NOT_RESOLVED") || text::contains(
        upper,
        "ERR_INTERNET_DISCONNECTED",
    ) || text::contains(upper, "ERR_ADDRESS_UNREACHABLE") {
        return Some(ScrapeError::Offline(err.to_string()));
    }
    if text::contains(upper, "ERR_CONNECTION_REFUSED") || text::contains(
        upper,
        "ERR_CONNECTION_RESET",
    ) || text::contains(upper, "ERR_CONNECTION_CLOSED") || text::contains(upper, "ERR_SSL_")
        || text::contains(upper, "ERR_CERT_") || text::contains(upper, "ERR_TIMED_OUT") {
        return Some(ScrapeError::NetworkTimeout(err.to_string()));
    }
    None
}

/// Classes the error message of a browser: offline, transport failure, or
/// neither.
pub fn classify_reachability_error(err: &str) -> (r: Option<ScrapeError>)
    ensures
        is_reachability(err@, text::unicode_uppercase_text(err@), r),
        text::ascii_text(err@) ==> is_reachability(err@, text::ascii_uppercase(err@), r),
{
    let upper = text::uppercase_text(err);
    classify_message(err, upper.as_str())
}

} // verus!
