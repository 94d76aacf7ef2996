//! The failures of fetching a page, and the classes they fall into.

use vstd::prelude::*;
use crate::error::ScrapeClass;
use crate::text;

verus! {

/// Why a page could not be fetched.
#[derive(Debug, Clone)]
pub enum ScrapeError {
    /// The host could not be reached; no browser was started.
    Offline(String),
    /// The transport failed while the page was loading.
    NetworkTimeout(String),
    /// The page did not settle in time.
    Timeout(String),
    /// The page asks for credentials.
    AuthRequired { status: u16 },
    /// There is no such page.
    NotFound { status: u16 },
    /// The page is blocked for legal reasons.
    GeoBlocked { status: u16 },
    /// Any other failing status.
    Http { status: u16 },
    /// There is no browser to fetch the page with.
    BrowserMissing(String),
    /// Anything else.
    Other(String),
}

impl ScrapeError {
    /// The message of the error.
    pub open spec fn text(self) -> Seq<char> {
        match self {
            ScrapeError::Offline(m) => "offline: "@ + m@,
            ScrapeError::NetworkTimeout(m) => "network-timeout: "@ + m@,
            ScrapeError::Timeout(m) => "scrape/timeout: "@ + m@,
            ScrapeError::AuthRequired { status } => "auth-required (status "@ + text::numeral(
                status as nat,
            ) + ")"@,
            ScrapeError::NotFound { status } => "not-found (status "@ + text::numeral(status as nat)
                + ")"@,
            ScrapeError::GeoBlocked { status } => "geo-blocked (status "@ + text::numeral(
                status as nat,
            ) + ")"@,
            ScrapeError::Http { status } => "http "@ + text::numeral(status as nat),
            ScrapeError::BrowserMissing(m) => "browser-missing: "@ + m@,
            ScrapeError::Other(m) => "other: "@ + m@,
        }
    }

    /// The class that the error falls into.
    pub open spec fn class_spec(self) -> ScrapeClass {
        match self {
            ScrapeError::Offline(_) => ScrapeClass::Offline,
            ScrapeError::NetworkTimeout(_) => ScrapeClass::NetworkTimeout,
            ScrapeError::Timeout(_) => ScrapeClass::Timeout,
            ScrapeError::AuthRequired { status } => ScrapeClass::AuthRequired,
            ScrapeError::NotFound { status } => ScrapeClass::NotFound,
            ScrapeError::GeoBlocked { status } => ScrapeClass::GeoBlocked,
            ScrapeError::Http { status } => ScrapeClass::Http(status),
            ScrapeError::BrowserMissing(m) => ScrapeClass::BrowserMissing(m),
            ScrapeError::Other(m) => ScrapeClass::Other(m),
        }
    }

    /// The message of the error.
    pub fn to_string(&self) -> (r: String)
        ensures
            r@ == self.text(),
    {
        match self {
            ScrapeError::Offline(m) => text::concat2("offline: ", m.as_str()),
            ScrapeError::NetworkTimeout(m) => text::concat2("network-timeout: ", m.as_str()),
            ScrapeError::Timeout(m) => text::concat2("scrape/timeout: ", m.as_str()),
            ScrapeError::AuthRequired { status } => text::concat3(
                "auth-required (status ",
                text::decimal(*status as u64).as_str(),
                ")",
            ),
            ScrapeError::NotFound { status } => text::concat3(
                "not-found (status ",
                text::decimal(*status as u64).as_str(),
                ")",
            ),
            ScrapeError::GeoBlocked { status } => text::concat3(
                "geo-blocked (status ",
                text::decimal(*status as u64).as_str(),
                ")",
            ),
            ScrapeError::Http { status } => text::concat2(
                "http ",
                text::decimal(*status as u64).as_str(),
            ),
            ScrapeError::BrowserMissing(m) => text::concat2("browser-missing: ", m.as_str()),
            ScrapeError::Other(m) => text::concat2("other: ", m.as_str()),
        }
    }
}

impl From<ScrapeError> for ScrapeClass {
    fn from(err: ScrapeError) -> (r: Self) {
        match err {
            ScrapeError::Offline(_) => ScrapeClass::Offline,
            ScrapeError::NetworkTimeout(_) => ScrapeClass::NetworkTimeout,
            ScrapeError::Timeout(_) => ScrapeClass::Timeout,
            ScrapeError::AuthRequired { status: _ } => ScrapeClass::AuthRequired,
            ScrapeError::NotFound { status: _ } => ScrapeClass::NotFound,
            ScrapeError::GeoBlocked { status: _ } => ScrapeClass::GeoBlocked,
            ScrapeError::Http { status } => ScrapeClass::Http(status),
            ScrapeError::BrowserMissing(m) => ScrapeClass::BrowserMissing(m),
            ScrapeError::Other(m) => ScrapeClass::Other(m),
        }
    }
}

impl vstd::std_specs::convert::FromSpecImpl<ScrapeError> for ScrapeClass {
    open spec fn obeys_from_spec() -> bool {
        true
    }

    open spec fn from_spec(err: ScrapeError) -> Self {
        err.class_spec()
    }
}

} // verus!
