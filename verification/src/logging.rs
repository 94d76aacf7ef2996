//! The log format that the command line asks for.

use vstd::prelude::*;
use crate::text;

verus! {

/// The filter of the log where the environment gives none: everything from
/// `info` up, without the noise of the browser's transport.
pub const DEFAULT_FILTER: &'static str = "info,chromiumoxide=error,chromiumoxide_cdp=error,chromiumoxide_types=error,tungstenite=error,async_tungstenite=error";

/// How log lines are written.
#[derive(Debug, Clone, Copy, PartialEq, Eq, Structural)]
pub enum LogFormat {
    /// One JSON object per line.
    Json,
    /// For human readers.
    Pretty,
}

impl LogFormat {
    /// The format of a name, or the error for an unknown name.
    pub fn parse(value: &str) -> (r: Result<Self, String>)
        ensures
            r is Ok <==> value@ == "json"@ || value@ == "pretty"@,
            value@ == "json"@ ==> r == Ok::<Self, String>(LogFormat::Json),
            value@ == "pretty"@ ==> r == Ok::<Self, String>(LogFormat::Pretty),
            r matches Err(e) ==> e@ == "unknown --log-format value `"@ + value@
                + "` (expected `json` or `pretty`)"@,
    {
        proof {
            reveal_strlit("json");
            reveal_strlit("pretty");
            assert("json"@.len() == 4 && "pretty"@.len() == 6);
        }
        if text::same_text(value, "json") {
            Ok(LogFormat::Json)
        } else if text::same_text(value, "pretty") {
            Ok(LogFormat::Pretty)
        } else {
            Err(
                text::concat3(
                    "unknown --log-format value `",
                    value,
                    "` (expected `json` or `pretty`)",
                ),
            )
        }
    }
}

impl std::str::FromStr for LogFormat {
    type Err = String;

    /// The format of a name, or the error for an unknown name.
    fn from_str(s: &str) -> (r: Result<Self, String>)
        ensures
            r is Ok <==> s@ == "json"@ || s@ == "pretty"@,
            s@ == "json"@ ==> r == Ok::<Self, String>(LogFormat::Json),
            s@ == "pretty"@ ==> r == Ok::<Self, String>(LogFormat::Pretty),
            r matches Err(e) ==> e@ == "unknown --log-format value `"@ + s@
                + "` (expected `json` or `pretty`)"@,
    {
        LogFormat::parse(s)
    }
}

} // verus!
