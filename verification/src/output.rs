//! Output formats of print mode.

use vstd::prelude::*;
use crate::text::{lower_text, str_eq, to_lowercase};

verus! {

/// How print mode writes its results.
#[derive(Debug, Clone, Copy, PartialEq, Eq, Structural)]
pub enum OutputFormat {
    /// Plain text (the default).
    Text,
    /// One JSON object at the end with the complete result.
    Json,
    /// Newline-delimited JSON events as they happen.
    StreamJson,
}

impl Default for OutputFormat {
    fn default() -> (f: OutputFormat)
        ensures
            f == OutputFormat::Text,
    {
        OutputFormat::Text
    }
}

/// The format named by `s`, ignoring case; anything unknown is text.
pub open spec fn format_named(s: Seq<char>) -> OutputFormat {
    let l = lower_text(s);
    if l == "json"@ {
        OutputFormat::Json
    } else if l == "stream-json"@ || l == "stream_json"@ || l == "streamjson"@ {
        OutputFormat::StreamJson
    } else {
        OutputFormat::Text
    }
}

impl OutputFormat {
    pub fn from_str_opt(s: &str) -> (f: OutputFormat)
        ensures
            f == format_named(s@),
    {
        let l = to_lowercase(s);
        let l = l.as_str();
        if str_eq(l, "json") {
            OutputFormat::Json
        } else if str_eq(l, "stream-json") || str_eq(l, "stream_json") || str_eq(l, "streamjson") {
            OutputFormat::StreamJson
        } else {
            OutputFormat::Text
        }
    }
}

} // verus!
