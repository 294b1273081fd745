//! The line that frames the log of one request.
//!
//! The platform may ask that the log of each request begin with a line that
//! names the request. It says so in the configuration: under one name the word
//! to begin the line with, under another the header whose value names the
//! request.

use crate::context::Config;
use crate::headers::first;
use crate::headers::first_value;
use crate::headers::header_view;
use crate::text::joined;
use crate::text::latin1_text;
use hyper::header::HeaderValue;
use hyper::HeaderMap;
use vstd::prelude::*;

verus! {

/// The name under which the configuration has the word that begins the line.
pub const LOGFRAME_NAME: &'static str = "FN_LOGFRAME_NAME";

/// The name under which the configuration has the name of the header.
pub const LOGFRAME_HEADER: &'static str = "FN_LOGFRAME_HDR";

/// The line to begin the log of a request with, if there is to be one: the
/// configuration has the word and the name of the header, and the request has
/// that header with a value that is not empty. The line is an empty line,
/// then the word, an equals sign and the value of the header.
pub open spec fn log_line(
    config: Map<Seq<char>, Seq<char>>,
    headers: Map<Seq<char>, Seq<Seq<u8>>>,
) -> Option<Seq<char>> {
    if !config.dom().contains(LOGFRAME_NAME@) || !config.dom().contains(LOGFRAME_HEADER@) {
        None
    } else {
        match first_value(headers, config[LOGFRAME_HEADER@]) {
            Some(value) => if value.len() == 0 {
                None
            } else {
                Some("\n"@ + config[LOGFRAME_NAME@] + "="@ + crate::text::latin1(value))
            },
            None => None,
        }
    }
}

/// Works out the line to begin the log of a request with. The caller writes
/// it to the standard output and to the standard error.
pub fn start_logging(config: &Config, headers: &HeaderMap<HeaderValue>) -> (r: Option<String>)
    ensures
        crate::text::option_view(r) == log_line(config@, header_view(*headers)),
{
    let framer = match config.get(LOGFRAME_NAME) {
        Some(framer) => framer,
        None => {
            return None;
        },
    };
    let source = match config.get(LOGFRAME_HEADER) {
        Some(source) => source,
        None => {
            return None;
        },
    };
    match first(headers, source.as_str()) {
        Some(value) => {
            if value.len() == 0 {
                None
            } else {
                let start = joined(joined("\n", framer.as_str()).as_str(), "=");
                Some(joined(start.as_str(), latin1_text(value.as_slice()).as_str()))
            }
        },
        None => None,
    }
}

} // verus!
