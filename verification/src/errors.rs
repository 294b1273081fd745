//! The failures of a function invocation.
//!
//! A failure is either the caller's or the handler's doing, and then the
//! function instance can go on serving, or it is the runtime's own, and then
//! the platform should replace the instance. The kind of the failure decides
//! which; the response that reports it is built here.

use crate::headers::pairs;
use crate::headers::Header;
use crate::text::joined;
use crate::text::debug_string;
use crate::text::debug_text;
use crate::text::decimal;
use crate::text::decimal_string;
use crate::text::has_prefix;
use crate::text::low_bytes;
use crate::text::text_bytes;
use crate::utils::code_of;
use crate::utils::framed;
use crate::utils::recoverable;
use crate::utils::unrecoverable;
use crate::utils::Envelope;
use crate::utils::StatusCode;
use crate::utils::LENGTH_HEADER;
use vstd::prelude::*;

verus! {

/// A failure, tagged with its kind and carrying a message.
#[derive(Debug, Clone, PartialEq, Eq)]
pub enum FunctionError {
    /// The input was not what the function accepts.
    InvalidInput { inner: String },
    /// The request was malformed.
    BadRequest,
    /// The runtime could not start.
    Initialization { inner: String },
    /// A body could not be decoded or encoded.
    Coercion { inner: String },
    /// Reading or writing failed.
    IO { inner: String },
    /// The transport failed.
    Server { inner: String },
    /// The runtime failed in another way.
    Other { inner: String },
    /// The handler reported a failure of its own.
    User { inner: String },
}

impl FunctionError {
    /// Whether the failure is the caller's or the handler's doing.
    pub open spec fn is_user(self) -> bool {
        self is InvalidInput || self is BadRequest || self is Coercion || self is User
    }

    /// The message that the failure carries; a bad request carries none.
    pub open spec fn detail(self) -> Seq<char> {
        match self {
            FunctionError::InvalidInput { inner } => inner@,
            FunctionError::BadRequest => Seq::empty(),
            FunctionError::Initialization { inner } => inner@,
            FunctionError::Coercion { inner } => inner@,
            FunctionError::IO { inner } => inner@,
            FunctionError::Server { inner } => inner@,
            FunctionError::Other { inner } => inner@,
            FunctionError::User { inner } => inner@,
        }
    }

    /// The text that reports the failure: a few words for the kind, then the
    /// message as `{:?}` prints it, between double quotes. A failure that a
    /// handler reports with the message `bad input` thus reads
    /// `User error: "bad input"`: the quoted message stands in the text, after
    /// the words for the kind.
    pub open spec fn message_text(self) -> Seq<char> {
        match self {
            FunctionError::InvalidInput { inner } => "Invalid input: "@ + debug_text(inner@),
            FunctionError::BadRequest => "Bad request"@,
            FunctionError::Initialization { inner } => "Initialization failed: "@ + debug_text(
                inner@,
            ),
            FunctionError::Coercion { inner } => "Coercion failed: "@ + debug_text(inner@),
            FunctionError::IO { inner } => "IO Error: "@ + debug_text(inner@),
            FunctionError::Server { inner } => "Server error: "@ + debug_text(inner@),
            FunctionError::Other { inner } => "Internal system error: "@ + debug_text(inner@),
            FunctionError::User { inner } => "User error: "@ + debug_text(inner@),
        }
    }

    /// The outer status of the response that reports the failure.
    pub open spec fn outer_status(self) -> u16 {
        if self.is_user() {
            200
        } else {
            502
        }
    }

    /// The logical status of the response that reports the failure, given the
    /// status that the handler had set, if any. A failure of the runtime is
    /// always a `500`. One of the caller or the handler is a `400`, unless the
    /// handler had set a status from 400 to 599: then it is that one.
    pub open spec fn logical_status(self, handler: Option<u16>) -> u16 {
        if !self.is_user() {
            500
        } else {
            match handler {
                Some(code) => if 400 <= code <= 599 {
                    code
                } else {
                    400
                },
                None => 400,
            }
        }
    }

    /// Whether the failure is the caller's or the handler's doing, so that the
    /// function instance can go on serving.
    pub fn is_user_error(&self) -> (r: bool)
        ensures
            r == self.is_user(),
    {
        match self {
            FunctionError::InvalidInput { .. } => true,
            FunctionError::BadRequest => true,
            FunctionError::Coercion { .. } => true,
            FunctionError::User { .. } => true,
            _ => false,
        }
    }

    /// Whether the failure is the runtime's own, so that the function instance
    /// should be replaced.
    pub fn is_runtime_compromising(&self) -> (r: bool)
        ensures
            r == !self.is_user(),
    {
        !self.is_user_error()
    }

    /// A failure that the handler reports.
    pub fn new_user_error(error: String) -> (r: Self)
        ensures
            r == (FunctionError::User { inner: error }),
    {
        FunctionError::User { inner: error }
    }

    /// An input that the function does not accept.
    pub fn invalid_input(message: String) -> (r: Self)
        ensures
            r == (FunctionError::InvalidInput { inner: message }),
    {
        FunctionError::InvalidInput { inner: message }
    }

    /// A malformed request.
    pub fn bad_request() -> (r: Self)
        ensures
            r == FunctionError::BadRequest,
    {
        FunctionError::BadRequest
    }

    /// A runtime that could not start.
    pub fn initialization(message: String) -> (r: Self)
        ensures
            r == (FunctionError::Initialization { inner: message }),
    {
        FunctionError::Initialization { inner: message }
    }

    /// A body that could not be decoded or encoded.
    pub fn coercion(message: String) -> (r: Self)
        ensures
            r == (FunctionError::Coercion { inner: message }),
    {
        FunctionError::Coercion { inner: message }
    }

    /// A read or a write that failed.
    pub fn io(message: String) -> (r: Self)
        ensures
            r == (FunctionError::IO { inner: message }),
    {
        FunctionError::IO { inner: message }
    }

    /// A transport that failed.
    pub fn server(message: String) -> (r: Self)
        ensures
            r == (FunctionError::Server { inner: message }),
    {
        FunctionError::Server { inner: message }
    }

    /// Another failure of the runtime.
    pub fn other(message: String) -> (r: Self)
        ensures
            r == (FunctionError::Other { inner: message }),
    {
        FunctionError::Other { inner: message }
    }

    /// The text that reports the failure.
    pub fn message(&self) -> (r: String)
        ensures
            r@ == self.message_text(),
    {
        match self {
            FunctionError::InvalidInput { inner } => joined(
                "Invalid input: ",
                debug_string(inner.as_str()).as_str(),
            ),
            FunctionError::BadRequest => "Bad request".to_owned(),
            FunctionError::Initialization { inner } => joined(
                "Initialization failed: ",
                debug_string(inner.as_str()).as_str(),
            ),
            FunctionError::Coercion { inner } => joined(
                "Coercion failed: ",
                debug_string(inner.as_str()).as_str(),
            ),
            FunctionError::IO { inner } => joined(
                "IO Error: ",
                debug_string(inner.as_str()).as_str(),
            ),
            FunctionError::Server { inner } => joined(
                "Server error: ",
                debug_string(inner.as_str()).as_str(),
            ),
            FunctionError::Other { inner } => joined(
                "Internal system error: ",
                debug_string(inner.as_str()).as_str(),
            ),
            FunctionError::User { inner } => joined(
                "User error: ",
                debug_string(inner.as_str()).as_str(),
            ),
        }
    }

    /// The response that reports the failure when no handler had set a
    /// status: `200` around `400` for a failure of the caller or the handler,
    /// `502` around `500` for one of the runtime. The body is the text that
    /// reports the failure, in UTF-8: the words for the kind and the quoted
    /// message, not the message alone.
    pub fn into_response(self) -> (r: Envelope)
        ensures
            r.status@ == self.outer_status(),
            r.body@ == vstd::utf8::encode_utf8(self.message_text()),
            pairs(r.headers@) == framed(length_only(r.body@.len()), self.logical_status(None)),
            r.carries_status(self.logical_status(None)),
    {
        self.into_response_with_status(None)
    }

    /// The response that reports the failure, given the status that the
    /// handler had set, if any. The handler's status is used only for a
    /// failure of the caller or the handler, and only if it is from 400 to
    /// 599.
    pub fn into_response_with_status(self, handler: Option<StatusCode>) -> (r: Envelope)
        ensures
            r.status@ == self.outer_status(),
            r.body@ == vstd::utf8::encode_utf8(self.message_text()),
            pairs(r.headers@) == framed(
                length_only(r.body@.len()),
                self.logical_status(code_of(handler)),
            ),
            r.carries_status(self.logical_status(code_of(handler))),
    {
        let body = self.message().as_str().as_bytes_vec();
        if self.is_user_error() {
            let status = match handler {
                Some(status) => if status.is_error() {
                    status
                } else {
                    StatusCode::bad_request()
                },
                None => StatusCode::bad_request(),
            };
            client_error_with_status(status, body)
        } else {
            server_error(body)
        }
    }
}

/// The headers of a response that has only the length of its body to tell.
pub open spec fn length_only(len: nat) -> Seq<(Seq<char>, Seq<u8>)> {
    seq![(LENGTH_HEADER@, low_bytes(decimal(len)))]
}

/// Outer status `502` goes with logical status `500` and a failure of the
/// runtime, and with nothing else; every other failure has outer status `200`.
pub proof fn lemma_recoverability(e: FunctionError, handler: Option<u16>)
    ensures
        e.outer_status() == 200 || e.outer_status() == 502,
        e.outer_status() == 502 <==> (e.logical_status(handler) == 500 && !e.is_user()),
        e.is_user() ==> 400 <= e.logical_status(handler) <= 599,
{
}

/// The list with the length header alone.
fn length_headers(len: usize) -> (r: Vec<Header>)
    ensures
        pairs(r@) == length_only(len as nat),
{
    let value = text_bytes(decimal_string(len).as_str());
    let h = Header { name: LENGTH_HEADER.to_owned(), value };
    let mut out: Vec<Header> = Vec::new();
    out.push(h);
    assert(pairs(out@) =~= length_only(len as nat));
    out
}

/// The response for a failure of the caller or the handler, with a logical
/// status of the handler's choosing. The outer status is `200`.
fn client_error_with_status(status: StatusCode, data: Vec<u8>) -> (r: Envelope)
    ensures
        r.status@ == 200,
        r.body@ == data@,
        pairs(r.headers@) == framed(length_only(data@.len()), status@),
        r.carries_status(status@),
{
    let headers = length_headers(data.len());
    recoverable(status, Some(data), headers)
}

/// The response for a failure of the caller or the handler: outer status
/// `200`, logical status `400`, the data as body and its length as a header.
pub fn client_error(data: Vec<u8>) -> (r: Envelope)
    ensures
        r.status@ == 200,
        r.body@ == data@,
        pairs(r.headers@) == framed(length_only(data@.len()), 400),
        r.carries_status(400),
{
    client_error_with_status(StatusCode::bad_request(), data)
}

/// The response for a failure of the runtime: outer status `502`, logical
/// status `500`, the data as body and its length as a header.
pub fn server_error(data: Vec<u8>) -> (r: Envelope)
    ensures
        r.status@ == 502,
        r.body@ == data@,
        pairs(r.headers@) == framed(length_only(data@.len()), 500),
        r.carries_status(500),
{
    let headers = length_headers(data.len());
    unrecoverable(StatusCode::internal_server_error(), Some(data), headers)
}

/// What is said, before the cause, of a URL that could not be parsed.
pub const URL_FAILED: &'static str = "Could not parse the URL: ";

/// `std::io::Error`, opaque to the verifier.
#[verifier::external_type_specification]
#[verifier::external_body]
pub struct ExIoError(std::io::Error);

/// `url::ParseError`, opaque to the verifier.
#[verifier::external_type_specification]
#[verifier::external_body]
pub struct ExUrlError(url::ParseError);

/// `hyper::Error`, opaque to the verifier.
#[verifier::external_type_specification]
#[verifier::external_body]
pub struct ExHyperError(hyper::Error);

/// A failure to read or write is a failure of reading and writing, with the
/// message of its cause.
impl From<std::io::Error> for FunctionError {
    fn from(e: std::io::Error) -> (r: Self)
        ensures
            r is IO,
            r matches FunctionError::IO { inner }
                && vstd::string::to_string_from_display_ensures::<std::io::Error>(&e, inner),
    {
        FunctionError::IO { inner: e.to_string() }
    }
}

impl vstd::std_specs::convert::FromSpecImpl<std::io::Error> for FunctionError {
    open spec fn obeys_from_spec() -> bool {
        false
    }

    open spec fn from_spec(e: std::io::Error) -> Self {
        FunctionError::BadRequest
    }
}

/// A URL that cannot be parsed is a failure to start, with the message of its
/// cause after a few words.
impl From<url::ParseError> for FunctionError {
    fn from(e: url::ParseError) -> (r: Self)
        ensures
            r is Initialization,
            has_prefix(r.detail(), URL_FAILED@),
    {
        let inner = joined(URL_FAILED, e.to_string().as_str());
        assert(inner@.subrange(0, URL_FAILED@.len() as int) =~= URL_FAILED@);
        FunctionError::Initialization { inner }
    }
}

impl vstd::std_specs::convert::FromSpecImpl<url::ParseError> for FunctionError {
    open spec fn obeys_from_spec() -> bool {
        false
    }

    open spec fn from_spec(e: url::ParseError) -> Self {
        FunctionError::BadRequest
    }
}

/// A failure of the transport is a failure of the server, with the message of
/// its cause.
impl From<hyper::Error> for FunctionError {
    fn from(e: hyper::Error) -> (r: Self)
        ensures
            r is Server,
            r matches FunctionError::Server { inner }
                && vstd::string::to_string_from_display_ensures::<hyper::Error>(&e, inner),
    {
        FunctionError::Server { inner: e.to_string() }
    }
}

impl vstd::std_specs::convert::FromSpecImpl<hyper::Error> for FunctionError {
    open spec fn obeys_from_spec() -> bool {
        false
    }

    open spec fn from_spec(e: hyper::Error) -> Self {
        FunctionError::BadRequest
    }
}

} // verus!
