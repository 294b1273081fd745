//! The request pipeline.
//!
//! One request goes through these stages, one after the other: a context is
//! made from its headers, a buffer is taken from the pool, the body is put in
//! the buffer and decoded, the handler is called, what it returns is encoded,
//! and the response is framed. The first stage that fails ends the pipeline
//! with the response that reports the failure.

use crate::coercions::ContentType;
use crate::coercions::InputCoercible;
use crate::coercions::OutputCoercible;
use crate::context::Config;
use crate::context::context_of;
use crate::context::ContextView;
use crate::context::RuntimeContext;
use crate::context::CONTENT_TYPE_HEADER;
use crate::errors::length_only;
use crate::errors::FunctionError;
use crate::headers::header_view;
use crate::headers::pairs;
use crate::headers::values_in;
use crate::headers::values_named;
use crate::text::joined;
use crate::text::low_bytes;
use crate::text::text_bytes;
use crate::utils::canonical;
use crate::utils::framed;
use crate::utils::is_status;
use crate::utils::is_canonical_name;
use crate::utils::lemma_canonical_framed;
use crate::utils::lemma_own_names_canonical;
use crate::utils::lemma_canonical_with_header;
use crate::utils::lemma_values_framed;
use crate::utils::lemma_values_with_header;
use crate::utils::listing;
use crate::utils::recoverable;
use crate::utils::response_values;
use crate::utils::set_header;
use crate::utils::Envelope;
use crate::utils::StatusCode;
use crate::utils::RUNTIME_HEADER;
use crate::utils::STATUS_HEADER;
use crate::utils::VERSION_HEADER;
use hyper::header::HeaderValue;
use hyper::HeaderMap;
use object_pool::Pool;
use object_pool::Reusable;
use std::sync::Arc;
use vstd::prelude::*;

verus! {

/// How many buffers the pool of a process has.
pub const POOL_SIZE: usize = 1024;

/// How many bytes a buffer of the pool has room for when it is made.
pub const BUFFER_CAPACITY: usize = 4096;

/// What is said when the pool has no buffer left.
pub const EXHAUSTED: &'static str = "Failed to allocate memory";

/// What is said, before the cause, when the body could not be read.
pub const READ_FAILED: &'static str = "Failed to read request body: ";

/// What is said, before the cause, when the body could not be decoded.
pub const DECODE_FAILED: &'static str = "Error while deserializing request body: ";

/// What is said, before the cause, when the handler failed.
pub const HANDLER_FAILED: &'static str = "Error executing user function: ";

/// What is said, before the cause, when the result could not be encoded.
pub const ENCODE_FAILED: &'static str = "Error while serializing response body: ";

/// `object_pool::Pool`, opaque to the verifier.
#[verifier::external_type_specification]
#[verifier::external_body]
#[verifier::reject_recursive_types(T)]
pub struct ExPool<T>(Pool<T>);

/// `object_pool::Reusable`, opaque to the verifier.
#[verifier::external_type_specification]
#[verifier::external_body]
#[verifier::reject_recursive_types(T)]
pub struct ExReusable<'a, T>(Reusable<'a, T>);

/// The bytes in a buffer that was taken from a pool.
pub uninterp spec fn buffer_bytes(buffer: Reusable<Vec<u8>>) -> Seq<u8>;

/// A buffer for a pool: empty, with room for `capacity` bytes.
pub fn fresh_buffer(capacity: usize) -> (r: Vec<u8>)
    ensures
        r@ == Seq::<u8>::empty(),
{
    Vec::with_capacity(capacity)
}

/// How many buffers a pool was made with. Those on loan count too.
pub uninterp spec fn pool_size(pool: Pool<Vec<u8>>) -> nat;

/// `Pool::new`: a pool made with `size` buffers, each made by `fresh_buffer`.
#[verifier::external_body]
fn new_pool(size: usize, capacity: usize) -> (r: Pool<Vec<u8>>)
    ensures
        pool_size(r) == size,
{
    Pool::new(size, || fresh_buffer(capacity))
}

/// `Pool::try_pull`: a buffer of the pool if one is free. What the buffer
/// holds is whatever its last user left in it.
#[verifier::external_body]
fn try_pull<'a>(pool: &'a Pool<Vec<u8>>) -> (r: Option<Reusable<'a, Vec<u8>>>)
{
    pool.try_pull()
}

/// `Reusable::deref_mut`: the buffer itself, to be changed in place.
#[verifier::external_body]
fn buffer_mut<'a, 'b>(buffer: &'a mut Reusable<'b, Vec<u8>>) -> (r: &'a mut Vec<u8>)
    ensures
        r@ == buffer_bytes(*old(buffer)),
        buffer_bytes(*final(buffer)) == final(r)@,
{
    &mut **buffer
}

/// `Reusable::deref`: the buffer itself, to be read.
#[verifier::external_body]
fn buffer_ref<'a, 'b>(buffer: &'a Reusable<'b, Vec<u8>>) -> (r: &'a Vec<u8>)
    ensures
        r@ == buffer_bytes(*buffer),
{
    &**buffer
}

/// A pool of byte buffers. It has a fixed number of them; a buffer that is
/// dropped goes back to the pool. The pool never waits: when no buffer is
/// free, it says so.
pub struct BufferPool {
    pool: Pool<Vec<u8>>,
}

/// A buffer on loan from a pool.
pub struct Buffer<'a> {
    inner: Reusable<'a, Vec<u8>>,
}

impl<'a> View for Buffer<'a> {
    type V = Seq<u8>;

    closed spec fn view(&self) -> Seq<u8> {
        buffer_bytes(self.inner)
    }
}

impl BufferPool {
    /// How many buffers the pool was made with.
    pub closed spec fn size(&self) -> nat {
        pool_size(self.pool)
    }

    /// Whether `outcome` is something that the pool can answer when it is
    /// asked for a buffer: one of its buffers if one is free, else nothing.
    pub closed spec fn answers(&self, outcome: Option<Reusable<Vec<u8>>>) -> bool {
        call_ensures(try_pull, (&self.pool,), outcome)
    }

    /// The pool of a process: `POOL_SIZE` buffers of `BUFFER_CAPACITY` bytes.
    pub fn new() -> (r: BufferPool)
        ensures
            r.size() == POOL_SIZE,
    {
        BufferPool { pool: new_pool(POOL_SIZE, BUFFER_CAPACITY) }
    }

    /// A pool of `size` buffers, each with room for `capacity` bytes.
    pub fn with_size(size: usize, capacity: usize) -> (r: BufferPool)
        ensures
            r.size() == size,
    {
        BufferPool { pool: new_pool(size, capacity) }
    }

    /// Takes a buffer if one is free: the pool is asked once, and there is a
    /// buffer exactly if the pool answers with one. The buffer is empty,
    /// whatever its last user left in it.
    pub fn try_acquire(&self) -> (r: Option<Buffer<'_>>)
        ensures
            exists|outcome: Option<Reusable<Vec<u8>>>|
                #[trigger] self.answers(outcome) && (outcome is Some <==> r is Some),
            r matches Some(buffer) ==> buffer@ == Seq::<u8>::empty(),
    {
        let outcome = try_pull(&self.pool);
        let ghost seen = outcome;
        assert(self.answers(seen));
        match outcome {
            Some(inner) => {
                let mut buffer = Buffer { inner };
                buffer.clear();
                Some(buffer)
            },
            None => None,
        }
    }

    /// Takes a buffer, or reports that the pool is exhausted: the pool is
    /// asked once, and there is a buffer exactly if the pool answers with one.
    /// An exhausted pool is a failure of the runtime: the function instance
    /// has more to do than it can.
    pub fn acquire(&self) -> (r: Result<Buffer<'_>, FunctionError>)
        ensures
            exists|outcome: Option<Reusable<Vec<u8>>>|
                #[trigger] self.answers(outcome) && (outcome is Some <==> r is Ok),
            r matches Ok(buffer) ==> buffer@ == Seq::<u8>::empty(),
            r matches Err(e) ==> is_exhaustion(e),
    {
        acquired(self.try_acquire())
    }
}

impl<'a> Buffer<'a> {
    /// Empties the buffer.
    pub fn clear(&mut self)
        ensures
            final(self)@ == Seq::<u8>::empty(),
    {
        let bytes = buffer_mut(&mut self.inner);
        bytes.clear();
    }

    /// Appends bytes to the buffer.
    pub fn write(&mut self, data: &[u8])
        ensures
            final(self)@ == old(self)@ + data@,
    {
        let bytes = buffer_mut(&mut self.inner);
        let ghost before = bytes@;
        let mut i: usize = 0;
        while i < data.len()
            invariant
                i <= data.len(),
                bytes@ == before + data@.subrange(0, i as int),
            decreases data.len() - i,
        {
            bytes.push(data[i]);
            i = i + 1;
            assert(bytes@ =~= before + data@.subrange(0, i as int));
        }
        assert(data@.subrange(0, i as int) =~= data@);
    }

    /// The bytes in the buffer.
    pub fn bytes(&self) -> (r: &Vec<u8>)
        ensures
            r@ == self@,
    {
        buffer_ref(&self.inner)
    }
}

/// Whether a failure is the one that an exhausted pool is.
pub open spec fn is_exhaustion(e: FunctionError) -> bool {
    e is Other && e.detail() == EXHAUSTED@
}

/// What the pool's answer means for the pipeline: a buffer, or the failure
/// that an exhausted pool is.
pub fn acquired<B>(buffer: Option<B>) -> (r: Result<B, FunctionError>)
    ensures
        buffer matches Some(b) ==> r == Ok::<B, FunctionError>(b),
        buffer is None ==> r is Err && is_exhaustion(r->Err_0),
{
    match buffer {
        Some(b) => Ok(b),
        None => Err(FunctionError::other(EXHAUSTED.to_owned())),
    }
}

/// The failure to read the body of a request: a failure of reading, with the
/// cause after a few words.
pub fn read_failure(cause: &str) -> (r: FunctionError)
    ensures
        r is IO,
        r.detail() == READ_FAILED@ + cause@,
{
    FunctionError::IO { inner: joined(READ_FAILED, cause) }
}

/// The failure to decode the body of a request: a coercion failure that
/// quotes what the codec reported.
pub fn decode_failure(cause: &FunctionError) -> (r: FunctionError)
    ensures
        r is Coercion,
        r.detail() == DECODE_FAILED@ + cause.message_text(),
{
    FunctionError::Coercion { inner: joined(DECODE_FAILED, cause.message().as_str()) }
}

/// The failure of the handler, as the caller is told of it. A failure that
/// the handler reported as its own goes through as it is. Any other becomes
/// invalid input that quotes it, so that the caller sees a client error.
pub fn handler_failure(cause: FunctionError) -> (r: FunctionError)
    ensures
        cause is User ==> r == cause,
        !(cause is User) ==> r is InvalidInput && r.detail() == HANDLER_FAILED@
            + cause.message_text(),
        r.is_user(),
{
    match cause {
        FunctionError::User { inner } => FunctionError::User { inner },
        other => FunctionError::InvalidInput {
            inner: joined(HANDLER_FAILED, other.message().as_str()),
        },
    }
}

/// The failure to encode what the handler returned: a coercion failure that
/// quotes what the codec reported.
pub fn encode_failure(cause: &FunctionError) -> (r: FunctionError)
    ensures
        r is Coercion,
        r.detail() == ENCODE_FAILED@ + cause.message_text(),
{
    FunctionError::Coercion { inner: joined(ENCODE_FAILED, cause.message().as_str()) }
}

/// The logical status of a success: what the handler has set, else `200`.
pub open spec fn success_status(handler: Option<u16>) -> u16 {
    match handler {
        Some(code) => code,
        None => 200,
    }
}

/// What a success holds under `name`, when the handler had set headers that
/// held `given` under that name: the sentinels and the content type have the
/// kit's values, every other name has what the handler gave it.
pub open spec fn success_values(
    given: Seq<Seq<u8>>,
    format: ContentType,
    logical: u16,
    name: Seq<char>,
) -> Seq<Seq<u8>> {
    if name == CONTENT_TYPE_HEADER@ {
        response_values(seq![low_bytes(format.canonical_name())], logical, name)
    } else {
        response_values(given, logical, name)
    }
}

/// Whether a response is the success that a context, a format and a body
/// give.
pub open spec fn is_success_of(
    r: Envelope,
    handler_headers: Map<Seq<char>, Seq<Seq<u8>>>,
    handler_status: Option<u16>,
    format: ContentType,
    body: Seq<u8>,
) -> bool {
    &&& r.status@ == 200
    &&& r.body@ == body
    &&& r.carries_status(success_status(handler_status))
    &&& canonical(pairs(r.headers@))
    &&& forall|name: Seq<char>| #[trigger]
        values_named(pairs(r.headers@), name) == success_values(
            values_in(handler_headers, name),
            format,
            success_status(handler_status),
            name,
        )
}

/// Whether a response is the one that reports a failure, given the status
/// that the handler had set.
pub open spec fn is_failure_of(r: Envelope, e: FunctionError, handler: Option<u16>) -> bool {
    &&& r.status@ == e.outer_status()
    &&& r.body@ == vstd::utf8::encode_utf8(e.message_text())
    &&& pairs(r.headers@) == framed(length_only(r.body@.len()), e.logical_status(handler))
    &&& r.carries_status(e.logical_status(handler))
}

/// Whether a response bears exactly one status header, with a code from 100
/// to 599 in decimal.
pub open spec fn is_enveloped(r: Envelope) -> bool {
    exists|code: u16| 100 <= code <= 599 && #[trigger] r.carries_status(code)
}

/// Whether a failure is the one that an unreadable body is.
pub open spec fn is_read_failure(e: FunctionError, cause: Seq<char>) -> bool {
    e is IO && e.detail() == READ_FAILED@ + cause
}

/// Whether a response is one that the pipeline can end with, for a request
/// that wants its response in `format` and whose body could not be read for
/// the cause `unread`, if any. There are four ways to end. The pool has no
/// buffer left: the response reports that. Or the body could not be read: the
/// response reports that. Or the body could not be decoded, the handler
/// failed, or the result could not be encoded: the response reports a failure
/// of the caller or the handler. Or the response is a success in the format
/// wanted.
pub open spec fn is_outcome(r: Envelope, format: ContentType, unread: Option<Seq<char>>) -> bool {
    ||| exists|e: FunctionError| is_exhaustion(e) && #[trigger] is_failure_of(r, e, None)
    ||| unread is Some && exists|e: FunctionError|
        is_read_failure(e, unread->0) && #[trigger] is_failure_of(r, e, None)
    ||| unread is None && exists|e: FunctionError, status: Option<u16>|
        e.is_user() && is_status(status) && #[trigger] is_failure_of(r, e, status)
    ||| unread is None && exists|given: Map<Seq<char>, Seq<Seq<u8>>>, status: Option<u16>|
        is_status(status) && #[trigger] is_success_of(r, given, status, format, r.body@)
}

/// However the pipeline ends, the response is framed: the outer status is
/// `200` or `502`; every header name is in lower case, and there is exactly
/// one status header, with a code from 100 to 599; the outer status is `502`
/// if and only if the response reports a
/// failure of the runtime, and then the logical status is `500`; and a body
/// that could not be read ends in outer status `502`.
pub proof fn lemma_outcome_enveloped(r: Envelope, format: ContentType, unread: Option<Seq<char>>)
    requires
        is_outcome(r, format, unread),
    ensures
        r.status@ == 200 || r.status@ == 502,
        is_enveloped(r),
        canonical(pairs(r.headers@)),
        r.status@ == 502 <==> exists|e: FunctionError|
            !e.is_user() && #[trigger] is_failure_of(r, e, None),
        r.status@ == 502 ==> r.carries_status(500),
        unread is Some ==> r.status@ == 502,
{
    assert forall|e: FunctionError, status: Option<u16>| #[trigger]
        is_failure_of(r, e, status) implies canonical(pairs(r.headers@)) by {
        lemma_own_names_canonical();
        lemma_canonical_framed(length_only(r.body@.len()), e.logical_status(status));
    }
    if exists|e: FunctionError| is_exhaustion(e) && #[trigger] is_failure_of(r, e, None) {
        let e = choose|e: FunctionError| is_exhaustion(e) && #[trigger] is_failure_of(r, e, None);
        assert(r.carries_status(e.logical_status(None)));
    } else if unread is Some && exists|e: FunctionError|
        is_read_failure(e, unread->0) && #[trigger] is_failure_of(r, e, None) {
        let e = choose|e: FunctionError|
            is_read_failure(e, unread->0) && #[trigger] is_failure_of(r, e, None);
        assert(r.carries_status(e.logical_status(None)));
    } else if unread is None && exists|e: FunctionError, status: Option<u16>|
        e.is_user() && is_status(status) && #[trigger] is_failure_of(r, e, status) {
        let (e, status) = choose|e: FunctionError, status: Option<u16>|
            e.is_user() && is_status(status) && #[trigger] is_failure_of(r, e, status);
        assert(r.carries_status(e.logical_status(status)));
    } else {
        let (given, status) = choose|given: Map<Seq<char>, Seq<Seq<u8>>>, status: Option<u16>|
            is_status(status) && #[trigger] is_success_of(r, given, status, format, r.body@);
        assert(r.carries_status(success_status(status)));
    }
}

/// The name of the content type header is canonical and no sentinel's.
proof fn lemma_content_type_name()
    ensures
        is_canonical_name(CONTENT_TYPE_HEADER@),
        CONTENT_TYPE_HEADER@ != STATUS_HEADER@,
        CONTENT_TYPE_HEADER@ != VERSION_HEADER@,
        CONTENT_TYPE_HEADER@ != RUNTIME_HEADER@,
{
    reveal_strlit("content-type");
    reveal_strlit("fn-http-status");
    reveal_strlit("fn-fdk-version");
    reveal_strlit("fn-fdk-runtime");
    assert(crate::text::lower(CONTENT_TYPE_HEADER@) =~= CONTENT_TYPE_HEADER@);
    assert(CONTENT_TYPE_HEADER@.len() == 12);
    assert(STATUS_HEADER@.len() == 14);
    assert(VERSION_HEADER@.len() == 14);
    assert(RUNTIME_HEADER@.len() == 14);
}

/// The last stage: frames a success. The content type of the response is the
/// canonical name of the format; the logical status is what the handler has
/// set, else `200`; the outer status is `200`. The headers that the handler
/// has set are kept, but for those that bear the name of the content type or
/// of a sentinel.
pub fn emit(ctx: &RuntimeContext, format: ContentType, body: Vec<u8>) -> (r: Envelope)
    ensures
        is_success_of(r, ctx@.response_headers, ctx@.status, format, body@),
        is_status(ctx@.status),
{
    let status = match ctx.get_status_code() {
        Some(status) => status,
        None => StatusCode::ok(),
    };
    let given = listing(Some(ctx.response_headers()));
    let value = text_bytes(format.as_header_value().as_str());
    let typed = set_header(given, CONTENT_TYPE_HEADER, value);
    let r = recoverable(status, Some(body), typed);
    proof {
        let view = ctx@.response_headers;
        let list = pairs(given@);
        let logical = success_status(ctx@.status);
        let content = low_bytes(format.canonical_name());
        lemma_content_type_name();
        lemma_canonical_with_header(list, CONTENT_TYPE_HEADER@, content);
        lemma_canonical_framed(pairs(typed@), logical);
        assert forall|name: Seq<char>| #[trigger]
            values_named(pairs(r.headers@), name) == success_values(
                values_in(view, name),
                format,
                logical,
                name,
            ) by {
            lemma_values_framed(pairs(typed@), logical, name);
            lemma_values_with_header(list, CONTENT_TYPE_HEADER@, content, name);
        }
        assert(r.carries_status(logical));
    }
    r
}

/// Ends the pipeline with the response that reports a failure. A failure of
/// the caller or the handler keeps the status that the handler has set, if
/// that is a status from 400 to 599; which of the two outer statuses the
/// response has depends on the failure alone.
pub fn fail(ctx: &RuntimeContext, e: FunctionError) -> (r: Envelope)
    ensures
        is_failure_of(r, e, ctx@.status),
        is_status(ctx@.status),
{
    e.into_response_with_status(ctx.get_status_code())
}

/// Decodes the body of a request with the decoder that the type has for the
/// given format.
pub fn decode_body<T: InputCoercible>(content_type: ContentType, buffer: &Vec<u8>) -> (r: Result<
    T,
    FunctionError,
>)
    ensures
        r is Err ==> r->Err_0 is Coercion,
        r is Ok ==> T::decodes_to(content_type, buffer@, r->Ok_0),
        T::reads(content_type, buffer@) ==> r is Ok,
{
    match content_type {
        ContentType::JSON => T::try_decode_json(buffer.clone()),
        ContentType::YAML => T::try_decode_yaml(buffer.clone()),
        ContentType::XML => T::try_decode_xml(buffer.clone()),
        ContentType::Plain => T::try_decode_plain(buffer.clone()),
        ContentType::URLEncoded => T::try_decode_urlencoded(buffer.clone()),
    }
}

/// Encodes what the handler returned with the encoder that the type has for
/// the given format.
pub fn encode_body<S: OutputCoercible>(content_type: &ContentType, s: S) -> (r: Result<
    Vec<u8>,
    FunctionError,
>)
    ensures
        r is Err ==> r->Err_0 is Coercion,
        r is Ok ==> s.encodes_to(*content_type, r->Ok_0@),
        s.writes(*content_type) ==> r is Ok,
{
    match content_type {
        ContentType::JSON => S::try_encode_json(s),
        ContentType::YAML => S::try_encode_yaml(s),
        ContentType::XML => S::try_encode_xml(s),
        ContentType::Plain => S::try_encode_plain(s),
        ContentType::URLEncoded => S::try_encode_urlencoded(s),
    }
}

/// Whether a failure is the one that a body which cannot be decoded is: a
/// coercion failure that quotes what the decoder reported.
pub open spec fn is_decode_failure(e: FunctionError, cause: FunctionError) -> bool {
    e is Coercion && e.detail() == DECODE_FAILED@ + cause.message_text()
}

/// Whether a failure is what the caller is told when the handler fails: the
/// failure itself if the handler reported it as its own, else invalid input
/// that quotes it.
pub open spec fn is_handler_failure(e: FunctionError, cause: FunctionError) -> bool {
    if cause is User {
        e == cause
    } else {
        e is InvalidInput && e.detail() == HANDLER_FAILED@ + cause.message_text()
    }
}

/// Whether a failure is the one that a result which cannot be encoded is: a
/// coercion failure that quotes what the encoder reported.
pub open spec fn is_encode_failure(e: FunctionError, cause: FunctionError) -> bool {
    e is Coercion && e.detail() == ENCODE_FAILED@ + cause.message_text()
}

/// Whether a response is what the outcome of the encoder asks for: a success
/// with the bytes that the encoder wrote as its body, or the report of the
/// failure to encode.
pub open spec fn is_encoded(
    r: Envelope,
    handler_headers: Map<Seq<char>, Seq<Seq<u8>>>,
    handler_status: Option<u16>,
    format: ContentType,
    outcome: Result<Vec<u8>, FunctionError>,
) -> bool {
    match outcome {
        Ok(bytes) => is_success_of(r, handler_headers, handler_status, format, bytes@),
        Err(cause) => exists|e: FunctionError| #[trigger]
            is_encode_failure(e, cause) && is_failure_of(r, e, handler_status),
    }
}

/// Whether a response is what the result of the handler asks for, for a
/// request that wants its response in `format`. A failure of the handler is
/// reported. What the handler returns is encoded in `format` with the encoder
/// of its type: if that succeeds, and it does where the type is bound to
/// encode the value, the response is a success with the encoding as its body;
/// if not, the failure to encode is reported.
pub open spec fn is_finished<S: OutputCoercible>(
    r: Envelope,
    handler_headers: Map<Seq<char>, Seq<Seq<u8>>>,
    handler_status: Option<u16>,
    format: ContentType,
    result: Result<S, FunctionError>,
) -> bool {
    match result {
        Err(cause) => exists|e: FunctionError| #[trigger]
            is_handler_failure(e, cause) && is_failure_of(r, e, handler_status),
        Ok(output) => {
            ||| (exists|body: Seq<u8>| #[trigger]
                output.encodes_to(format, body) && is_success_of(
                    r,
                    handler_headers,
                    handler_status,
                    format,
                    body,
                ))
            ||| (!output.writes(format) && (exists|cause: FunctionError, e: FunctionError|
                cause is Coercion && #[trigger] is_encode_failure(e, cause) && is_failure_of(
                    r,
                    e,
                    handler_status,
                )))
        },
    }
}

/// The first stage: a request is admitted if the pool had a buffer for it and
/// its body could be read. If not, the pipeline ends with the report of the
/// exhausted pool, or else of the body that could not be read.
pub fn admitted<B>(
    ctx: &RuntimeContext,
    buffer: Result<B, FunctionError>,
    body: Result<Vec<u8>, String>,
) -> (r: Result<(B, Vec<u8>), Envelope>)
    ensures
        buffer matches Err(e) ==> r is Err && is_failure_of(r->Err_0, e, ctx@.status),
        buffer is Ok && body is Err ==> (r is Err && (exists|e: FunctionError|
            is_read_failure(e, body->Err_0@) && #[trigger] is_failure_of(
                r->Err_0,
                e,
                ctx@.status,
            ))),
        buffer is Ok && body is Ok ==> r == Ok::<(B, Vec<u8>), Envelope>(
            (buffer->Ok_0, body->Ok_0),
        ),
{
    let buffer = match buffer {
        Ok(buffer) => buffer,
        Err(e) => {
            return Err(fail(ctx, e));
        },
    };
    match body {
        Ok(data) => Ok((buffer, data)),
        Err(cause) => {
            let e = read_failure(cause.as_str());
            let ghost told = e;
            let r = fail(ctx, e);
            let out = Err(r);
            assert(is_read_failure(told, cause@) && is_failure_of(out->Err_0, told, ctx@.status));
            out
        },
    }
}

/// The stage after the decoder: what was decoded goes on to the handler; a
/// body that could not be decoded ends the pipeline with the report of that.
pub fn decoded<T>(ctx: &RuntimeContext, outcome: Result<T, FunctionError>) -> (r: Result<
    T,
    Envelope,
>)
    ensures
        outcome is Ok ==> r == Ok::<T, Envelope>(outcome->Ok_0),
        outcome is Err ==> (r is Err && (exists|e: FunctionError| #[trigger]
            is_decode_failure(e, outcome->Err_0) && is_failure_of(r->Err_0, e, ctx@.status))),
{
    match outcome {
        Ok(value) => Ok(value),
        Err(cause) => {
            let e = decode_failure(&cause);
            let r = fail(ctx, e);
            assert(is_decode_failure(e, cause) && is_failure_of(r, e, ctx@.status));
            Err(r)
        },
    }
}

/// The stage after the encoder: what was encoded is the body of a success; a
/// result that could not be encoded ends the pipeline with the report of
/// that.
pub fn encoded(ctx: &RuntimeContext, format: ContentType, outcome: Result<Vec<u8>, FunctionError>) -> (r:
    Envelope)
    ensures
        is_encoded(r, ctx@.response_headers, ctx@.status, format, outcome),
        is_status(ctx@.status),
{
    match outcome {
        Ok(bytes) => emit(ctx, format, bytes),
        Err(cause) => {
            let e = encode_failure(&cause);
            let r = fail(ctx, e);
            assert(is_encode_failure(e, cause) && is_failure_of(r, e, ctx@.status));
            r
        },
    }
}

/// The stages after the handler: its failure is reported, and what it returns
/// is encoded in the format that the request wants and framed as a success,
/// with the status and the headers that the handler has set in the context.
pub fn finish<S: OutputCoercible>(
    ctx: &RuntimeContext,
    format: ContentType,
    result: Result<S, FunctionError>,
) -> (r: Envelope)
    ensures
        is_finished(r, ctx@.response_headers, ctx@.status, format, result),
        is_status(ctx@.status),
{
    match result {
        Ok(output) => {
            let outcome = encode_body(&format, output);
            let r = encoded(ctx, format, outcome);
            proof {
                if outcome is Ok {
                    assert(output.encodes_to(format, outcome->Ok_0@));
                } else {
                    let e = choose|e: FunctionError| #[trigger]
                        is_encode_failure(e, outcome->Err_0) && is_failure_of(r, e, ctx@.status);
                    assert(is_encode_failure(e, outcome->Err_0));
                }
            }
            r
        },
        Err(cause) => {
            let e = handler_failure(cause);
            let r = fail(ctx, e);
            assert(is_handler_failure(e, cause) && is_failure_of(r, e, ctx@.status));
            r
        },
    }
}

/// What a request is served with. The handler says in `answers` what it may
/// do to the context and return for a value, and in `ready` whether it can be
/// called at all.
pub trait Handler<T, S> {
    /// Whether the handler can be called, whatever the context and the value.
    open spec fn ready(&self) -> bool {
        true
    }

    /// Whether, called with the context `before` and the value `arg`, the
    /// handler may leave the context as `after` and return `result`. A
    /// handler that says nothing of itself may answer anything.
    open spec fn answers(
        &self,
        before: RuntimeContext,
        arg: T,
        after: RuntimeContext,
        result: Result<S, FunctionError>,
    ) -> bool {
        true
    }

    fn call(&self, ctx: &mut RuntimeContext, arg: T) -> (r: Result<S, FunctionError>)
        requires
            self.ready(),
        ensures
            self.answers(*old(ctx), arg, *final(ctx), r),
    ;
}

/// A function as a handler. Nothing is known of what a function does, so it
/// may answer anything.
pub struct Plain<F> {
    pub function: F,
}

impl<T, S, F: Fn(&mut RuntimeContext, T) -> Result<S, FunctionError>> Handler<T, S> for Plain<F> {
    open spec fn ready(&self) -> bool {
        forall|ctx: &mut RuntimeContext, arg: T| #[trigger] call_requires(self.function, (ctx, arg))
    }

    fn call(&self, ctx: &mut RuntimeContext, arg: T) -> (r: Result<S, FunctionError>) {
        (self.function)(ctx, arg)
    }
}

/// Whether a response is what serving a request with the body `data` asks
/// for, where `view` is the context of the request. Either the type is not
/// bound to decode the body in the content type of the request, and the
/// response reports that it could not be decoded. Or the body decodes to a
/// value, the handler is called with the context of the request and that
/// value, and the response is what its result asks for in the format that the
/// request wants back, with the context as the handler left it.
pub open spec fn is_served<T: InputCoercible, S: OutputCoercible, H: Handler<T, S>>(
    r: Envelope,
    handler: H,
    view: ContextView,
    data: Seq<u8>,
) -> bool {
    ||| (!T::reads(view.content_type, data) && (exists|cause: FunctionError, e: FunctionError|
        cause is Coercion && #[trigger] is_decode_failure(e, cause) && is_failure_of(r, e, None)))
    ||| exists|before: RuntimeContext, value: T, after: RuntimeContext, result: Result<S, FunctionError>|
        before@ == view && T::decodes_to(view.content_type, data, value) && #[trigger] handler.answers(
            before,
            value,
            after,
            result,
        ) && is_status(after@.status) && is_finished(
            r,
            after@.response_headers,
            after@.status,
            view.accept_type,
            result,
        )
}

/// Whether a response is what handling a request asks for, where `view` is
/// the context of the request, `has_buffer` tells whether the pool had a
/// buffer for it, and `body` is its body or why it could not be read. Without
/// a buffer the response reports the exhausted pool, and nothing else is
/// done. With a buffer and without a body the response reports that the body
/// could not be read. Else the request is served.
pub open spec fn is_handled<T: InputCoercible, S: OutputCoercible, H: Handler<T, S>>(
    r: Envelope,
    handler: H,
    view: ContextView,
    has_buffer: bool,
    body: Result<Vec<u8>, String>,
) -> bool {
    if !has_buffer {
        exists|e: FunctionError| is_exhaustion(e) && #[trigger] is_failure_of(r, e, None)
    } else {
        match body {
            Err(cause) => exists|e: FunctionError|
                is_read_failure(e, cause@) && #[trigger] is_failure_of(r, e, None),
            Ok(data) => is_served::<T, S, H>(r, handler, view, data@),
        }
    }
}

/// Why the body of a request could not be read, if it could not.
pub open spec fn cause_of(body: Result<Vec<u8>, String>) -> Option<Seq<char>> {
    match body {
        Ok(_) => None,
        Err(cause) => Some(cause@),
    }
}

/// A response that handling a request asks for is one of the four ends of the
/// pipeline.
pub proof fn lemma_handled_is_outcome<T: InputCoercible, S: OutputCoercible, H: Handler<T, S>>(
    r: Envelope,
    handler: H,
    view: ContextView,
    has_buffer: bool,
    body: Result<Vec<u8>, String>,
)
    requires
        is_handled::<T, S, H>(r, handler, view, has_buffer, body),
    ensures
        is_outcome(r, view.accept_type, cause_of(body)),
{
    if has_buffer && body is Ok {
        let data = body->Ok_0@;
        if !T::reads(view.content_type, data) && (exists|cause: FunctionError, e: FunctionError|
            cause is Coercion && #[trigger] is_decode_failure(e, cause) && is_failure_of(
                r,
                e,
                None,
            )) {
            let (cause, e) = choose|cause: FunctionError, e: FunctionError|
                cause is Coercion && #[trigger] is_decode_failure(e, cause) && is_failure_of(
                    r,
                    e,
                    None,
                );
            assert(e.is_user() && is_status(None) && is_failure_of(r, e, None));
        } else {
            let (before, value, after, result) = choose|
                before: RuntimeContext,
                value: T,
                after: RuntimeContext,
                result: Result<S, FunctionError>,
            |
                before@ == view && T::decodes_to(view.content_type, data, value)
                    && #[trigger] handler.answers(before, value, after, result) && is_status(
                    after@.status,
                ) && is_finished(
                    r,
                    after@.response_headers,
                    after@.status,
                    view.accept_type,
                    result,
                );
            let status = after@.status;
            match result {
                Err(cause) => {
                    let e = choose|e: FunctionError| #[trigger]
                        is_handler_failure(e, cause) && is_failure_of(r, e, status);
                    assert(e.is_user() && is_status(status) && is_failure_of(r, e, status));
                },
                Ok(output) => {
                    if exists|body: Seq<u8>| #[trigger]
                        output.encodes_to(view.accept_type, body) && is_success_of(
                            r,
                            after@.response_headers,
                            status,
                            view.accept_type,
                            body,
                        ) {
                        let bytes = choose|body: Seq<u8>| #[trigger]
                            output.encodes_to(view.accept_type, body) && is_success_of(
                                r,
                                after@.response_headers,
                                status,
                                view.accept_type,
                                body,
                            );
                        assert(is_status(status) && is_success_of(
                            r,
                            after@.response_headers,
                            status,
                            view.accept_type,
                            r.body@,
                        ));
                    } else {
                        let (cause, e) = choose|cause: FunctionError, e: FunctionError|
                            cause is Coercion && #[trigger] is_encode_failure(e, cause)
                                && is_failure_of(r, e, status);
                        assert(e.is_user() && is_status(status) && is_failure_of(r, e, status));
                    }
                },
            }
        }
    }
}

/// The entry to the kit: it takes a handler and serves requests with it.
pub struct Function;

impl Function {
    /// Handles one request with a function. `headers` are those of the
    /// request; `body` is its body, or what went wrong when it was read.
    ///
    /// Every request gets a response, and every response is framed. The pool
    /// is asked for a buffer once; without one the response reports the
    /// exhausted pool, with outer status `502` and logical status `500`, and
    /// so does an unreadable body. Else the body is decoded in the content
    /// type of the request, the function is called with the context of the
    /// request and the decoded value, and what it returns is encoded in the
    /// format that the request wants back. A body that cannot be decoded, a
    /// function that fails and a result that cannot be encoded end in outer
    /// status `200` with a logical status from 400 to 599; a success has the
    /// status that the function has set, else `200`.
    pub fn handle<T, S, F>(
        function: &F,
        pool: &BufferPool,
        config: Arc<Config>,
        headers: &HeaderMap<HeaderValue>,
        body: Result<Vec<u8>, String>,
    ) -> (r: Envelope) where
        T: InputCoercible,
        S: OutputCoercible,
        F: Fn(&mut RuntimeContext, T) -> Result<S, FunctionError>,

        requires
            forall|ctx: &mut RuntimeContext, arg: T| #[trigger] call_requires(function, (ctx, arg)),
        ensures
            exists|answer: Option<Reusable<Vec<u8>>>| #[trigger]
                pool.answers(answer) && is_handled::<T, S, Plain<&F>>(
                    r,
                    (Plain { function }),
                    context_of(config@, header_view(*headers)),
                    answer is Some,
                    body,
                ),
            is_outcome(r, context_of(config@, header_view(*headers)).accept_type, cause_of(body)),
            r.status@ == 200 || r.status@ == 502,
            is_enveloped(r),
            canonical(pairs(r.headers@)),
            r.status@ == 502 ==> r.carries_status(500),
            body is Err ==> r.status@ == 502,
    {
        let handler = Plain { function };
        Self::handle_with::<T, S, Plain<&F>>(&handler, pool, config, headers, body)
    }

    /// Handles one request with a handler that says what it does. This is
    /// `handle`, with the response tied to what the handler answers.
    pub fn handle_with<T, S, H>(
        handler: &H,
        pool: &BufferPool,
        config: Arc<Config>,
        headers: &HeaderMap<HeaderValue>,
        body: Result<Vec<u8>, String>,
    ) -> (r: Envelope) where T: InputCoercible, S: OutputCoercible, H: Handler<T, S>
        requires
            handler.ready(),
        ensures
            exists|answer: Option<Reusable<Vec<u8>>>| #[trigger]
                pool.answers(answer) && is_handled::<T, S, H>(
                    r,
                    *handler,
                    context_of(config@, header_view(*headers)),
                    answer is Some,
                    body,
                ),
            is_outcome(r, context_of(config@, header_view(*headers)).accept_type, cause_of(body)),
            r.status@ == 200 || r.status@ == 502,
            is_enveloped(r),
            canonical(pairs(r.headers@)),
            r.status@ == 502 ==> r.carries_status(500),
            body is Err ==> r.status@ == 502,
    {
        let ghost view = context_of(config@, header_view(*headers));
        let mut ctx = RuntimeContext::from_req(config, headers);
        let format = ctx.accept_type();
        let buffer = pool.acquire();
        let ghost answer = choose|answer: Option<Reusable<Vec<u8>>>| #[trigger]
            pool.answers(answer) && (answer is Some <==> buffer is Ok);
        let r = match admitted(&ctx, buffer, body) {
            Err(r) => r,
            Ok((mut buffer, data)) => {
                buffer.write(data.as_slice());
                let outcome = decode_body::<T>(ctx.content_type(), buffer.bytes());
                buffer.clear();
                match decoded(&ctx, outcome) {
                    Err(r) => {
                        proof {
                            let e = choose|e: FunctionError| #[trigger]
                                is_decode_failure(e, outcome->Err_0) && is_failure_of(r, e, None);
                            assert(outcome->Err_0 is Coercion && is_decode_failure(
                                e,
                                outcome->Err_0,
                            ));
                        }
                        r
                    },
                    Ok(value) => {
                        let ghost before = ctx;
                        let result = handler.call(&mut ctx, value);
                        let r = finish(&ctx, format, result);
                        assert(handler.answers(before, value, ctx, result));
                        r
                    },
                }
            },
        };
        proof {
            assert(is_handled::<T, S, H>(r, *handler, view, answer is Some, body));
            lemma_handled_is_outcome::<T, S, H>(r, *handler, view, answer is Some, body);
            lemma_outcome_enveloped(r, view.accept_type, cause_of(body));
        }
        r
    }
}

} // verus!
