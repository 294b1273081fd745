//! The context of one invocation.
//!
//! A context is made from the headers of a request and from the configuration
//! of the process. It tells the handler what the request was, and collects
//! what the handler wants the response to say: headers and a status.

use crate::coercions::ContentType;
use crate::errors::FunctionError;
use crate::headers::clone_map;
use crate::headers::first;
use crate::headers::first_value;
use crate::headers::header_view;
use crate::headers::holds_many;
use crate::headers::is_header_name;
use crate::headers::is_header_value;
use crate::headers::list;
use crate::headers::lists;
use crate::headers::new_map;
use crate::headers::no_headers;
use crate::headers::pairs;
use crate::headers::remove;
use crate::headers::try_insert;
use crate::headers::values_named;
use crate::headers::InsertError;
use crate::text::has_prefix;
use crate::text::latin1;
use crate::text::latin1_text;
use crate::text::lower;
use crate::text::option_view;
use crate::text::starts_with;
use crate::utils::code_of;
use crate::utils::is_status;
use crate::utils::StatusCode;
use hyper::header::HeaderValue;
use hyper::HeaderMap;
use std::sync::Arc;
use vstd::hash_map::StringHashMap;
use vstd::prelude::*;

verus! {

/// The header that names the format of the body.
pub const CONTENT_TYPE_HEADER: &'static str = "content-type";

/// The header that names the format wanted back.
pub const ACCEPT_HEADER: &'static str = "accept";

/// The `Accept` header of the original request, as the platform passes it on.
pub const PROXIED_ACCEPT_HEADER: &'static str = "fn-http-h-accept";

/// The beginning of the names under which the platform passes the headers of
/// the original request on.
pub const PROXIED_PREFIX: &'static str = "fn-http-h-";

/// The header that tells what kind of request this is.
pub const INTENT_HEADER: &'static str = "fn-intent";

/// The intent of a request that stands for an HTTP request.
pub const HTTP_REQUEST_INTENT: &'static str = "httprequest";

/// The header with the method of the original request.
pub const METHOD_HEADER: &'static str = "fn-http-method";

/// The header with the URL of the original request.
pub const URL_HEADER: &'static str = "fn-http-request-url";

/// The header with the identifier of the call.
pub const CALL_ID_HEADER: &'static str = "fn-call-id";

/// The name under which the configuration has the identifier of the
/// application.
pub const APP_ID: &'static str = "FN_APP_ID";

/// The name under which the configuration has the identifier of the function.
pub const FUNCTION_ID: &'static str = "FN_FN_ID";

/// The name under which the configuration has the name of the application.
pub const APP_NAME: &'static str = "FN_APP_NAME";

/// The name under which the configuration has the name of the function.
pub const FUNCTION_NAME: &'static str = "FN_FN_NAME";

/// What is said of a header name that is refused.
pub const BAD_HEADER_NAME: &'static str = "Invalid header name";

/// What is said of a header value that is refused.
pub const BAD_HEADER_VALUE: &'static str = "Invalid header value";

/// What is said when the map of headers refuses to grow.
pub const TOO_MANY_HEADERS: &'static str = "Too many headers";

/// What is said of a status that is refused.
pub const BAD_STATUS: &'static str = "Invalid http code added";

/// The configuration of the process: names and values, none of them empty.
/// It is made once and never changes.
pub struct Config {
    entries: StringHashMap<String>,
}

impl View for Config {
    type V = Map<Seq<char>, Seq<char>>;

    closed spec fn view(&self) -> Map<Seq<char>, Seq<char>> {
        self.entries@.map_values(|v: String| v@)
    }
}

/// The plain values of a list of variables.
pub open spec fn variables(vars: Seq<(String, String)>) -> Seq<(Seq<char>, Seq<char>)> {
    vars.map_values(|v: (String, String)| (v.0@, v.1@))
}

/// The configuration that a list of variables gives: every variable with a
/// value that is not empty, a later one before an earlier one of the same
/// name.
pub open spec fn config_of(vars: Seq<(Seq<char>, Seq<char>)>) -> Map<Seq<char>, Seq<char>>
    decreases vars.len(),
{
    if vars.len() == 0 {
        Map::empty()
    } else if vars.last().1.len() == 0 {
        config_of(vars.drop_last())
    } else {
        config_of(vars.drop_last()).insert(vars.last().0, vars.last().1)
    }
}

/// What the configuration says under a name; nothing is the empty text.
pub open spec fn setting(config: Map<Seq<char>, Seq<char>>, name: Seq<char>) -> Seq<char> {
    if config.dom().contains(name) {
        config[name]
    } else {
        Seq::empty()
    }
}

impl Config {
    /// The configuration that the variables of the environment give. A
    /// variable with an empty value is left out.
    pub fn from_vars(vars: Vec<(String, String)>) -> (r: Config)
        ensures
            r@ == config_of(variables(vars@)),
    {
        let mut entries: StringHashMap<String> = StringHashMap::new();
        let mut i: usize = 0;
        assert(variables(vars@).subrange(0, 0) =~= Seq::empty());
        assert(entries@.map_values(|v: String| v@) =~= Map::empty());
        while i < vars.len()
            invariant
                i <= vars.len(),
                entries@.map_values(|v: String| v@) == config_of(
                    variables(vars@).subrange(0, i as int),
                ),
            decreases vars.len() - i,
        {
            let ghost before = variables(vars@).subrange(0, i as int);
            let ghost after = variables(vars@).subrange(0, i + 1);
            proof {
                assert(after.drop_last() =~= before);
                assert(after.last() == (vars@[i as int].0@, vars@[i as int].1@));
            }
            let name = vars[i].0.clone();
            let value = vars[i].1.clone();
            if !value.as_str().is_empty() {
                let ghost old_entries = entries@;
                entries.insert(name, value);
                assert(entries@.map_values(|v: String| v@) =~= old_entries.map_values(
                    |v: String| v@,
                ).insert(name@, value@));
            }
            i = i + 1;
        }
        assert(variables(vars@).subrange(0, i as int) =~= variables(vars@));
        Config { entries }
    }

    /// The value under a name, if there is one.
    pub fn get(&self, name: &str) -> (r: Option<String>)
        ensures
            r.is_some() == self@.dom().contains(name@),
            r.is_some() ==> r.unwrap()@ == self@[name@],
    {
        match self.entries.get(name) {
            Some(value) => Some(value.clone()),
            None => None,
        }
    }

    /// The value under a name, or the empty text.
    pub fn get_or_empty(&self, name: &str) -> (r: String)
        ensures
            r@ == setting(self@, name@),
    {
        match self.entries.get(name) {
            Some(value) => value.clone(),
            None => String::new(),
        }
    }
}

/// The characters a method is made of.
pub open spec fn is_method_char(c: char) -> bool {
    ||| 'a' <= c <= 'z'
    ||| 'A' <= c <= 'Z'
    ||| '0' <= c <= '9'
    ||| c == '!'
    ||| c == '*'
    ||| c == '+'
    ||| c == '-'
    ||| c == '.'
    ||| c == '^'
    ||| c == '_'
    ||| c == '`'
    ||| c == '|'
    ||| c == '~'
}

/// Whether `text` can be an HTTP method: not empty, and made of method
/// characters only.
pub open spec fn is_method(text: Seq<char>) -> bool {
    &&& text.len() > 0
    &&& forall|i: int| 0 <= i < text.len() ==> is_method_char(#[trigger] text[i])
}

/// Whether `hyper::Uri` accepts `text` as a URI.
pub uninterp spec fn uri_parses(text: Seq<char>) -> bool;

/// `hyper::Method::from_bytes` on the bytes of the text: it accepts a text
/// that is not empty and made of method characters only, and nothing else.
#[verifier::external_body]
fn parses_as_method(text: &str) -> (r: bool)
    ensures
        r == is_method(text@),
{
    hyper::Method::from_bytes(text.as_bytes()).is_ok()
}

/// `hyper::Uri`'s `FromStr`: whether it accepts the text is given its name.
#[verifier::external_body]
fn parses_as_uri(text: &str) -> (r: bool)
    ensures
        r == uri_parses(text@),
{
    text.parse::<hyper::Uri>().is_ok()
}

/// Whether every byte is a visible ASCII character, a space or a tab: what a
/// header value must be made of to be read as text.
pub open spec fn is_visible(bytes: Seq<u8>) -> bool {
    forall|i: int| 0 <= i < bytes.len() ==> is_visible_byte(#[trigger] bytes[i])
}

/// A visible ASCII character, a space or a tab.
pub open spec fn is_visible_byte(b: u8) -> bool {
    (32 <= b < 127) || b == 9
}

/// The format that the value of a content type header selects. No header, or
/// one that is not text, selects JSON.
pub open spec fn resolved(value: Option<Seq<u8>>) -> ContentType {
    match value {
        Some(bytes) => if is_visible(bytes) {
            ContentType::named(latin1(bytes))
        } else {
            ContentType::JSON
        },
        None => ContentType::JSON,
    }
}

/// The header that says which format is wanted back: the `Accept` header of
/// the original request if the platform passed one on, else the `Accept`
/// header of this request.
pub open spec fn accept_value(inbound: Map<Seq<char>, Seq<Seq<u8>>>) -> Option<Seq<u8>> {
    if first_value(inbound, PROXIED_ACCEPT_HEADER@).is_some() {
        first_value(inbound, PROXIED_ACCEPT_HEADER@)
    } else {
        first_value(inbound, ACCEPT_HEADER@)
    }
}

/// Whether the request stands for an HTTP request, so that only the headers
/// of the original request are of interest.
pub open spec fn is_http_request(inbound: Map<Seq<char>, Seq<Seq<u8>>>) -> bool {
    first_value(inbound, INTENT_HEADER@) matches Some(intent) && latin1(intent)
        == HTTP_REQUEST_INTENT@
}

/// Whether a header of a request that stands for an HTTP request is kept:
/// the content type, and what the platform passed on of the original request.
pub open spec fn keeps(name: Seq<char>) -> bool {
    name == CONTENT_TYPE_HEADER@ || has_prefix(name, PROXIED_PREFIX@)
}

/// The headers that the context keeps of those that came in.
pub open spec fn retained(inbound: Map<Seq<char>, Seq<Seq<u8>>>) -> Map<Seq<char>, Seq<Seq<u8>>> {
    if is_http_request(inbound) {
        inbound.restrict(Set::new(|name: Seq<char>| keeps(name)))
    } else {
        inbound
    }
}

/// The text of a header if it is a method.
pub open spec fn method_of(value: Option<Seq<u8>>) -> Option<Seq<char>> {
    match value {
        Some(bytes) => if is_method(latin1(bytes)) {
            Some(latin1(bytes))
        } else {
            None
        },
        None => None,
    }
}

/// The text of a header if it is a URI.
pub open spec fn uri_of(value: Option<Seq<u8>>) -> Option<Seq<char>> {
    match value {
        Some(bytes) => if uri_parses(latin1(bytes)) {
            Some(latin1(bytes))
        } else {
            None
        },
        None => None,
    }
}

/// The text of a header, empty if there is no header or if it is not text.
pub open spec fn text_or_empty(value: Option<Seq<u8>>) -> Seq<char> {
    match value {
        Some(bytes) => if is_visible(bytes) {
            latin1(bytes)
        } else {
            Seq::empty()
        },
        None => Seq::empty(),
    }
}

/// What a context holds.
pub struct ContextView {
    pub config: Map<Seq<char>, Seq<char>>,
    pub headers: Map<Seq<char>, Seq<Seq<u8>>>,
    pub method: Option<Seq<char>>,
    pub content_type: ContentType,
    pub accept_type: ContentType,
    pub uri: Option<Seq<char>>,
    pub call_id: Seq<char>,
    pub response_headers: Map<Seq<char>, Seq<Seq<u8>>>,
    pub status: Option<u16>,
}

/// The context of a request with the given headers, in a process with the
/// given configuration. The formats, the method, the URL and the identifier of
/// the call are those that the request itself names, whichever of its headers
/// the context keeps.
pub open spec fn context_of(
    config: Map<Seq<char>, Seq<char>>,
    inbound: Map<Seq<char>, Seq<Seq<u8>>>,
) -> ContextView {
    ContextView {
        config,
        headers: retained(inbound),
        method: method_of(first_value(inbound, METHOD_HEADER@)),
        content_type: resolved(first_value(inbound, CONTENT_TYPE_HEADER@)),
        accept_type: resolved(accept_value(inbound)),
        uri: uri_of(first_value(inbound, URL_HEADER@)),
        call_id: text_or_empty(first_value(inbound, CALL_ID_HEADER@)),
        response_headers: no_headers(),
        status: None,
    }
}

/// The context of one invocation: what the request said, and what the handler
/// wants the response to say.
pub struct RuntimeContext {
    config: Arc<Config>,
    headers: HeaderMap<HeaderValue>,
    method: Option<String>,
    content_type: ContentType,
    accept_type: ContentType,
    uri: Option<String>,
    call_id: String,
    response_headers: HeaderMap<HeaderValue>,
    response_status_code: Option<StatusCode>,
}

impl View for RuntimeContext {
    type V = ContextView;

    closed spec fn view(&self) -> ContextView {
        ContextView {
            config: self.config@,
            headers: header_view(self.headers),
            method: option_view(self.method),
            content_type: self.content_type,
            accept_type: self.accept_type,
            uri: option_view(self.uri),
            call_id: self.call_id@,
            response_headers: header_view(self.response_headers),
            status: code_of(self.response_status_code),
        }
    }
}

impl Clone for RuntimeContext {
    /// A context that holds what this one holds, in the same process.
    fn clone(&self) -> (r: Self)
        ensures
            r@ == self@,
    {
        RuntimeContext {
            config: self.config.clone(),
            headers: clone_map(&self.headers),
            method: self.method.clone(),
            content_type: self.content_type,
            accept_type: self.accept_type,
            uri: self.uri.clone(),
            call_id: self.call_id.clone(),
            response_headers: clone_map(&self.response_headers),
            response_status_code: self.response_status_code,
        }
    }
}

/// Keeps a text that its parser accepted, and drops one that it refused.
pub fn accepted_text(text: String, accepted: bool) -> (r: Option<String>)
    ensures
        accepted ==> r == Some(text),
        !accepted ==> r is None,
{
    if accepted {
        Some(text)
    } else {
        None
    }
}

/// Tests whether a header value can be read as text.
fn visible(bytes: &[u8]) -> (r: bool)
    ensures
        r == is_visible(bytes@),
{
    let mut i: usize = 0;
    while i < bytes.len()
        invariant
            i <= bytes.len(),
            forall|j: int| 0 <= j < i ==> is_visible_byte(#[trigger] bytes@[j]),
        decreases bytes.len() - i,
    {
        let b = bytes[i];
        if !((32 <= b && b < 127) || b == 9) {
            return false;
        }
        i = i + 1;
    }
    true
}

/// Selects the format that a content type header names.
fn resolve_content_type(value: &Option<Vec<u8>>) -> (r: ContentType)
    ensures
        r == resolved(bytes_of(*value)),
{
    match value {
        Some(bytes) => {
            if visible(bytes.as_slice()) {
                ContentType::from_str(latin1_text(bytes.as_slice()).as_str())
            } else {
                ContentType::JSON
            }
        },
        None => ContentType::JSON,
    }
}

/// Optional bytes as a sequence.
pub open spec fn bytes_of(value: Option<Vec<u8>>) -> Option<Seq<u8>> {
    match value {
        Some(bytes) => Some(bytes@),
        None => None,
    }
}

/// Finds the header that says which format is wanted back.
fn get_accept_header_value(headers: &HeaderMap<HeaderValue>) -> (r: Option<Vec<u8>>)
    ensures
        bytes_of(r) == accept_value(header_view(*headers)),
{
    let proxied = first(headers, PROXIED_ACCEPT_HEADER);
    if proxied.is_some() {
        proxied
    } else {
        first(headers, ACCEPT_HEADER)
    }
}

/// Looks a header up and hands its first value out.
fn lookup(headers: &HeaderMap<HeaderValue>, name: &str) -> (r: Option<Vec<u8>>)
    ensures
        bytes_of(r) == first_value(header_view(*headers), name@),
{
    first(headers, name)
}

/// Tests whether a header of a request that stands for an HTTP request is
/// kept.
fn keeps_name(name: &str) -> (r: bool)
    ensures
        r == keeps(name@),
{
    *name == *CONTENT_TYPE_HEADER || starts_with(name, PROXIED_PREFIX)
}

/// Whether `view` is what is left of `inbound` once the headers in `seen`
/// that are not kept have been taken out.
pub open spec fn partly_retained(
    view: Map<Seq<char>, Seq<Seq<u8>>>,
    inbound: Map<Seq<char>, Seq<Seq<u8>>>,
    seen: Seq<(Seq<char>, Seq<u8>)>,
) -> bool {
    &&& forall|name: Seq<char>| #[trigger]
        view.dom().contains(name) == (inbound.dom().contains(name) && (keeps(name) || values_named(
            seen,
            name,
        ).len() == 0))
    &&& forall|name: Seq<char>| view.dom().contains(name) ==> #[trigger] view[name] == inbound[name]
}

/// One more header seen: if it is not kept, its name leaves the view.
proof fn lemma_retain_step(
    view: Map<Seq<char>, Seq<Seq<u8>>>,
    inbound: Map<Seq<char>, Seq<Seq<u8>>>,
    seen: Seq<(Seq<char>, Seq<u8>)>,
    next: (Seq<char>, Seq<u8>),
)
    requires
        partly_retained(view, inbound, seen),
    ensures
        keeps(next.0) ==> partly_retained(view, inbound, seen.push(next)),
        !keeps(next.0) ==> partly_retained(view.remove(next.0), inbound, seen.push(next)),
{
    let after = seen.push(next);
    assert(after.drop_last() =~= seen);
    let now = if keeps(next.0) {
        view
    } else {
        view.remove(next.0)
    };
    assert forall|name: Seq<char>| #[trigger]
        now.dom().contains(name) == (inbound.dom().contains(name) && (keeps(name) || values_named(
            after,
            name,
        ).len() == 0)) by {
        assert(view.dom().contains(name) == (inbound.dom().contains(name) && (keeps(name)
            || values_named(seen, name).len() == 0)));
        if name == next.0 {
            assert(values_named(after, name) == values_named(seen, name).push(next.1));
        } else {
            assert(values_named(after, name) == values_named(seen, name));
        }
    }
    assert forall|name: Seq<char>| now.dom().contains(name) implies #[trigger] now[name]
        == inbound[name] by {
        assert(view.dom().contains(name));
    }
}

/// Once every header has been seen, what is left is what is kept.
proof fn lemma_retain_done(
    view: Map<Seq<char>, Seq<Seq<u8>>>,
    inbound: Map<Seq<char>, Seq<Seq<u8>>>,
    all: Seq<(Seq<char>, Seq<u8>)>,
)
    requires
        partly_retained(view, inbound, all),
        lists(all, inbound),
    ensures
        view == inbound.restrict(Set::new(|name: Seq<char>| keeps(name))),
{
    let wanted = inbound.restrict(Set::new(|name: Seq<char>| keeps(name)));
    assert forall|name: Seq<char>| view.dom().contains(name) == wanted.dom().contains(name) by {
        assert(inbound.dom().contains(name) <==> values_named(all, name).len() > 0);
    }
    assert(view =~= wanted);
}

/// The headers that a context keeps of a request that stands for an HTTP
/// request.
fn retain_proxied(headers: &HeaderMap<HeaderValue>) -> (r: HeaderMap<HeaderValue>)
    ensures
        header_view(r) == header_view(*headers).restrict(Set::new(|name: Seq<char>| keeps(name))),
{
    let mut kept = clone_map(headers);
    let all = list(headers);
    let ghost inbound = header_view(*headers);
    let mut i: usize = 0;
    assert(pairs(all@).subrange(0, 0) =~= Seq::empty());
    while i < all.len()
        invariant
            i <= all.len(),
            inbound == header_view(*headers),
            lists(pairs(all@), inbound),
            partly_retained(header_view(kept), inbound, pairs(all@).subrange(0, i as int)),
        decreases all.len() - i,
    {
        let ghost seen = pairs(all@).subrange(0, i as int);
        let ghost next = all@[i as int]@;
        proof {
            assert(pairs(all@).subrange(0, i + 1) =~= seen.push(next));
            assert(pairs(all@)[i as int] == next);
            assert(is_header_name(pairs(all@)[i as int].0));
            assert(lower(next.0) == next.0);
            lemma_retain_step(header_view(kept), inbound, seen, next);
        }
        if !keeps_name(all[i].name.as_str()) {
            remove(&mut kept, all[i].name.as_str());
        }
        i = i + 1;
    }
    proof {
        assert(pairs(all@).subrange(0, i as int) =~= pairs(all@));
        lemma_retain_done(header_view(kept), inbound, pairs(all@));
    }
    kept
}

impl RuntimeContext {
    /// The context of a request with the given headers, in a process with the
    /// given configuration.
    pub fn from_req(config: Arc<Config>, headers: &HeaderMap<HeaderValue>) -> (r: Self)
        ensures
            r@ == context_of(config@, header_view(*headers)),
    {
        let intent = lookup(headers, INTENT_HEADER);
        let filter = match &intent {
            Some(value) => *latin1_text(value.as_slice()).as_str() == *HTTP_REQUEST_INTENT,
            None => false,
        };
        let kept = if filter {
            retain_proxied(headers)
        } else {
            clone_map(headers)
        };
        let method = match lookup(headers, METHOD_HEADER) {
            Some(value) => {
                let text = latin1_text(value.as_slice());
                let accepted = parses_as_method(text.as_str());
                accepted_text(text, accepted)
            },
            None => None,
        };
        let uri = match lookup(headers, URL_HEADER) {
            Some(value) => {
                let text = latin1_text(value.as_slice());
                let accepted = parses_as_uri(text.as_str());
                accepted_text(text, accepted)
            },
            None => None,
        };
        let call_id = match lookup(headers, CALL_ID_HEADER) {
            Some(value) => {
                if visible(value.as_slice()) {
                    latin1_text(value.as_slice())
                } else {
                    String::new()
                }
            },
            None => String::new(),
        };
        let content_type = resolve_content_type(&lookup(headers, CONTENT_TYPE_HEADER));
        let accept_type = resolve_content_type(&get_accept_header_value(headers));
        RuntimeContext {
            config,
            headers: kept,
            method,
            content_type,
            accept_type,
            uri,
            call_id,
            response_headers: new_map(),
            response_status_code: None,
        }
    }

    /// The identifier of the application, empty if the configuration has none.
    pub fn app_id(&self) -> (r: String)
        ensures
            r@ == setting(self@.config, APP_ID@),
    {
        self.config.get_or_empty(APP_ID)
    }

    /// The identifier of the function, empty if the configuration has none.
    pub fn function_id(&self) -> (r: String)
        ensures
            r@ == setting(self@.config, FUNCTION_ID@),
    {
        self.config.get_or_empty(FUNCTION_ID)
    }

    /// The name of the application, empty if the configuration has none.
    pub fn app_name(&self) -> (r: String)
        ensures
            r@ == setting(self@.config, APP_NAME@),
    {
        self.config.get_or_empty(APP_NAME)
    }

    /// The name of the function, empty if the configuration has none.
    pub fn function_name(&self) -> (r: String)
        ensures
            r@ == setting(self@.config, FUNCTION_NAME@),
    {
        self.config.get_or_empty(FUNCTION_NAME)
    }

    /// The format of the body of the request.
    pub fn content_type(&self) -> (r: ContentType)
        ensures
            r == self@.content_type,
    {
        self.content_type
    }

    /// The format that the response is wanted in.
    pub fn accept_type(&self) -> (r: ContentType)
        ensures
            r == self@.accept_type,
    {
        self.accept_type
    }

    /// The identifier of the call.
    pub fn call_id(&self) -> (r: String)
        ensures
            r@ == self@.call_id,
    {
        self.call_id.clone()
    }

    /// The method of the original request, if the platform passed one on.
    pub fn method(&self) -> (r: Option<String>)
        ensures
            option_view(r) == self@.method,
    {
        self.method.clone()
    }

    /// The URL of the original request, if the platform passed one on.
    pub fn uri(&self) -> (r: Option<String>)
        ensures
            option_view(r) == self@.uri,
    {
        self.uri.clone()
    }

    /// The headers of the request that the context keeps.
    pub fn headers(&self) -> (r: HeaderMap<HeaderValue>)
        ensures
            header_view(r) == self@.headers,
    {
        clone_map(&self.headers)
    }

    /// The first value of a header of the request, read as text one character
    /// per byte. The case of the name's letters does not matter.
    pub fn header(&self, key: String) -> (r: Option<String>)
        ensures
            option_view(r) == text_of(first_value(self@.headers, key@)),
    {
        match first(&self.headers, key.as_str()) {
            Some(value) => Some(latin1_text(value.as_slice())),
            None => None,
        }
    }

    /// The configuration of the process.
    pub fn config(&self) -> (r: &Config)
        ensures
            r@ == self@.config,
    {
        &self.config
    }

    /// Sets a header of the response. What the response had under the name is
    /// replaced. A name or a value that no header can have is refused as
    /// invalid input, and the context stays as it was. A header that can be
    /// is set, unless the response already has `HEADER_LIMIT` names or more
    /// and the map of headers refuses to grow: then too the context stays as
    /// it was.
    pub fn add_response_header(&mut self, key: String, value: String) -> (r: Result<
        (),
        FunctionError,
    >)
        ensures
            r is Ok ==> final(self)@ == old(self)@.with_response_header(
                key@,
                vstd::utf8::encode_utf8(value@),
            ),
            r is Err ==> final(self)@ == old(self)@,
            !is_header_name(key@) ==> r is Err && r->Err_0 is InvalidInput && r->Err_0.detail()
                == BAD_HEADER_NAME@,
            is_header_name(key@) && !is_header_value(vstd::utf8::encode_utf8(value@)) ==> r is Err
                && r->Err_0 is InvalidInput && r->Err_0.detail() == BAD_HEADER_VALUE@,
            is_header_name(key@) && is_header_value(vstd::utf8::encode_utf8(value@)) && r is Err
                ==> r->Err_0 is Other && r->Err_0.detail() == TOO_MANY_HEADERS@,
            is_header_name(key@) && is_header_value(vstd::utf8::encode_utf8(value@)) && !holds_many(
                old(self)@.response_headers,
            ) ==> r is Ok,
    {
        match try_insert(&mut self.response_headers, key.as_str(), value.as_str().as_bytes()) {
            Ok(()) => Ok(()),
            Err(InsertError::Name) => Err(FunctionError::invalid_input(BAD_HEADER_NAME.to_owned())),
            Err(InsertError::Value) => Err(
                FunctionError::invalid_input(BAD_HEADER_VALUE.to_owned()),
            ),
            Err(InsertError::Full) => Err(FunctionError::other(TOO_MANY_HEADERS.to_owned())),
        }
    }

    /// The headers that the handler has set for the response.
    pub fn response_headers(&self) -> (r: HeaderMap<HeaderValue>)
        ensures
            header_view(r) == self@.response_headers,
    {
        clone_map(&self.response_headers)
    }

    /// Sets the status of the response. A code that is not from 100 to 599 is
    /// refused as invalid input, and the context stays as it was.
    pub fn set_status_code(&mut self, status: u16) -> (r: Result<(), FunctionError>)
        ensures
            100 <= status <= 599 ==> r is Ok && final(self)@ == old(self)@.with_status(status),
            !(100 <= status <= 599) ==> final(self)@ == old(self)@ && r is Err
                && r->Err_0 is InvalidInput && r->Err_0.detail() == BAD_STATUS@,
    {
        match StatusCode::from_u16(status) {
            Some(code) => {
                self.response_status_code = Some(code);
                Ok(())
            },
            None => Err(FunctionError::invalid_input(BAD_STATUS.to_owned())),
        }
    }

    /// The status that the handler has set for the response, if any.
    pub fn get_status_code(&self) -> (r: Option<StatusCode>)
        ensures
            code_of(r) == self@.status,
            is_status(self@.status),
    {
        if let Some(status) = &self.response_status_code {
            let _ = status.as_u16();
        }
        self.response_status_code
    }
}

impl ContextView {
    /// The same context with one more header set for the response.
    pub open spec fn with_response_header(self, name: Seq<char>, value: Seq<u8>) -> ContextView {
        ContextView {
            response_headers: self.response_headers.insert(lower(name), seq![value]),
            ..self
        }
    }

    /// The same context with a status set for the response.
    pub open spec fn with_status(self, status: u16) -> ContextView {
        ContextView { status: Some(status), ..self }
    }
}

/// The text of a header value, one character per byte.
pub open spec fn text_of(value: Option<Seq<u8>>) -> Option<Seq<char>> {
    match value {
        Some(bytes) => Some(latin1(bytes)),
        None => None,
    }
}

/// A request without a content type is read as JSON.
pub proof fn lemma_default_content_type(
    config: Map<Seq<char>, Seq<char>>,
    inbound: Map<Seq<char>, Seq<Seq<u8>>>,
)
    requires
        first_value(inbound, CONTENT_TYPE_HEADER@).is_none(),
    ensures
        context_of(config, inbound).content_type == ContentType::JSON,
{
}

/// A request that names no format to get back is answered in JSON.
pub proof fn lemma_default_accept_type(
    config: Map<Seq<char>, Seq<char>>,
    inbound: Map<Seq<char>, Seq<Seq<u8>>>,
)
    requires
        first_value(inbound, PROXIED_ACCEPT_HEADER@).is_none(),
        first_value(inbound, ACCEPT_HEADER@).is_none(),
    ensures
        context_of(config, inbound).accept_type == ContentType::JSON,
{
}

/// The `Accept` header of the original request goes before the `Accept`
/// header of the request itself: when the first is there, the second does not
/// count.
pub proof fn lemma_accept_precedence(
    config: Map<Seq<char>, Seq<char>>,
    inbound: Map<Seq<char>, Seq<Seq<u8>>>,
    other: Map<Seq<char>, Seq<Seq<u8>>>,
)
    requires
        first_value(inbound, PROXIED_ACCEPT_HEADER@).is_some(),
        first_value(other, PROXIED_ACCEPT_HEADER@) == first_value(inbound, PROXIED_ACCEPT_HEADER@),
    ensures
        context_of(config, inbound).accept_type == resolved(
            first_value(inbound, PROXIED_ACCEPT_HEADER@),
        ),
        context_of(config, other).accept_type == context_of(config, inbound).accept_type,
{
}

/// The context of a request that stands for an HTTP request keeps the content
/// type and the headers of the original request, with their values, and no
/// other header. The context of any other request keeps every header.
pub proof fn lemma_intent_filter(
    config: Map<Seq<char>, Seq<char>>,
    inbound: Map<Seq<char>, Seq<Seq<u8>>>,
)
    ensures
        is_http_request(inbound) ==> forall|name: Seq<char>| #[trigger]
            context_of(config, inbound).headers.dom().contains(name) <==> inbound.dom().contains(
                name,
            ) && keeps(name),
        forall|name: Seq<char>| #[trigger]
            context_of(config, inbound).headers.dom().contains(name) ==> context_of(
                config,
                inbound,
            ).headers[name] == inbound[name],
        !is_http_request(inbound) ==> context_of(config, inbound).headers == inbound,
{
}

/// Every request of a process sees the configuration of the process, whatever
/// its headers are. Two requests therefore see the same one.
pub proof fn lemma_config_frozen(
    config: Map<Seq<char>, Seq<char>>,
    first: Map<Seq<char>, Seq<Seq<u8>>>,
    second: Map<Seq<char>, Seq<Seq<u8>>>,
)
    ensures
        context_of(config, first).config == config,
        context_of(config, second).config == context_of(config, first).config,
{
}

} // verus!
