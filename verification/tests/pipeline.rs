use fdk::coercions::decode_json;
use fdk::coercions::decode_yaml;
use fdk::coercions::encode_json;
use fdk::coercions::encode_yaml;
use fdk::coercions::ContentType;
use fdk::coercions::InputCoercible;
use fdk::coercions::OutputCoercible;
use fdk::context::Config;
use fdk::context::RuntimeContext;
use fdk::errors::FunctionError;
use fdk::function::acquired;
use fdk::function::admitted;
use fdk::function::decoded;
use fdk::function::encoded;
use fdk::function::finish;
use fdk::function::Handler;
use fdk::function::Plain;
use fdk::function::decode_failure;
use fdk::function::emit;
use fdk::function::encode_failure;
use fdk::function::fail;
use fdk::function::fresh_buffer;
use fdk::function::handler_failure;
use fdk::function::read_failure;
use fdk::function::BufferPool;
use fdk::function::Function;
use fdk::utils::Envelope;
use hyper::header::HeaderName;
use hyper::header::HeaderValue;
use hyper::HeaderMap;
use std::collections::BTreeMap;
use std::sync::Arc;

#[derive(Debug, PartialEq)]
struct Point {
    x: i32,
}

impl Point {
    fn from_map(map: BTreeMap<String, i32>) -> Result<Point, FunctionError> {
        match map.get("x") {
            Some(x) if map.len() == 1 => Ok(Point { x: *x }),
            _ => Err(FunctionError::coercion("not a point".to_string())),
        }
    }

    fn into_map(self) -> BTreeMap<String, i32> {
        let mut map = BTreeMap::new();
        map.insert("x".to_string(), self.x);
        map
    }
}

impl InputCoercible for Point {
    fn try_decode_plain(_input: Vec<u8>) -> Result<Self, FunctionError> {
        Err(FunctionError::coercion("a point has no plain text".to_string()))
    }
    fn try_decode_json(input: Vec<u8>) -> Result<Self, FunctionError> {
        decode_json::<BTreeMap<String, i32>>(input).and_then(Point::from_map)
    }
    fn try_decode_xml(_input: Vec<u8>) -> Result<Self, FunctionError> {
        Err(FunctionError::coercion("a point has no XML".to_string()))
    }
    fn try_decode_yaml(input: Vec<u8>) -> Result<Self, FunctionError> {
        decode_yaml::<BTreeMap<String, i32>>(input).and_then(Point::from_map)
    }
    fn try_decode_urlencoded(_input: Vec<u8>) -> Result<Self, FunctionError> {
        Err(FunctionError::coercion("a point has no form".to_string()))
    }
}

impl OutputCoercible for Point {
    fn try_encode_json(self) -> Result<Vec<u8>, FunctionError> {
        encode_json(&self.into_map())
    }
    fn try_encode_xml(self) -> Result<Vec<u8>, FunctionError> {
        Err(FunctionError::coercion("a point has no XML".to_string()))
    }
    fn try_encode_yaml(self) -> Result<Vec<u8>, FunctionError> {
        encode_yaml(&self.into_map())
    }
    fn try_encode_plain(self) -> Result<Vec<u8>, FunctionError> {
        Err(FunctionError::coercion("a point has no plain text".to_string()))
    }
    fn try_encode_urlencoded(self) -> Result<Vec<u8>, FunctionError> {
        Err(FunctionError::coercion("a point has no form".to_string()))
    }
}

fn map_of(entries: &[(&str, &str)]) -> HeaderMap {
    let mut map = HeaderMap::new();
    for (name, value) in entries {
        map.append(
            HeaderName::from_bytes(name.as_bytes()).unwrap(),
            HeaderValue::from_str(value).unwrap(),
        );
    }
    map
}

fn config() -> Arc<Config> {
    Arc::new(Config::from_vars(Vec::new()))
}

fn header_text(e: &Envelope, name: &str) -> Option<String> {
    e.header(name).map(|v| String::from_utf8(v).unwrap())
}

fn count(e: &Envelope, name: &str) -> usize {
    e.headers.iter().filter(|h| h.name.eq_ignore_ascii_case(name)).count()
}

fn greet(_ctx: &mut RuntimeContext, name: String) -> Result<String, FunctionError> {
    Ok(format!("Hello {}!", name))
}

fn same_point(_ctx: &mut RuntimeContext, p: Point) -> Result<Point, FunctionError> {
    Ok(p)
}

fn serve<T, S, F>(f: F, headers: &[(&str, &str)], body: &[u8]) -> Envelope
where
    T: InputCoercible,
    S: OutputCoercible,
    F: Fn(&mut RuntimeContext, T) -> Result<S, FunctionError>,
{
    let pool = BufferPool::with_size(1, 16);
    Function::handle(&f, &pool, config(), &map_of(headers), Ok(body.to_vec()))
}

fn assert_enveloped(r: &Envelope) {
    assert_eq!(count(r, "fn-http-status"), 1);
    let code: u16 = header_text(r, "fn-http-status").unwrap().parse().unwrap();
    assert!((100..=599).contains(&code));
    assert!(r.status.as_u16() == 200 || r.status.as_u16() == 502);
    if r.status.as_u16() == 502 {
        assert_eq!(code, 500);
    }
    assert_eq!(count(r, "fn-fdk-version"), 1);
    assert_eq!(count(r, "fn-fdk-runtime"), 1);
}

#[test]
fn a_json_name_is_greeted() {
    let r = serve(greet, &[("Content-Type", "application/json")], b"\"alice\"");
    assert_eq!(r.status.as_u16(), 200);
    assert_eq!(header_text(&r, "Fn-Http-Status").unwrap(), "200");
    assert_eq!(header_text(&r, "Content-Type").unwrap(), "application/json");
    assert_eq!(r.body, b"\"Hello alice!\"".to_vec());
    assert_enveloped(&r);
}

#[test]
fn a_body_that_is_no_json_is_a_client_error() {
    let r = serve(greet, &[("Content-Type", "application/json")], b"not-json");
    assert_eq!(r.status.as_u16(), 200);
    assert_eq!(header_text(&r, "Fn-Http-Status").unwrap(), "400");
    let body = String::from_utf8(r.body.clone()).unwrap();
    assert!(body.starts_with("Coercion failed: "));
    assert!(body.contains("Error while deserializing request body: "));
    let cause = serde_json::from_slice::<String>(b"not-json").unwrap_err().to_string();
    let inner = FunctionError::coercion(cause).message();
    let outer = FunctionError::coercion(format!(
        "Error while deserializing request body: {}",
        inner
    ));
    assert_eq!(body, outer.message());
    assert_enveloped(&r);
}

#[test]
fn a_request_without_content_type_is_read_as_json() {
    let r = serve(same_point, &[], b"{\"x\":1}");
    assert_eq!(r.status.as_u16(), 200);
    assert_eq!(header_text(&r, "Fn-Http-Status").unwrap(), "200");
    assert_eq!(r.body, b"{\"x\":1}".to_vec());
    assert_eq!(header_text(&r, "content-type").unwrap(), "application/json");
}

#[test]
fn a_request_that_accepts_yaml_is_answered_in_yaml() {
    let r = serve(same_point, &[("Accept", "text/yaml")], b"{\"x\":1}");
    assert_eq!(r.status.as_u16(), 200);
    assert_eq!(header_text(&r, "Content-Type").unwrap(), "text/yaml");
    assert_eq!(r.body, b"---\nx: 1\n".to_vec());
    assert_eq!(decode_yaml::<BTreeMap<String, i32>>(r.body.clone()).unwrap().get("x"), Some(&1));
}

#[test]
fn a_user_error_is_a_client_error() {
    let r = serve(
        |_ctx: &mut RuntimeContext, _name: String| -> Result<String, FunctionError> {
            Err(FunctionError::new_user_error("bad input".to_string()))
        },
        &[("content-type", "text/plain")],
        b"x",
    );
    assert_eq!(r.status.as_u16(), 200);
    assert_eq!(header_text(&r, "Fn-Http-Status").unwrap(), "400");
    assert_eq!(r.body, b"User error: \"bad input\"".to_vec());
    assert!(String::from_utf8(r.body.clone()).unwrap().contains("\"bad input\""));
    assert_enveloped(&r);
}

#[test]
fn a_status_that_the_handler_sets_is_the_logical_status() {
    let r = serve(
        |ctx: &mut RuntimeContext, name: String| -> Result<String, FunctionError> {
            ctx.set_status_code(201)?;
            Ok(name)
        },
        &[("content-type", "text/plain")],
        b"v",
    );
    assert_eq!(r.status.as_u16(), 200);
    assert_eq!(header_text(&r, "Fn-Http-Status").unwrap(), "201");
    assert_enveloped(&r);
}

#[test]
fn a_client_error_status_with_a_success_stays_recoverable() {
    let r = serve(
        |ctx: &mut RuntimeContext, name: String| -> Result<String, FunctionError> {
            ctx.set_status_code(404)?;
            Ok(name)
        },
        &[("content-type", "text/plain"), ("accept", "text/plain")],
        b"nothing here",
    );
    assert_eq!(r.status.as_u16(), 200);
    assert_eq!(header_text(&r, "Fn-Http-Status").unwrap(), "404");
    assert_eq!(r.body, b"nothing here".to_vec());
}

#[test]
fn a_server_error_status_with_a_success_stays_recoverable() {
    let r = serve(
        |ctx: &mut RuntimeContext, name: String| -> Result<String, FunctionError> {
            ctx.set_status_code(500)?;
            Ok(name)
        },
        &[("content-type", "text/plain")],
        b"v",
    );
    assert_eq!(r.status.as_u16(), 200);
    assert_eq!(header_text(&r, "Fn-Http-Status").unwrap(), "500");
}

#[test]
fn an_empty_body_is_no_json_but_is_plain_text() {
    let r = serve(greet, &[("content-type", "application/json")], b"");
    assert_eq!(r.status.as_u16(), 200);
    assert_eq!(header_text(&r, "Fn-Http-Status").unwrap(), "400");

    let r = serve(greet, &[("content-type", "text/plain"), ("accept", "text/plain")], b"");
    assert_eq!(r.status.as_u16(), 200);
    assert_eq!(header_text(&r, "Fn-Http-Status").unwrap(), "200");
    assert_eq!(r.body, b"Hello !".to_vec());
}

#[test]
fn the_handler_sees_the_context_of_the_request() {
    let r = serve(
        |ctx: &mut RuntimeContext, _body: Vec<u8>| -> Result<String, FunctionError> {
            Ok(format!(
                "{}|{}|{:?}|{:?}",
                ctx.call_id(),
                ctx.header("x-one".to_string()).unwrap_or_default(),
                ctx.content_type(),
                ctx.accept_type()
            ))
        },
        &[
            ("fn-call-id", "c-9"),
            ("x-one", "1"),
            ("content-type", "text/yaml"),
            ("accept", "text/plain"),
        ],
        b"whatever: [",
    );
    assert_eq!(r.body, b"c-9|1|YAML|Plain".to_vec());
}

#[test]
fn headers_that_the_handler_sets_are_in_the_response() {
    let r = serve(
        |ctx: &mut RuntimeContext, name: String| -> Result<String, FunctionError> {
            ctx.add_response_header("X-Coolness".to_string(), "over 9000".to_string())?;
            ctx.add_response_header("Content-Type".to_string(), "image/png".to_string())?;
            ctx.add_response_header("Fn-Http-Status".to_string(), "418".to_string())?;
            ctx.add_response_header("Fn-Fdk-Version".to_string(), "mine".to_string())?;
            Ok(name)
        },
        &[("content-type", "text/plain"), ("accept", "text/plain")],
        b"v",
    );
    assert_eq!(header_text(&r, "x-coolness").unwrap(), "over 9000");
    assert_eq!(header_text(&r, "content-type").unwrap(), "text/plain");
    assert_eq!(count(&r, "content-type"), 1);
    assert_eq!(header_text(&r, "fn-http-status").unwrap(), "200");
    assert_eq!(header_text(&r, "fn-fdk-version").unwrap(), "fdk-rust/0.2.0");
    assert_eq!(r.headers.len(), 5);
    assert_enveloped(&r);
}

#[test]
fn a_header_that_the_handler_may_not_set_is_invalid_input() {
    let r = serve(
        |ctx: &mut RuntimeContext, name: String| -> Result<String, FunctionError> {
            ctx.add_response_header("not a name".to_string(), "v".to_string())?;
            Ok(name)
        },
        &[("content-type", "text/plain")],
        b"v",
    );
    assert_eq!(r.status.as_u16(), 200);
    assert_eq!(header_text(&r, "fn-http-status").unwrap(), "400");
    let inner = FunctionError::invalid_input("Invalid header name".to_string()).message();
    let outer =
        FunctionError::invalid_input(format!("Error executing user function: {}", inner));
    assert_eq!(r.body, outer.message().into_bytes());
}

#[test]
fn a_failure_of_the_handler_that_is_not_its_own_becomes_invalid_input() {
    let r = serve(
        |_ctx: &mut RuntimeContext, _name: String| -> Result<String, FunctionError> {
            Err(FunctionError::io("disk on fire".to_string()))
        },
        &[("content-type", "text/plain")],
        b"v",
    );
    assert_eq!(r.status.as_u16(), 200);
    assert_eq!(header_text(&r, "fn-http-status").unwrap(), "400");
    assert_eq!(
        r.body,
        b"Invalid input: \"Error executing user function: IO Error: \\\"disk on fire\\\"\""
            .to_vec()
    );
    assert_enveloped(&r);
}

#[test]
fn a_failing_handler_keeps_its_error_status() {
    let r = serve(
        |ctx: &mut RuntimeContext, _name: String| -> Result<String, FunctionError> {
            ctx.set_status_code(404)?;
            Err(FunctionError::new_user_error("no such thing".to_string()))
        },
        &[("content-type", "text/plain")],
        b"v",
    );
    assert_eq!(r.status.as_u16(), 200);
    assert_eq!(header_text(&r, "fn-http-status").unwrap(), "404");
    assert_eq!(r.body, b"User error: \"no such thing\"".to_vec());
}

#[test]
fn a_failing_handler_does_not_keep_a_success_status() {
    let r = serve(
        |ctx: &mut RuntimeContext, _name: String| -> Result<String, FunctionError> {
            ctx.set_status_code(201)?;
            Err(FunctionError::new_user_error("no".to_string()))
        },
        &[("content-type", "text/plain")],
        b"v",
    );
    assert_eq!(r.status.as_u16(), 200);
    assert_eq!(header_text(&r, "fn-http-status").unwrap(), "400");
}

#[test]
fn a_result_that_cannot_be_encoded_is_a_client_error() {
    let r = serve(same_point, &[("accept", "application/xml")], b"{\"x\":1}");
    assert_eq!(r.status.as_u16(), 200);
    assert_eq!(header_text(&r, "fn-http-status").unwrap(), "400");
    assert_eq!(
        r.body,
        b"Coercion failed: \"Error while serializing response body: Coercion failed: \\\"a point has no XML\\\"\""
            .to_vec()
    );
    assert!(r.header("content-type").is_none());
    assert_enveloped(&r);
}

#[test]
fn an_exhausted_pool_is_an_unrecoverable_failure() {
    let pool = BufferPool::with_size(0, 16);
    let r = Function::handle(
        &greet,
        &pool,
        config(),
        &map_of(&[("content-type", "text/plain")]),
        Ok(b"v".to_vec()),
    );
    assert_eq!(r.status.as_u16(), 502);
    assert_eq!(header_text(&r, "fn-http-status").unwrap(), "500");
    assert_eq!(r.body, b"Internal system error: \"Failed to allocate memory\"".to_vec());
    assert_enveloped(&r);
}

#[test]
fn a_body_that_cannot_be_read_is_an_unrecoverable_failure() {
    let pool = BufferPool::with_size(1, 16);
    let r = Function::handle(
        &greet,
        &pool,
        config(),
        &map_of(&[("content-type", "text/plain")]),
        Err("connection reset".to_string()),
    );
    assert_eq!(r.status.as_u16(), 502);
    assert_eq!(header_text(&r, "fn-http-status").unwrap(), "500");
    assert_eq!(r.body, b"IO Error: \"Failed to read request body: connection reset\"".to_vec());
    assert_enveloped(&r);
}

#[test]
fn an_exhausted_pool_goes_before_an_unreadable_body() {
    let pool = BufferPool::with_size(0, 16);
    let r = Function::handle(&greet, &pool, config(), &HeaderMap::new(), Err("x".to_string()));
    assert_eq!(r.body, b"Internal system error: \"Failed to allocate memory\"".to_vec());
}

#[test]
fn a_buffer_goes_back_to_the_pool_after_each_request() {
    let pool = BufferPool::with_size(1, 16);
    let headers = map_of(&[("content-type", "text/plain"), ("accept", "text/plain")]);
    for name in ["a", "bb", "a much longer name than the buffer had room for"] {
        let r = Function::handle(&greet, &pool, config(), &headers, Ok(name.as_bytes().to_vec()));
        assert_eq!(r.body, format!("Hello {}!", name).into_bytes());
    }
    let r = Function::handle(&greet, &pool, config(), &headers, Err("x".to_string()));
    assert_eq!(r.status.as_u16(), 502);
    let r = Function::handle(
        &greet,
        &pool,
        config(),
        &map_of(&[("content-type", "application/json")]),
        Ok(b"no".to_vec()),
    );
    assert_eq!(header_text(&r, "fn-http-status").unwrap(), "400");
    let r = Function::handle(&greet, &pool, config(), &headers, Ok(b"z".to_vec()));
    assert_eq!(r.body, b"Hello z!".to_vec());
}

#[test]
fn the_pool_hands_out_as_many_buffers_as_it_has() {
    let pool = BufferPool::with_size(2, 8);
    let first = pool.try_acquire();
    let second = pool.try_acquire();
    assert!(first.is_some());
    assert!(second.is_some());
    assert!(pool.try_acquire().is_none());
    assert_eq!(
        pool.acquire().err(),
        Some(FunctionError::Other { inner: "Failed to allocate memory".to_string() })
    );
    drop(first);
    assert!(pool.try_acquire().is_some());
}

#[test]
fn a_buffer_is_empty_when_it_is_handed_out() {
    let pool = BufferPool::with_size(1, 8);
    {
        let mut buffer = pool.try_acquire().unwrap();
        assert!(buffer.bytes().is_empty());
        buffer.write(b"left");
        buffer.write(b"overs");
        assert_eq!(buffer.bytes(), &b"leftovers".to_vec());
    }
    {
        let mut buffer = pool.acquire().unwrap();
        assert!(buffer.bytes().is_empty());
        buffer.write(b"abc");
        buffer.clear();
        assert!(buffer.bytes().is_empty());
        buffer.write(b"");
        assert!(buffer.bytes().is_empty());
    }
}

#[test]
fn the_pool_of_a_process_has_1024_buffers() {
    let pool = BufferPool::new();
    let mut held = Vec::new();
    for _ in 0..1024 {
        held.push(pool.try_acquire().unwrap());
    }
    assert!(pool.try_acquire().is_none());
    assert_eq!(fdk::function::POOL_SIZE, 1024);
    assert_eq!(fdk::function::BUFFER_CAPACITY, 4096);
    let fresh = fresh_buffer(4096);
    assert!(fresh.is_empty());
    assert!(fresh.capacity() >= 4096);
}

#[test]
fn the_stages_report_their_failures() {
    assert_eq!(acquired(Some(3)), Ok(3));
    assert_eq!(
        acquired::<i32>(None),
        Err(FunctionError::Other { inner: "Failed to allocate memory".to_string() })
    );
    assert_eq!(
        read_failure("boom"),
        FunctionError::IO { inner: "Failed to read request body: boom".to_string() }
    );
    assert_eq!(
        decode_failure(&FunctionError::coercion("c".to_string())),
        FunctionError::Coercion {
            inner: "Error while deserializing request body: Coercion failed: \"c\"".to_string()
        }
    );
    assert_eq!(
        encode_failure(&FunctionError::coercion("c".to_string())),
        FunctionError::Coercion {
            inner: "Error while serializing response body: Coercion failed: \"c\"".to_string()
        }
    );
}

#[test]
fn a_user_error_goes_through_and_any_other_is_wrapped() {
    assert_eq!(
        handler_failure(FunctionError::new_user_error("mine".to_string())),
        FunctionError::User { inner: "mine".to_string() }
    );
    assert_eq!(
        handler_failure(FunctionError::bad_request()),
        FunctionError::InvalidInput {
            inner: "Error executing user function: Bad request".to_string()
        }
    );
    assert_eq!(
        handler_failure(FunctionError::other("x".to_string())),
        FunctionError::InvalidInput {
            inner: "Error executing user function: Internal system error: \"x\"".to_string()
        }
    );
    assert_eq!(
        handler_failure(FunctionError::invalid_input("x".to_string())),
        FunctionError::InvalidInput {
            inner: "Error executing user function: Invalid input: \"x\"".to_string()
        }
    );
    assert!(handler_failure(FunctionError::server("x".to_string())).is_user_error());
}

#[test]
fn a_success_is_emitted_with_its_content_type() {
    let mut ctx = RuntimeContext::from_req(config(), &HeaderMap::new());
    ctx.add_response_header("x-one".to_string(), "1".to_string()).unwrap();
    let r = emit(&ctx, ContentType::URLEncoded, b"a=1".to_vec());
    assert_eq!(r.status.as_u16(), 200);
    assert_eq!(header_text(&r, "fn-http-status").unwrap(), "200");
    assert_eq!(
        header_text(&r, "content-type").unwrap(),
        "application/x-www-form-urlencoded"
    );
    assert_eq!(header_text(&r, "x-one").unwrap(), "1");
    assert_eq!(r.body, b"a=1".to_vec());
    assert_eq!(r.headers.len(), 5);

    ctx.set_status_code(599).unwrap();
    let r = emit(&ctx, ContentType::XML, Vec::new());
    assert_eq!(r.status.as_u16(), 200);
    assert_eq!(header_text(&r, "fn-http-status").unwrap(), "599");
    assert_eq!(header_text(&r, "content-type").unwrap(), "application/xml");
}

#[test]
fn a_failure_is_reported_by_its_kind() {
    let mut ctx = RuntimeContext::from_req(config(), &HeaderMap::new());
    ctx.add_response_header("x-one".to_string(), "1".to_string()).unwrap();
    let r = fail(&ctx, FunctionError::bad_request());
    assert_eq!(r.status.as_u16(), 200);
    assert_eq!(header_text(&r, "fn-http-status").unwrap(), "400");
    assert!(r.header("x-one").is_none());
    let r = fail(&ctx, FunctionError::server("s".to_string()));
    assert_eq!(r.status.as_u16(), 502);
    assert_eq!(header_text(&r, "fn-http-status").unwrap(), "500");
    ctx.set_status_code(503).unwrap();
    let r = fail(&ctx, FunctionError::bad_request());
    assert_eq!(r.status.as_u16(), 200);
    assert_eq!(header_text(&r, "fn-http-status").unwrap(), "503");
    let r = fail(&ctx, FunctionError::server("s".to_string()));
    assert_eq!(r.status.as_u16(), 502);
    assert_eq!(header_text(&r, "fn-http-status").unwrap(), "500");
}

struct Counting {
    calls: std::cell::Cell<u32>,
    seen: std::cell::RefCell<Vec<String>>,
}

impl Counting {
    fn new() -> Counting {
        Counting { calls: std::cell::Cell::new(0), seen: std::cell::RefCell::new(Vec::new()) }
    }
}

impl Handler<String, String> for Counting {
    fn call(&self, _ctx: &mut RuntimeContext, arg: String) -> Result<String, FunctionError> {
        self.calls.set(self.calls.get() + 1);
        self.seen.borrow_mut().push(arg.clone());
        Ok(format!("Hello {}!", arg))
    }
}

#[test]
fn the_handler_is_called_once_with_what_the_body_decodes_to() {
    let pool = BufferPool::with_size(1, 16);
    let handler = Counting::new();
    let r = Function::handle_with(
        &handler,
        &pool,
        config(),
        &map_of(&[("content-type", "application/json")]),
        Ok(b"\"alice\"".to_vec()),
    );
    assert_eq!(handler.calls.get(), 1);
    assert_eq!(handler.seen.borrow().clone(), vec!["alice".to_string()]);
    assert_eq!(r.status.as_u16(), 200);
    assert_eq!(header_text(&r, "fn-http-status").unwrap(), "200");
    assert_eq!(header_text(&r, "content-type").unwrap(), "application/json");
    assert_eq!(r.body, b"\"Hello alice!\"".to_vec());
}

#[test]
fn the_body_is_decoded_by_content_type_and_the_result_encoded_by_accept() {
    let pool = BufferPool::with_size(1, 16);
    let handler = Counting::new();
    let r = Function::handle_with(
        &handler,
        &pool,
        config(),
        &map_of(&[("content-type", "text/plain"), ("accept", "application/json")]),
        Ok(b"alice".to_vec()),
    );
    assert_eq!(handler.seen.borrow().clone(), vec!["alice".to_string()]);
    assert_eq!(header_text(&r, "content-type").unwrap(), "application/json");
    assert_eq!(r.body, b"\"Hello alice!\"".to_vec());
    assert_eq!(r.body.len(), 14);

    let r = serve(greet, &[("content-type", "application/json"), ("accept", "text/plain")], b"\"bob\"");
    assert_eq!(header_text(&r, "content-type").unwrap(), "text/plain");
    assert_eq!(r.body, b"Hello bob!".to_vec());
}

#[test]
fn the_handler_is_not_called_when_the_body_cannot_be_decoded() {
    let pool = BufferPool::with_size(1, 16);
    let handler = Counting::new();
    let r = Function::handle_with(
        &handler,
        &pool,
        config(),
        &map_of(&[("content-type", "application/json")]),
        Ok(b"not-json".to_vec()),
    );
    assert_eq!(handler.calls.get(), 0);
    assert_eq!(r.status.as_u16(), 200);
    assert_eq!(header_text(&r, "fn-http-status").unwrap(), "400");
    assert!(!r.body.is_empty());
}

#[test]
fn the_handler_is_not_called_without_a_buffer_or_without_a_body() {
    let handler = Counting::new();
    let empty = BufferPool::with_size(0, 16);
    let r = Function::handle_with(
        &handler,
        &empty,
        config(),
        &map_of(&[("content-type", "text/plain")]),
        Ok(b"a".to_vec()),
    );
    assert_eq!(handler.calls.get(), 0);
    assert_eq!(r.status.as_u16(), 502);
    assert_eq!(header_text(&r, "fn-http-status").unwrap(), "500");
    assert_eq!(r.body, b"Internal system error: \"Failed to allocate memory\"".to_vec());

    let pool = BufferPool::with_size(1, 16);
    let held = pool.try_acquire().unwrap();
    let r = Function::handle_with(
        &handler,
        &pool,
        config(),
        &map_of(&[("content-type", "text/plain")]),
        Ok(b"a".to_vec()),
    );
    assert_eq!(handler.calls.get(), 0);
    assert_eq!(r.status.as_u16(), 502);
    drop(held);
    let r = Function::handle_with(
        &handler,
        &pool,
        config(),
        &map_of(&[("content-type", "text/plain")]),
        Err("cut".to_string()),
    );
    assert_eq!(handler.calls.get(), 0);
    assert_eq!(r.status.as_u16(), 502);
    let r = Function::handle_with(
        &handler,
        &pool,
        config(),
        &map_of(&[("content-type", "text/plain"), ("accept", "text/plain")]),
        Ok(b"a".to_vec()),
    );
    assert_eq!(handler.calls.get(), 1);
    assert_eq!(r.body, b"Hello a!".to_vec());
}

#[test]
fn a_function_is_a_handler() {
    let pool = BufferPool::with_size(1, 16);
    let handler = Plain { function: greet };
    let r = Function::handle_with(
        &handler,
        &pool,
        config(),
        &map_of(&[("content-type", "text/plain"), ("accept", "text/plain")]),
        Ok(b"you".to_vec()),
    );
    assert_eq!(r.body, b"Hello you!".to_vec());
}

#[test]
fn a_request_is_admitted_with_a_buffer_and_a_body() {
    let ctx = RuntimeContext::from_req(config(), &HeaderMap::new());
    assert_eq!(admitted(&ctx, Ok(7u8), Ok(b"body".to_vec())), Ok((7u8, b"body".to_vec())));
    let r = admitted(&ctx, Err::<u8, _>(FunctionError::other("x".to_string())), Ok(Vec::new()))
        .unwrap_err();
    assert_eq!(r.status.as_u16(), 502);
    assert_eq!(r.body, b"Internal system error: \"x\"".to_vec());
    let r = admitted(
        &ctx,
        Err::<u8, _>(FunctionError::other("x".to_string())),
        Err("cut".to_string()),
    )
    .unwrap_err();
    assert_eq!(r.body, b"Internal system error: \"x\"".to_vec());
    let r = admitted(&ctx, Ok(7u8), Err("cut".to_string())).unwrap_err();
    assert_eq!(r.status.as_u16(), 502);
    assert_eq!(header_text(&r, "fn-http-status").unwrap(), "500");
    assert_eq!(r.body, b"IO Error: \"Failed to read request body: cut\"".to_vec());
}

#[test]
fn what_was_decoded_goes_on_and_what_was_not_is_reported() {
    let ctx = RuntimeContext::from_req(config(), &HeaderMap::new());
    assert_eq!(decoded(&ctx, Ok(5i32)), Ok(5));
    let r = decoded::<i32>(&ctx, Err(FunctionError::coercion("c".to_string()))).unwrap_err();
    assert_eq!(r.status.as_u16(), 200);
    assert_eq!(header_text(&r, "fn-http-status").unwrap(), "400");
    assert_eq!(
        r.body,
        FunctionError::coercion(
            "Error while deserializing request body: Coercion failed: \"c\"".to_string()
        )
        .message()
        .into_bytes()
    );
}

#[test]
fn what_was_encoded_is_the_body_of_a_success() {
    let mut ctx = RuntimeContext::from_req(config(), &HeaderMap::new());
    ctx.set_status_code(201).unwrap();
    let r = encoded(&ctx, ContentType::YAML, Ok(b"x: 1\n".to_vec()));
    assert_eq!(r.status.as_u16(), 200);
    assert_eq!(header_text(&r, "fn-http-status").unwrap(), "201");
    assert_eq!(header_text(&r, "content-type").unwrap(), "text/yaml");
    assert_eq!(r.body, b"x: 1\n".to_vec());
    let r = encoded(&ctx, ContentType::YAML, Err(FunctionError::coercion("c".to_string())));
    assert_eq!(r.status.as_u16(), 200);
    assert_eq!(header_text(&r, "fn-http-status").unwrap(), "400");
    assert_eq!(
        r.body,
        FunctionError::coercion(
            "Error while serializing response body: Coercion failed: \"c\"".to_string()
        )
        .message()
        .into_bytes()
    );
}

#[test]
fn the_result_of_the_handler_is_finished() {
    let mut ctx = RuntimeContext::from_req(config(), &HeaderMap::new());
    ctx.add_response_header("x-one".to_string(), "1".to_string()).unwrap();
    let r = finish(&ctx, ContentType::JSON, Ok("a".to_string()));
    assert_eq!(r.status.as_u16(), 200);
    assert_eq!(header_text(&r, "fn-http-status").unwrap(), "200");
    assert_eq!(header_text(&r, "content-type").unwrap(), "application/json");
    assert_eq!(header_text(&r, "x-one").unwrap(), "1");
    assert_eq!(r.body, b"\"a\"".to_vec());

    let r = finish(&ctx, ContentType::Plain, Ok(vec![1u8, 2, 3]));
    assert_eq!(r.body, vec![1u8, 2, 3]);

    let r = finish::<String>(
        &ctx,
        ContentType::JSON,
        Err(FunctionError::new_user_error("mine".to_string())),
    );
    assert_eq!(r.status.as_u16(), 200);
    assert_eq!(header_text(&r, "fn-http-status").unwrap(), "400");
    assert_eq!(r.body, b"User error: \"mine\"".to_vec());

    let r = finish::<String>(&ctx, ContentType::JSON, Err(FunctionError::io("disk".to_string())));
    assert_eq!(r.status.as_u16(), 200);
    assert_eq!(header_text(&r, "fn-http-status").unwrap(), "400");
    assert!(String::from_utf8(r.body.clone()).unwrap().contains("disk"));
    assert_eq!(
        r.body,
        FunctionError::invalid_input(
            "Error executing user function: IO Error: \"disk\"".to_string()
        )
        .message()
        .into_bytes()
    );

    let r = finish(&ctx, ContentType::URLEncoded, Ok("text".to_string()));
    assert_eq!(r.status.as_u16(), 200);
    assert_eq!(header_text(&r, "fn-http-status").unwrap(), "400");
    assert!(String::from_utf8(r.body).unwrap().contains("Error while serializing response body"));
}
