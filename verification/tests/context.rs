use fdk::coercions::ContentType;
use fdk::context::Config;
use fdk::context::RuntimeContext;
use fdk::errors::FunctionError;
use hyper::header::HeaderName;
use hyper::header::HeaderValue;
use hyper::HeaderMap;
use std::sync::Arc;

fn map_of(entries: &[(&str, &str)]) -> HeaderMap {
    let mut map = HeaderMap::new();
    for (name, value) in entries {
        map.append(
            HeaderName::from_bytes(name.as_bytes()).unwrap(),
            HeaderValue::from_str(value).unwrap(),
        );
    }
    map
}

fn config_of(entries: &[(&str, &str)]) -> Arc<Config> {
    Arc::new(Config::from_vars(
        entries.iter().map(|(k, v)| (k.to_string(), v.to_string())).collect(),
    ))
}

fn context_of(entries: &[(&str, &str)]) -> RuntimeContext {
    RuntimeContext::from_req(config_of(&[]), &map_of(entries))
}

fn names(map: &HeaderMap) -> Vec<String> {
    let mut all: Vec<String> = map.keys().map(|k| k.as_str().to_string()).collect();
    all.sort();
    all
}

#[test]
fn config_leaves_empty_values_out() {
    let config = Config::from_vars(vec![
        ("A".to_string(), "1".to_string()),
        ("B".to_string(), "".to_string()),
        ("C".to_string(), " ".to_string()),
    ]);
    assert_eq!(config.get("A"), Some("1".to_string()));
    assert_eq!(config.get("B"), None);
    assert_eq!(config.get("C"), Some(" ".to_string()));
    assert_eq!(config.get("D"), None);
    assert_eq!(config.get_or_empty("A"), "1");
    assert_eq!(config.get_or_empty("B"), "");
}

#[test]
fn config_takes_the_later_of_two_values() {
    let config = Config::from_vars(vec![
        ("A".to_string(), "1".to_string()),
        ("A".to_string(), "2".to_string()),
        ("B".to_string(), "3".to_string()),
        ("B".to_string(), "".to_string()),
    ]);
    assert_eq!(config.get("A"), Some("2".to_string()));
    assert_eq!(config.get("B"), Some("3".to_string()));
}

#[test]
fn config_names_are_case_sensitive() {
    let config = Config::from_vars(vec![("fn_app_id".to_string(), "x".to_string())]);
    assert_eq!(config.get("FN_APP_ID"), None);
    assert_eq!(config.get("fn_app_id"), Some("x".to_string()));
}

#[test]
fn the_context_tells_what_the_configuration_says() {
    let config = config_of(&[
        ("FN_APP_ID", "app-1"),
        ("FN_FN_ID", "fn-2"),
        ("FN_APP_NAME", "shop"),
        ("FN_FN_NAME", "checkout"),
    ]);
    let ctx = RuntimeContext::from_req(config, &HeaderMap::new());
    assert_eq!(ctx.app_id(), "app-1");
    assert_eq!(ctx.function_id(), "fn-2");
    assert_eq!(ctx.app_name(), "shop");
    assert_eq!(ctx.function_name(), "checkout");
    assert_eq!(ctx.config().get("FN_APP_NAME"), Some("shop".to_string()));
}

#[test]
fn what_the_configuration_does_not_say_is_empty() {
    let ctx = context_of(&[]);
    assert_eq!(ctx.app_id(), "");
    assert_eq!(ctx.function_id(), "");
    assert_eq!(ctx.app_name(), "");
    assert_eq!(ctx.function_name(), "");
}

#[test]
fn two_requests_see_the_same_configuration() {
    let config = config_of(&[("FN_APP_ID", "app-1"), ("OTHER", "x")]);
    let first = RuntimeContext::from_req(config.clone(), &map_of(&[("fn-call-id", "1")]));
    let second = RuntimeContext::from_req(config.clone(), &map_of(&[("accept", "text/yaml")]));
    assert_eq!(first.app_id(), second.app_id());
    assert_eq!(first.config().get("OTHER"), second.config().get("OTHER"));
    assert_eq!(first.config().get("OTHER"), Some("x".to_string()));
    assert!(std::ptr::eq(first.config(), second.config()));
}

#[test]
fn no_content_type_means_json() {
    let ctx = context_of(&[]);
    assert_eq!(ctx.content_type(), ContentType::JSON);
    assert_eq!(ctx.accept_type(), ContentType::JSON);
}

#[test]
fn the_content_type_is_read_from_its_header() {
    assert_eq!(context_of(&[("Content-Type", "text/yaml")]).content_type(), ContentType::YAML);
    assert_eq!(
        context_of(&[("content-type", "application/xml")]).content_type(),
        ContentType::XML
    );
    assert_eq!(context_of(&[("content-type", "text/plain")]).content_type(), ContentType::Plain);
    assert_eq!(
        context_of(&[("content-type", "application/x-www-form-urlencoded")]).content_type(),
        ContentType::URLEncoded
    );
    assert_eq!(context_of(&[("content-type", "image/png")]).content_type(), ContentType::JSON);
}

#[test]
fn a_content_type_that_is_not_text_means_json() {
    let mut map = HeaderMap::new();
    map.insert("content-type", HeaderValue::from_bytes(&[0xff, 0xfe]).unwrap());
    let ctx = RuntimeContext::from_req(config_of(&[]), &map);
    assert_eq!(ctx.content_type(), ContentType::JSON);
}

#[test]
fn the_first_content_type_counts() {
    let ctx = context_of(&[("content-type", "text/plain"), ("content-type", "text/yaml")]);
    assert_eq!(ctx.content_type(), ContentType::Plain);
}

#[test]
fn the_accept_type_is_read_from_accept() {
    let ctx = context_of(&[("Accept", "text/yaml")]);
    assert_eq!(ctx.accept_type(), ContentType::YAML);
    assert_eq!(ctx.content_type(), ContentType::JSON);
}

#[test]
fn the_proxied_accept_goes_before_accept() {
    let ctx = context_of(&[("Accept", "text/yaml"), ("Fn-Http-H-Accept", "text/plain")]);
    assert_eq!(ctx.accept_type(), ContentType::Plain);
    let ctx = context_of(&[("Fn-Http-H-Accept", "application/xml"), ("Accept", "text/yaml")]);
    assert_eq!(ctx.accept_type(), ContentType::XML);
    let ctx = context_of(&[("Fn-Http-H-Accept", "no/such"), ("Accept", "text/yaml")]);
    assert_eq!(ctx.accept_type(), ContentType::JSON);
}

#[test]
fn the_proxied_accept_alone_counts() {
    let ctx = context_of(&[("fn-http-h-accept", "text/yaml")]);
    assert_eq!(ctx.accept_type(), ContentType::YAML);
}

#[test]
fn without_the_intent_every_header_is_kept() {
    let inbound = map_of(&[
        ("content-type", "text/plain"),
        ("fn-http-h-x", "1"),
        ("x-other", "2"),
        ("fn-call-id", "c1"),
        ("fn-intent", "cloudevent"),
    ]);
    let ctx = RuntimeContext::from_req(config_of(&[]), &inbound);
    assert_eq!(ctx.headers(), inbound);
    assert_eq!(ctx.call_id(), "c1");
}

#[test]
fn an_http_request_keeps_the_content_type_and_the_proxied_headers() {
    let inbound = map_of(&[
        ("Fn-Intent", "httprequest"),
        ("Content-Type", "text/plain"),
        ("Fn-Http-H-Accept", "text/yaml"),
        ("Fn-Http-H-X-Custom", "1"),
        ("Fn-Http-Method", "GET"),
        ("Fn-Http-Request-Url", "/x"),
        ("Fn-Call-Id", "c1"),
        ("Fn-Http-H", "no"),
        ("Accept", "text/plain"),
        ("X-Other", "2"),
    ]);
    let ctx = RuntimeContext::from_req(config_of(&[]), &inbound);
    assert_eq!(
        names(&ctx.headers()),
        vec![
            "content-type".to_string(),
            "fn-http-h-accept".to_string(),
            "fn-http-h-x-custom".to_string()
        ]
    );
    assert_eq!(ctx.header("fn-http-h-x-custom".to_string()), Some("1".to_string()));
    assert_eq!(ctx.header("content-type".to_string()), Some("text/plain".to_string()));
    assert_eq!(ctx.header("x-other".to_string()), None);
}

#[test]
fn an_http_request_keeps_every_value_of_a_kept_header() {
    let inbound = map_of(&[
        ("fn-intent", "httprequest"),
        ("fn-http-h-cookie", "a=1"),
        ("x-drop", "1"),
        ("fn-http-h-cookie", "b=2"),
        ("x-drop", "2"),
    ]);
    let ctx = RuntimeContext::from_req(config_of(&[]), &inbound);
    let kept = ctx.headers();
    let cookies: Vec<&[u8]> = kept.get_all("fn-http-h-cookie").iter().map(|v| v.as_bytes()).collect();
    assert_eq!(cookies, vec![b"a=1".as_ref(), b"b=2".as_ref()]);
    assert_eq!(kept.len(), 2);
    assert_eq!(ctx.header("FN-HTTP-H-COOKIE".to_string()), Some("a=1".to_string()));
}

#[test]
fn an_http_request_tells_its_method_url_and_call_id() {
    let ctx = context_of(&[
        ("fn-intent", "httprequest"),
        ("fn-http-method", "GET"),
        ("fn-http-request-url", "/x?y=1"),
        ("fn-call-id", "c1"),
    ]);
    assert_eq!(ctx.method(), Some("GET".to_string()));
    assert_eq!(ctx.uri(), Some("/x?y=1".to_string()));
    assert_eq!(ctx.call_id(), "c1");
    assert!(ctx.headers().is_empty());
    assert_eq!(ctx.header("fn-call-id".to_string()), None);
}

#[test]
fn an_http_request_still_names_its_formats() {
    let ctx = context_of(&[
        ("fn-intent", "httprequest"),
        ("content-type", "text/plain"),
        ("accept", "text/yaml"),
    ]);
    assert_eq!(ctx.content_type(), ContentType::Plain);
    assert_eq!(ctx.accept_type(), ContentType::YAML);
    assert_eq!(ctx.header("accept".to_string()), None);
}

#[test]
fn the_intent_is_compared_as_it_stands() {
    let inbound = map_of(&[("fn-intent", "HttpRequest"), ("x-other", "2")]);
    let ctx = RuntimeContext::from_req(config_of(&[]), &inbound);
    assert_eq!(ctx.headers(), inbound);
    let inbound = map_of(&[("fn-intent", "httprequest "), ("x-other", "2")]);
    let ctx = RuntimeContext::from_req(config_of(&[]), &inbound);
    assert_eq!(ctx.headers(), inbound);
}

#[test]
fn the_method_and_the_url_are_read_when_they_are_there() {
    let ctx = context_of(&[
        ("Fn-Http-Method", "POST"),
        ("Fn-Http-Request-Url", "http://example.com/a/b?c=d"),
        ("Fn-Call-Id", "01ABC"),
    ]);
    assert_eq!(ctx.method(), Some("POST".to_string()));
    assert_eq!(ctx.uri(), Some("http://example.com/a/b?c=d".to_string()));
    assert_eq!(ctx.call_id(), "01ABC");
}

#[test]
fn the_method_and_the_url_are_optional() {
    let ctx = context_of(&[("x", "y")]);
    assert_eq!(ctx.method(), None);
    assert_eq!(ctx.uri(), None);
    assert_eq!(ctx.call_id(), "");
}

#[test]
fn what_is_no_method_or_no_url_is_dropped() {
    let ctx = context_of(&[("fn-http-method", "GE T"), ("fn-http-request-url", "a b c")]);
    assert_eq!(ctx.method(), None);
    assert_eq!(ctx.uri(), None);
    let ctx = context_of(&[("fn-http-method", ""), ("fn-http-request-url", "")]);
    assert_eq!(ctx.method(), None);
    assert_eq!(ctx.uri(), None);
    let ctx = context_of(&[("fn-http-method", "PROPFIND-x_1"), ("fn-http-request-url", "/")]);
    assert_eq!(ctx.method(), Some("PROPFIND-x_1".to_string()));
    assert_eq!(ctx.uri(), Some("/".to_string()));
}

#[test]
fn the_method_characters_are_those_of_hyper() {
    for b in 0u8..=127u8 {
        let c = b as char;
        let text = c.to_string();
        let mut map = HeaderMap::new();
        let value = match HeaderValue::from_bytes(&[b]) {
            Ok(value) => value,
            Err(_) => {
                assert!(hyper::Method::from_bytes(&[b]).is_err());
                continue;
            }
        };
        map.insert("fn-http-method", value);
        let ctx = RuntimeContext::from_req(config_of(&[]), &map);
        let expected = c.is_ascii_alphanumeric() || "!*+-.^_`|~".contains(c);
        assert_eq!(ctx.method().is_some(), expected, "character {:?}", c);
        assert_eq!(hyper::Method::from_bytes(text.as_bytes()).is_ok(), expected);
    }
}

#[test]
fn a_call_id_that_is_not_text_is_empty() {
    let mut map = HeaderMap::new();
    map.insert("fn-call-id", HeaderValue::from_bytes(&[b'a', 0x80]).unwrap());
    let ctx = RuntimeContext::from_req(config_of(&[]), &map);
    assert_eq!(ctx.call_id(), "");
}

#[test]
fn a_header_is_read_one_character_per_byte() {
    let mut map = HeaderMap::new();
    map.insert("x-raw", HeaderValue::from_bytes(&[b'a', 0xe9, 0xff]).unwrap());
    let ctx = RuntimeContext::from_req(config_of(&[]), &map);
    assert_eq!(ctx.header("X-Raw".to_string()), Some("a\u{e9}\u{ff}".to_string()));
    assert_eq!(ctx.header("x-none".to_string()), None);
    assert_eq!(ctx.header("not a name".to_string()), None);
    assert_eq!(ctx.header("".to_string()), None);
}

#[test]
fn a_new_context_has_nothing_to_say_of_the_response() {
    let ctx = context_of(&[("x", "y")]);
    assert!(ctx.response_headers().is_empty());
    assert!(ctx.get_status_code().is_none());
}

#[test]
fn response_headers_are_set() {
    let mut ctx = context_of(&[]);
    assert_eq!(ctx.add_response_header("X-One".to_string(), "1".to_string()), Ok(()));
    assert_eq!(ctx.add_response_header("x-two".to_string(), "2".to_string()), Ok(()));
    let headers = ctx.response_headers();
    assert_eq!(headers.len(), 2);
    assert_eq!(headers.get("x-one").unwrap().as_bytes(), b"1");
    assert_eq!(headers.get("x-two").unwrap().as_bytes(), b"2");
}

#[test]
fn a_response_header_replaces_what_was_there() {
    let mut ctx = context_of(&[]);
    ctx.add_response_header("X-One".to_string(), "1".to_string()).unwrap();
    ctx.add_response_header("x-one".to_string(), "2".to_string()).unwrap();
    let headers = ctx.response_headers();
    assert_eq!(headers.len(), 1);
    assert_eq!(headers.get("x-one").unwrap().as_bytes(), b"2");
}

#[test]
fn a_response_header_value_is_stored_in_utf8() {
    let mut ctx = context_of(&[]);
    ctx.add_response_header("x-one".to_string(), "caf\u{e9}".to_string()).unwrap();
    assert_eq!(ctx.response_headers().get("x-one").unwrap().as_bytes(), "caf\u{e9}".as_bytes());
}

#[test]
fn a_response_header_needs_a_name_and_a_value() {
    let mut ctx = context_of(&[]);
    ctx.add_response_header("x-kept".to_string(), "1".to_string()).unwrap();
    assert_eq!(
        ctx.add_response_header("two words".to_string(), "1".to_string()),
        Err(FunctionError::InvalidInput { inner: "Invalid header name".to_string() })
    );
    assert_eq!(
        ctx.add_response_header("".to_string(), "1".to_string()),
        Err(FunctionError::InvalidInput { inner: "Invalid header name".to_string() })
    );
    assert_eq!(
        ctx.add_response_header("x-one".to_string(), "a\nb".to_string()),
        Err(FunctionError::InvalidInput { inner: "Invalid header value".to_string() })
    );
    assert_eq!(
        ctx.add_response_header("x-kept".to_string(), "\u{7f}".to_string()),
        Err(FunctionError::InvalidInput { inner: "Invalid header value".to_string() })
    );
    let headers = ctx.response_headers();
    assert_eq!(headers.len(), 1);
    assert_eq!(headers.get("x-kept").unwrap().as_bytes(), b"1");
}

#[test]
fn a_status_from_100_to_599_is_set() {
    let mut ctx = context_of(&[]);
    assert_eq!(ctx.set_status_code(100), Ok(()));
    assert_eq!(ctx.get_status_code().unwrap().as_u16(), 100);
    assert_eq!(ctx.set_status_code(599), Ok(()));
    assert_eq!(ctx.get_status_code().unwrap().as_u16(), 599);
    assert_eq!(ctx.set_status_code(201), Ok(()));
    assert_eq!(ctx.get_status_code().unwrap().as_u16(), 201);
}

#[test]
fn a_status_outside_100_to_599_is_invalid_input() {
    let mut ctx = context_of(&[]);
    for code in [0u16, 1, 99, 600, 999, 1000, u16::MAX] {
        assert_eq!(
            ctx.set_status_code(code),
            Err(FunctionError::InvalidInput { inner: "Invalid http code added".to_string() })
        );
        assert!(ctx.get_status_code().is_none());
    }
    ctx.set_status_code(404).unwrap();
    assert!(ctx.set_status_code(600).is_err());
    assert_eq!(ctx.get_status_code().unwrap().as_u16(), 404);
}

#[test]
fn setting_the_response_leaves_the_request_alone() {
    let inbound = map_of(&[("content-type", "text/plain"), ("fn-call-id", "c1")]);
    let mut ctx = RuntimeContext::from_req(config_of(&[("FN_APP_ID", "a")]), &inbound);
    ctx.add_response_header("x-one".to_string(), "1".to_string()).unwrap();
    ctx.set_status_code(202).unwrap();
    assert_eq!(ctx.headers(), inbound);
    assert_eq!(ctx.content_type(), ContentType::Plain);
    assert_eq!(ctx.call_id(), "c1");
    assert_eq!(ctx.app_id(), "a");
}

#[test]
fn a_copy_of_a_context_says_the_same() {
    let mut ctx = context_of(&[("content-type", "text/plain"), ("fn-http-method", "PUT")]);
    ctx.add_response_header("x-one".to_string(), "1".to_string()).unwrap();
    ctx.set_status_code(202).unwrap();
    let copy = ctx.clone();
    assert_eq!(copy.headers(), ctx.headers());
    assert_eq!(copy.response_headers(), ctx.response_headers());
    assert_eq!(copy.get_status_code(), ctx.get_status_code());
    assert_eq!(copy.method(), Some("PUT".to_string()));
    assert_eq!(copy.content_type(), ContentType::Plain);
}

#[test]
fn long_header_names_are_found_and_filtered_like_short_ones() {
    let long_kept = format!("fn-http-h-{}", "k".repeat(80));
    let long_dropped = format!("x-{}", "d".repeat(80));
    let mut inbound = HeaderMap::new();
    inbound.insert("fn-intent", HeaderValue::from_static("httprequest"));
    inbound.insert(
        HeaderName::from_bytes(long_kept.as_bytes()).unwrap(),
        HeaderValue::from_static("kept"),
    );
    inbound.insert(
        HeaderName::from_bytes(long_dropped.as_bytes()).unwrap(),
        HeaderValue::from_static("dropped"),
    );
    let ctx = RuntimeContext::from_req(config_of(&[]), &inbound);
    assert_eq!(names(&ctx.headers()), vec![long_kept.clone()]);
    assert_eq!(ctx.header(long_kept.to_ascii_uppercase()), Some("kept".to_string()));
    assert_eq!(ctx.header(long_dropped.clone()), None);

    let mut plain = HeaderMap::new();
    plain.insert(
        HeaderName::from_bytes(long_dropped.as_bytes()).unwrap(),
        HeaderValue::from_static("there"),
    );
    let ctx = RuntimeContext::from_req(config_of(&[]), &plain);
    assert_eq!(ctx.header(long_dropped.to_ascii_uppercase()), Some("there".to_string()));
    let mut not_a_name = long_dropped.clone();
    not_a_name.push(' ');
    assert_eq!(ctx.header(not_a_name), None);
}

#[test]
fn many_headers_are_filtered() {
    let mut inbound = HeaderMap::new();
    inbound.insert("fn-intent", HeaderValue::from_static("httprequest"));
    for i in 0..300 {
        let kept = format!("fn-http-h-k{}", i);
        let dropped = format!("x-d{}", i);
        inbound.append(
            HeaderName::from_bytes(kept.as_bytes()).unwrap(),
            HeaderValue::from_str(&i.to_string()).unwrap(),
        );
        inbound.append(
            HeaderName::from_bytes(dropped.as_bytes()).unwrap(),
            HeaderValue::from_str(&i.to_string()).unwrap(),
        );
        inbound.append(
            HeaderName::from_bytes(dropped.as_bytes()).unwrap(),
            HeaderValue::from_static("again"),
        );
    }
    let ctx = RuntimeContext::from_req(config_of(&[]), &inbound);
    let kept = ctx.headers();
    assert_eq!(kept.len(), 300);
    for i in 0..300 {
        assert_eq!(
            ctx.header(format!("fn-http-h-k{}", i)),
            Some(i.to_string())
        );
        assert_eq!(ctx.header(format!("x-d{}", i)), None);
    }
}

#[test]
fn a_header_that_can_be_is_set_and_stays() {
    let mut ctx = context_of(&[("x-in", "1")]);
    ctx.set_status_code(202).unwrap();
    let before = ctx.clone();
    for i in 0..200 {
        assert_eq!(ctx.add_response_header(format!("X-Key-{}", i), format!("v{}", i)), Ok(()));
    }
    assert_eq!(ctx.add_response_header("x-key-7".to_string(), "again".to_string()), Ok(()));
    let headers = ctx.response_headers();
    assert_eq!(headers.len(), 200);
    for i in 0..200 {
        let expected = if i == 7 { "again".to_string() } else { format!("v{}", i) };
        assert_eq!(headers.get(format!("x-key-{}", i)).unwrap().as_bytes(), expected.as_bytes());
    }
    assert_eq!(ctx.headers(), before.headers());
    assert_eq!(ctx.get_status_code(), before.get_status_code());
    assert_eq!(ctx.content_type(), before.content_type());
    assert_eq!(ctx.accept_type(), before.accept_type());
}
