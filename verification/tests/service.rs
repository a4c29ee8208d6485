use dynproxy::request::backend_request;
use dynproxy::service::{ProxyService, Reply, Routing, Status};
use http::header::{HeaderMap, HeaderName, HeaderValue};
use http::Request;

fn headers(fields: &[(&str, &str)]) -> HeaderMap {
    let mut map = HeaderMap::new();
    for (name, value) in fields {
        map.append(
            HeaderName::from_bytes(name.as_bytes()).unwrap(),
            HeaderValue::from_bytes(value.as_bytes()).unwrap(),
        );
    }
    map
}

fn values(request: &Request<()>, name: &str) -> Vec<Vec<u8>> {
    request.headers().get_all(name).iter().map(|v| v.as_bytes().to_vec()).collect()
}

fn dynamic() -> ProxyService {
    ProxyService::new("default:50051".to_string())
}

fn fixed() -> ProxyService {
    ProxyService::fixed("10.0.0.2:8080".to_string())
}

fn sent(outcome: Option<Result<Request<()>, Reply>>) -> Request<()> {
    outcome.expect("the text is a URI").expect("the request can be forwarded")
}

#[test]
fn new_service_is_dynamic_and_keeps_its_default() {
    let service = dynamic();
    assert_eq!(service.default_backend, "default:50051");
    assert_eq!(service.routing, Routing::Dynamic);
    assert_eq!(fixed().routing, Routing::Fixed);
    assert_eq!(fixed().default_backend, "10.0.0.2:8080");
}

#[test]
fn named_backend_is_extracted() {
    let map = headers(&[("x-backend", "10.1.1.1:9000"), ("accept", "*/*")]);
    assert_eq!(dynamic().extract_backend(&map), "10.1.1.1:9000");
}

#[test]
fn field_name_is_matched_without_regard_to_case() {
    let map = headers(&[("X-Backend", "10.1.1.1:9000")]);
    assert_eq!(dynamic().extract_backend(&map), "10.1.1.1:9000");
}

#[test]
fn first_of_several_named_backends_counts() {
    let map = headers(&[("x-backend", "one:1"), ("accept", "*/*"), ("x-backend", "two:2")]);
    assert_eq!(dynamic().extract_backend(&map), "one:1");
}

#[test]
fn default_backend_without_the_field() {
    assert_eq!(dynamic().extract_backend(&headers(&[("accept", "*/*")])), "default:50051");
    assert_eq!(dynamic().extract_backend(&HeaderMap::new()), "default:50051");
}

#[test]
fn default_backend_when_the_value_is_not_visible() {
    let mut map = HeaderMap::new();
    map.append("x-backend", HeaderValue::from_bytes(b"caf\xe9:1").unwrap());
    map.append("x-backend", HeaderValue::from_static("second:2"));
    assert_eq!(dynamic().extract_backend(&map), "default:50051");
}

#[test]
fn empty_named_backend_is_taken_as_it_is() {
    assert_eq!(dynamic().extract_backend(&headers(&[("x-backend", "")])), "");
}

#[test]
fn fixed_backend_ignores_the_field() {
    let map = headers(&[("x-backend", "10.1.1.1:9000")]);
    assert_eq!(fixed().extract_backend(&map), "10.0.0.2:8080");
}

#[test]
fn request_goes_to_the_named_backend() {
    let map = headers(&[
        ("x-backend", "10.1.1.1:9000"),
        ("host", "proxy.local"),
        ("accept", "text/html"),
        ("accept", "text/plain"),
        ("te", "trailers"),
    ]);
    let request = sent(dynamic().call("POST", "/pkg.Service/Method?x=1&y=2", map));
    assert_eq!(request.method().as_str(), "POST");
    assert_eq!(request.uri().to_string(), "http://10.1.1.1:9000/pkg.Service/Method?x=1&y=2");
    assert_eq!(values(&request, "accept"), vec![b"text/html".to_vec(), b"text/plain".to_vec()]);
    assert_eq!(values(&request, "te"), vec![b"trailers".to_vec()]);
    assert!(!request.headers().contains_key("x-backend"));
    assert_eq!(values(&request, "host"), vec![b"10.1.1.1:9000".to_vec()]);
    assert_eq!(request.headers().len(), 4);
}

#[test]
fn request_goes_to_the_default_backend() {
    let request = sent(dynamic().call("GET", "/a", headers(&[("accept", "*/*")])));
    assert_eq!(request.uri().to_string(), "http://default:50051/a");
    assert_eq!(values(&request, "accept"), vec![b"*/*".to_vec()]);
    assert_eq!(values(&request, "host"), vec![b"default:50051".to_vec()]);
}

#[test]
fn request_goes_on_in_version_1_1() {
    let request = sent(dynamic().call("GET", "/a", HeaderMap::new()));
    assert_eq!(request.version(), http::Version::HTTP_11);
    assert_eq!(format!("{:?}", request.version()), "HTTP/1.1");
}

#[test]
fn fixed_service_tells_requests_apart_by_nothing_but_their_own_fields() {
    let plain = sent(fixed().call("GET", "/a", headers(&[("accept", "*/*")])));
    let named = sent(
        fixed().call("GET", "/a", headers(&[("accept", "*/*"), ("x-backend", "evil:1")])),
    );
    assert_eq!(plain.uri(), named.uri());
    assert_eq!(plain.headers(), named.headers());
    assert_eq!(named.uri().to_string(), "http://10.0.0.2:8080/a");
}

#[test]
fn host_field_names_the_backend() {
    let map = headers(&[("host", "proxy.example"), ("accept", "*/*")]);
    let service = ProxyService::new("10.0.0.1:9091".to_string());
    let request = sent(service.call("GET", "http://proxy.example/a", map));
    assert_eq!(values(&request, "host"), vec![b"10.0.0.1:9091".to_vec()]);
    assert_eq!(request.uri().to_string(), "http://10.0.0.1:9091/a");
}

#[test]
fn host_of_the_target_is_not_sent() {
    let map = headers(&[("host", "proxy.local"), ("accept", "*/*")]);
    let request = sent(dynamic().call("GET", "http://user@example.com:81/p?q", map));
    assert_eq!(values(&request, "host"), vec![b"default:50051".to_vec()]);
    assert_eq!(request.uri().to_string(), "http://default:50051/p?q");
}

#[test]
fn host_field_has_the_port_only_if_the_backend_has_one() {
    for (backend, host) in [
        ("backend.local", "backend.local"),
        ("backend.local:80", "backend.local:80"),
        ("user:secret@backend.local:81", "backend.local:81"),
        ("user@backend.local", "backend.local"),
        ("[::1]:9000", "[::1]:9000"),
        ("[::1]", "[::1]"),
        ("backend.local:", "backend.local"),
    ] {
        let request = sent(dynamic().call("GET", "/", headers(&[("x-backend", backend)])));
        assert_eq!(values(&request, "host"), vec![host.as_bytes().to_vec()], "{}", backend);
    }
}

#[test]
fn query_without_a_path_is_kept() {
    let request = sent(dynamic().call("GET", "http://a?x=1", HeaderMap::new()));
    assert_eq!(request.uri().query(), Some("x=1"));
    assert_eq!(request.uri().path(), "/");
    assert_eq!(request.uri().authority().unwrap().as_str(), "default:50051");
}

#[test]
fn root_stands_for_a_missing_path() {
    let request = sent(dynamic().call("CONNECT", "example.com:443", HeaderMap::new()));
    assert_eq!(request.uri().to_string(), "http://default:50051/");
    assert_eq!(values(&request, "host"), vec![b"default:50051".to_vec()]);
    assert_eq!(request.method().as_str(), "CONNECT");
}

#[test]
fn values_that_are_not_visible_stay_behind() {
    let mut map = headers(&[("accept", "one"), ("x-name", "tab\there")]);
    map.append("accept", HeaderValue::from_bytes(b"\xff\xfe").unwrap());
    map.append("accept", HeaderValue::from_static("three"));
    map.append("x-binary", HeaderValue::from_bytes(b"\x80").unwrap());
    let request = sent(dynamic().call("GET", "/", map));
    assert_eq!(values(&request, "accept"), vec![b"one".to_vec(), b"three".to_vec()]);
    assert_eq!(values(&request, "x-name"), vec![b"tab\there".to_vec()]);
    assert!(!request.headers().contains_key("x-binary"));
}

#[test]
fn forwarding_again_changes_nothing_but_the_host() {
    let map = headers(&[("x-backend", "b:1"), ("accept", "a"), ("accept", "b"), ("host", "h")]);
    let once = sent(dynamic().call("GET", "http://first/", map));
    let twice = sent(dynamic().call("GET", "/", once.headers().clone()));
    assert_eq!(values(&once, "host"), vec![b"b:1".to_vec()]);
    assert_eq!(values(&twice, "host"), vec![b"default:50051".to_vec()]);
    assert_eq!(values(&once, "accept"), values(&twice, "accept"));
    assert_eq!(once.headers().len(), twice.headers().len());
}

#[test]
fn backend_that_is_no_address_is_a_bad_request() {
    let map = headers(&[("x-backend", "not a host")]);
    let reply = dynamic().call("GET", "/", map).unwrap().unwrap_err();
    assert_eq!(reply.status, Status::BadRequest);
    assert_eq!(reply.status.code(), 400);
    assert_eq!(reply.body, "Bad request: invalid uri character");
}

#[test]
fn backend_with_a_bad_path_is_a_bad_request() {
    let reply = dynamic().call("GET", "/", headers(&[("x-backend", "a:b:c")])).unwrap().unwrap_err();
    assert_eq!(reply.body, "Bad request: invalid authority");
}

#[test]
fn empty_backend_is_a_bad_request() {
    let reply = dynamic().call("GET", "/", headers(&[("x-backend", "")])).unwrap().unwrap_err();
    assert_eq!(reply.status.code(), 400);
    assert_eq!(reply.body, "Bad request: invalid format");
}

#[test]
fn text_that_is_no_uri_has_no_outcome() {
    assert!(dynamic().call("GET", "", HeaderMap::new()).is_none());
    assert!(dynamic().call("GET", "a b", HeaderMap::new()).is_none());
}

#[test]
fn text_that_is_no_method_is_a_bad_request() {
    let reply = dynamic().forward("GE T", Some("/"), HeaderMap::new()).unwrap_err();
    assert_eq!(reply.body, "Bad request: invalid HTTP method");
    let reply = dynamic().forward("", Some("/"), HeaderMap::new()).unwrap_err();
    assert_eq!(reply.body, "Bad request: invalid HTTP method");
}

#[test]
fn method_is_kept_letter_for_letter() {
    let request = dynamic().forward("m-Search!", None, HeaderMap::new()).unwrap();
    assert_eq!(request.method().as_str(), "m-Search!");
    assert_eq!(request.uri().to_string(), "http://default:50051/");
}

#[test]
fn method_is_checked_before_the_address() {
    let map = headers(&[("x-backend", "not a host")]);
    let reply = dynamic().forward("", None, map).unwrap_err();
    assert_eq!(reply.body, "Bad request: invalid HTTP method");
}

#[test]
fn naming_a_backend_is_like_having_it_as_the_default() {
    for backend in ["other:7", "", "not a host", "[::1]"] {
        let fields = [("accept", "a"), ("te", "trailers")];
        let mut naming = headers(&fields);
        naming.append("x-backend", HeaderValue::from_str(backend).unwrap());
        let named = dynamic().call("PUT", "/p?q", naming).unwrap();
        for service in [
            ProxyService::new(backend.to_string()),
            ProxyService::fixed(backend.to_string()),
        ] {
            let by_default = service.call("PUT", "/p?q", headers(&fields)).unwrap();
            match (&named, by_default) {
                (Ok(a), Ok(b)) => {
                    assert_eq!(a.method(), b.method());
                    assert_eq!(a.uri(), b.uri());
                    assert_eq!(a.version(), b.version());
                    assert_eq!(a.headers(), b.headers());
                }
                (Err(a), Err(b)) => {
                    assert_eq!(a.status, b.status);
                    assert_eq!(a.body, b.body);
                }
                _ => panic!("{}", backend),
            }
        }
    }
}

#[test]
fn requested_backend_is_the_one_that_is_named() {
    let map = headers(&[("x-backend", "one:1"), ("x-backend", "two:2")]);
    assert_eq!(dynamic().requested_backend(&map), Some("one:1".to_string()));
    assert_eq!(fixed().requested_backend(&map), None);
    assert_eq!(dynamic().requested_backend(&HeaderMap::new()), None);
    let mut map = HeaderMap::new();
    map.append("x-backend", HeaderValue::from_bytes(b"\xff").unwrap());
    assert_eq!(dynamic().requested_backend(&map), None);
}

#[test]
fn route_is_the_address_at_the_backend() {
    let map = headers(&[("x-backend", "not a host")]);
    assert_eq!(dynamic().route("/p?q", &map), Some("http://not a host/p?q".to_string()));
    assert_eq!(fixed().route("/p?q", &map), Some("http://10.0.0.2:8080/p?q".to_string()));
    assert_eq!(dynamic().route("a b", &map), None);
    assert_eq!(
        dynamic().backend_address(None, &HeaderMap::new()),
        "http://default:50051/".to_string()
    );
}

#[test]
fn stored_name_that_does_not_read_back_is_a_bad_request() {
    let mut map = HeaderMap::new();
    map.append(HeaderName::from_lowercase(b"odd\"name").unwrap(), HeaderValue::from_static("v"));
    let reply = dynamic().call("GET", "/", map).unwrap().unwrap_err();
    assert_eq!(reply.body, "Bad request: invalid HTTP header name");
}

/// A long name with a space, which a header map takes as a static text.
const SPACED: &str = "x-long-name-long-name-long-name-long-name-long-name-long-name-long name";

#[test]
fn long_static_name_with_a_space_is_a_bad_request() {
    let mut map = HeaderMap::new();
    map.append(SPACED, HeaderValue::from_static("v"));
    assert!(SPACED.len() > 64);
    assert!(map.keys().all(|name| name.as_str().contains('\0')));
    let reply = dynamic().call("GET", "/", map).unwrap().unwrap_err();
    assert_eq!(reply.status.code(), 400);
    assert_eq!(reply.body, "Bad request: invalid HTTP header name");
}

#[test]
fn long_static_name_without_a_visible_value_does_no_harm() {
    let mut map = headers(&[("accept", "*/*"), ("x-backend", "b:1")]);
    map.append(SPACED, HeaderValue::from_bytes(b"\xff").unwrap());
    let request = sent(dynamic().call("GET", "/", map));
    assert_eq!(values(&request, "accept"), vec![b"*/*".to_vec()]);
    assert_eq!(values(&request, "host"), vec![b"b:1".to_vec()]);
    assert_eq!(request.headers().len(), 2);
}

#[test]
fn stored_name_without_a_visible_value_does_no_harm() {
    let mut map = HeaderMap::new();
    map.append(
        HeaderName::from_lowercase(b"odd\"name").unwrap(),
        HeaderValue::from_bytes(b"\xff").unwrap(),
    );
    let request = sent(dynamic().call("GET", "/", map));
    assert_eq!(request.headers().len(), 1);
    assert!(request.headers().contains_key("host"));
}

#[test]
fn many_names_go_on() {
    let mut map = HeaderMap::new();
    for i in 0..6000 {
        let name = format!("x-name-{}", i);
        map.append(
            HeaderName::from_bytes(name.as_bytes()).unwrap(),
            HeaderValue::from_static("v"),
        );
    }
    let request = sent(dynamic().call("GET", "http://h/", map));
    assert_eq!(request.headers().len(), 6001);
}

#[test]
fn more_names_than_a_map_holds_are_a_bad_request() {
    let mut map = HeaderMap::new();
    for i in 0..24576 {
        let name = format!("x-name-{}", i);
        map.append(
            HeaderName::from_bytes(name.as_bytes()).unwrap(),
            HeaderValue::from_static("v"),
        );
    }
    let reply = dynamic().call("GET", "http://h/", map).unwrap().unwrap_err();
    assert_eq!(reply.status.code(), 400);
    assert_eq!(reply.body, "Bad request: max size reached");
}

#[test]
fn backend_request_takes_the_uri_as_it_is() {
    let map = headers(&[("x-backend", "b:1"), ("host", "h"), ("accept", "*/*")]);
    let request = backend_request("PUT", "http://b:1/x?y", &map).unwrap();
    assert_eq!(request.method().as_str(), "PUT");
    assert_eq!(request.uri().to_string(), "http://b:1/x?y");
    assert_eq!(request.headers().len(), 2);
    assert_eq!(values(&request, "host"), vec![b"b:1".to_vec()]);
    assert_eq!(
        backend_request("PUT", "http://", &map).unwrap_err(),
        "http://".parse::<http::Uri>().unwrap_err().to_string()
    );
}

#[test]
fn backend_request_for_a_uri_without_a_host_has_no_host_field() {
    let request = backend_request("GET", "/x", &headers(&[("host", "h")])).unwrap();
    assert_eq!(request.headers().len(), 0);
}

#[test]
fn answer_of_the_backend_is_handed_on() {
    let outcome = ProxyService::conclude(Ok::<u32, String>(7));
    assert_eq!(outcome.unwrap(), 7);
}

#[test]
fn silent_backend_is_a_bad_gateway() {
    let outcome = ProxyService::conclude::<u32>(Err("connection refused".to_string()));
    let reply = outcome.unwrap_err();
    assert_eq!(reply.status, Status::BadGateway);
    assert_eq!(reply.status.code(), 502);
    assert_eq!(reply.body, "Bad gateway: connection refused");
}

#[test]
fn replies_carry_their_reason() {
    assert_eq!(Reply::bad_request("why").body, "Bad request: why");
    assert_eq!(Reply::bad_gateway("").body, "Bad gateway: ");
}

#[test]
fn reply_becomes_a_response() {
    let response = Reply::bad_request("why").into_response();
    assert_eq!(response.status().as_u16(), 400);
    assert_eq!(response.version(), http::Version::HTTP_11);
    assert_eq!(response.headers().len(), 0);
    assert_eq!(response.body(), "Bad request: why");
    let response = Reply::bad_gateway("down").into_response();
    assert_eq!(response.status(), http::StatusCode::BAD_GATEWAY);
    assert_eq!(response.into_body(), "Bad gateway: down");
}
