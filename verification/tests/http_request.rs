use std::collections::HashMap;
use wasmedge_quickjs::http::request::{BodyValue, HttpRequest, Resource};
use wasmedge_quickjs::http::{Method, ParseError, Version};

fn header_map(hs: &[(String, String)]) -> HashMap<String, String> {
    let mut m = HashMap::new();
    for (k, v) in hs {
        m.insert(k.clone(), v.clone());
    }
    m
}

#[test]
fn test_read_http() {
    let s: String = String::from("POST /greeting HTTP/1.1\r\nHost: localhost:3000\r\nUser-Agent: curl/7.64.1\r\nContent-Length: 11\r\nAccept: */*\r\n\r\ntestbody123");
    let mut headers_expected = HashMap::new();
    headers_expected.insert("Host".to_string(), "localhost".to_string());
    headers_expected.insert("Accept".to_string(), "*/*".to_string());
    headers_expected.insert("User-Agent".to_string(), "curl/7.64.1".to_string());
    headers_expected.insert("Content-Length".to_string(), "11".to_string());
    let r = HttpRequest::parse(s.as_bytes());
    println!("{:?}", r);
    let req = r.unwrap();
    assert_eq!(Method::Post, req.method);
    assert_eq!(Version::V1_1, req.version);
    assert_eq!(Resource::Path("/greeting".to_string()), req.resource);
    assert_eq!(headers_expected, header_map(&req.headers));
    assert_eq!(req.body.as_slice(), b"testbody123");
}

#[test]
fn test_display_http() {
    let req = HttpRequest {
        method: Method::Get,
        version: Version::V1_0,
        resource: Resource::Path("/abc".to_string()),
        headers: vec![("Content-Type".to_string(), "text/html".to_string())],
        body: b"abcd".to_vec(),
    };
    assert_eq!(
        "GET /abc HTTP/1.0\r\nContent-Type: text/html\r\nContent-Length: 4\r\n\r\n",
        req.to_string()
    )
}

#[test]
fn request_pending_without_full_body() {
    let s = "POST / HTTP/1.1\r\nContent-Length: 10\r\n\r\nabc";
    assert_eq!(ParseError::Pending, HttpRequest::parse(s.as_bytes()).unwrap_err());
    assert_eq!(ParseError::Pending, HttpRequest::parse(b"").unwrap_err());
    assert_eq!(
        ParseError::Pending,
        HttpRequest::parse(b"GET / HTTP/1.1\r\nHost: x\r\n").unwrap_err()
    );
}

#[test]
fn request_errors() {
    assert_eq!(
        ParseError::InvalidMethod,
        HttpRequest::parse(b"FETCH / HTTP/1.1\r\n\r\n").unwrap_err()
    );
    assert_eq!(ParseError::InvalidUrl, HttpRequest::parse(b"GET\r\n\r\n").unwrap_err());
    assert_eq!(ParseError::InvalidVersion, HttpRequest::parse(b"GET /\r\n\r\n").unwrap_err());
    assert_eq!(
        ParseError::InvalidVersion,
        HttpRequest::parse(b"GET / HTTP/2.0\r\n\r\n").unwrap_err()
    );
    assert_eq!(
        ParseError::InvalidHeaders,
        HttpRequest::parse(b"GET / HTTP/1.1\r\nbad header\r\n\r\n").unwrap_err()
    );
    assert_eq!(
        ParseError::InvalidHeaders,
        HttpRequest::parse(b"GET / HTTP/1.1\r\nContent-Length: x\r\n\r\n").unwrap_err()
    );
}

#[test]
fn request_print_then_parse_gives_it_back() {
    let req = HttpRequest {
        method: Method::Put,
        version: Version::V1_1,
        resource: Resource::Path("/a/b?c=d".to_string()),
        headers: vec![("X-Test".to_string(), "yes".to_string())],
        body: b"hello".to_vec(),
    };
    let mut bytes = req.to_string().into_bytes();
    bytes.extend_from_slice(&req.body);
    let back = HttpRequest::parse(&bytes).unwrap();
    assert_eq!(Method::Put, back.method);
    assert_eq!(Version::V1_1, back.version);
    assert_eq!(req.resource, back.resource);
    assert_eq!(b"hello".to_vec(), back.body);
    assert_eq!(Some(&"yes".to_string()), header_map(&back.headers).get("X-Test"));
}

#[test]
fn request_script_fields() {
    let mut req = HttpRequest::parse(b"GET /x HTTP/1.0\r\n\r\n").unwrap();
    assert_eq!(None, req.js_get_body());
    req.js_set_body(BodyValue::Text("hi".to_string()));
    assert_eq!(Some(b"hi".to_vec()), req.js_get_body());
    req.js_set_body(BodyValue::Other);
    assert_eq!(Some(b"hi".to_vec()), req.js_get_body());
    assert_eq!("Get", req.js_get_method());
    req.js_set_method("post");
    assert_eq!("Post", req.js_get_method());
    assert_eq!("HTTP/1.0", req.js_get_version());
    req.js_set_version("HTTP/1.1");
    assert_eq!("HTTP/1.1", req.js_get_version());
    assert_eq!("/x", req.js_get_uri());
    req.js_set_uri("/y".to_string());
    assert_eq!("/y", req.js_get_uri());
    req.js_set_header("Accept", "*/*".to_string());
    assert_eq!(Some("*/*".to_string()), req.js_get_header("accept"));
    assert_eq!(None, req.js_get_header("host"));
}

#[test]
fn request_with_length_header_reads_back_exactly() {
    let req = HttpRequest {
        method: Method::Post,
        version: Version::V1_0,
        resource: Resource::Path("/submit".to_string()),
        headers: vec![
            ("Host".to_string(), "example".to_string()),
            ("Content-Length".to_string(), "3".to_string()),
        ],
        body: b"abc".to_vec(),
    };
    let mut bytes = req.to_string().into_bytes();
    bytes.extend_from_slice(&req.body);
    let back = HttpRequest::parse(&bytes).unwrap();
    assert_eq!(req.method, back.method);
    assert_eq!(req.version, back.version);
    assert_eq!(req.resource, back.resource);
    assert_eq!(req.headers, back.headers);
    assert_eq!(req.body, back.body);
}
