use wasmedge_quickjs::http::response::HttpResponse;
use wasmedge_quickjs::http::{BodyLen, Version};

#[test]
fn test_response_struct_creation_200() {
    let response_expected = HttpResponse {
        version: Version::V1_0,
        status_code: 200,
        status_text: "OK".to_string(),
        headers: vec![("Content-Type".to_string(), "text/html".to_string())],
        body_len: BodyLen::Length(10),
    };

    assert_eq!(
        "HTTP/1.0 200 OK\r\nContent-Type: text/html\r\nContent-Length: 10\r\n\r\n",
        response_expected.to_string()
    );
}

#[test]
fn test_response_struct_parse() {
    let data = "HTTP/1.0 200 OK\r\nContent-Length: 4\r\nContent-Type: text/html\r\n\r\nhaha";
    let (resp, n) = HttpResponse::parse(data.as_bytes()).unwrap();
    assert_eq!(Version::V1_0, resp.version);
    assert_eq!(200, resp.status_code);
    assert_eq!("OK", resp.status_text);
    assert_eq!(BodyLen::Length(4), resp.body_len);
    assert_eq!("haha", data.split_at(n).1)
}

#[test]
fn response_head_print_then_parse_gives_it_back() {
    let resp = HttpResponse {
        version: Version::V1_1,
        status_code: 204,
        status_text: "Empty".to_string(),
        headers: vec![
            ("Server".to_string(), "wasmedge".to_string()),
            ("X-Empty".to_string(), "".to_string()),
        ],
        body_len: BodyLen::Length(0),
    };
    let text = resp.to_string();
    let (back, n) = HttpResponse::parse(text.as_bytes()).unwrap();
    assert_eq!(text.len(), n);
    assert_eq!(resp.version, back.version);
    assert_eq!(resp.status_code, back.status_code);
    assert_eq!(resp.status_text, back.status_text);
    assert_eq!(resp.headers, back.headers);
    assert_eq!(resp.body_len, back.body_len);
}
