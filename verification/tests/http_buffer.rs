use wasmedge_quickjs::http::buffer::{Buffer, EndStep, WasiChunkResponse};
use wasmedge_quickjs::http::chunk::HttpChunk;
use wasmedge_quickjs::http::response::HttpResponse;
use wasmedge_quickjs::http::{BodyLen, Method, ParseError, Version};

#[test]
fn chunk_pieces() {
    let data = b"4\r\nWiki\r\n0\r\n\r\n";
    let (d, n) = HttpChunk::parse(data).unwrap();
    assert_eq!(b"Wiki".to_vec(), d);
    assert_eq!(9, n);
    let (d, n) = HttpChunk::parse(&data[9..]).unwrap();
    assert!(d.is_empty());
    assert_eq!(5, n);
    assert_eq!(ParseError::Pending, HttpChunk::parse(b"").unwrap_err());
    assert_eq!(ParseError::Pending, HttpChunk::parse(b"a\r\nabc").unwrap_err());
    assert_eq!(ParseError::InvalidChunk, HttpChunk::parse(b"xyz\r\nabc\r\n").unwrap_err());
    let (d, _) = HttpChunk::parse(b" A \r\n0123456789\r\n").unwrap();
    assert_eq!(b"0123456789".to_vec(), d);
}

#[test]
fn buffer_reads_response_then_chunks() {
    let mut buf = Buffer::new(None);
    assert_eq!(0, buf.js_length());
    assert_eq!(None, buf.js_buffer());
    assert!(buf.js_append(b"HTTP/1.1 200 OK\r\nTransfer-Encoding: chunked\r\n\r\n3\r\nabc\r\n"));
    let resp = buf.js_parse_response().unwrap();
    assert_eq!(BodyLen::Chunked, resp.body_len);
    assert_eq!(Version::V1_1, resp.version);
    assert_eq!(Some(b"abc".to_vec()), buf.js_parse_chunk_data().unwrap());
    assert_eq!(0, buf.js_length());
    assert!(buf.js_append(b"0\r\n\r\n"));
    assert_eq!(None, buf.js_parse_chunk_data().unwrap());
    assert_eq!(ParseError::Pending, buf.js_parse_chunk_data().unwrap_err());
    buf.js_clear();
    assert_eq!(0, buf.js_length());
}

#[test]
fn buffer_parses_request_without_consuming() {
    let buf = Buffer::new(Some(b"GET /index.html HTTP/1.1\r\nHost: a\r\n\r\n".to_vec()));
    let r1 = buf.js_parse_request().unwrap();
    let r2 = buf.js_parse_request().unwrap();
    assert_eq!(Method::Get, r1.method);
    assert_eq!(r1.resource, r2.resource);
    assert_eq!(buf.as_ref(), b"GET /index.html HTTP/1.1\r\nHost: a\r\n\r\n".to_vec());
}

#[test]
fn response_needs_announced_body() {
    let mut buf = Buffer::new(Some(b"HTTP/1.0 404 Not Found\r\nContent-Length: 5\r\n\r\nab".to_vec()));
    assert_eq!(ParseError::Pending, buf.js_parse_response().unwrap_err());
    assert_eq!(buf.js_length(), 47);
    assert!(buf.js_append(b"cde"));
    let resp = buf.js_parse_response().unwrap();
    assert_eq!(404, resp.status_code);
    assert_eq!("Not", resp.status_text);
    assert_eq!(Some(b"abcde".to_vec()), buf.js_buffer());
}

#[test]
fn response_status_errors() {
    assert_eq!(ParseError::InvalidStatusLine, HttpResponse::parse(b"HTTP/1.1\r\n\r\n").unwrap_err());
    assert_eq!(
        ParseError::InvalidStatusCode,
        HttpResponse::parse(b"HTTP/1.1 abc OK\r\n\r\n").unwrap_err()
    );
    assert_eq!(
        ParseError::InvalidStatusCode,
        HttpResponse::parse(b"HTTP/1.1 70000 OK\r\n\r\n").unwrap_err()
    );
    assert_eq!(
        ParseError::InvalidVersion,
        HttpResponse::parse(b"HTTP/3 200 OK\r\n\r\n").unwrap_err()
    );
}

#[test]
fn chunked_stream_frames() {
    let mut w = WasiChunkResponse { open: true };
    assert!(w.js_on());
    assert_eq!(Some(("1a\r\n".to_string(), "\r\n".to_string())), w.js_write(26));
    assert_eq!(EndStep::WriteFailed, w.js_end(false));
    assert!(w.js_on());
    assert_eq!(EndStep::Close("0\r\n\r\n".to_string()), w.js_end(true));
    assert!(!w.js_on());
    assert_eq!(None, w.js_write(1));
    assert_eq!(EndStep::Shutdown, w.js_end(true));
}

#[test]
fn response_script_fields() {
    let mut resp = HttpResponse::new(404, None);
    assert_eq!("Not Found", resp.js_get_status_text());
    resp.js_set_status(200);
    assert_eq!(200, resp.js_get_status());
    assert_eq!("OK", resp.js_get_status_text());
    resp.js_set_status(299);
    assert_eq!("", resp.js_get_status_text());
    resp.js_set_status_text("Fine".to_string());
    assert_eq!("HTTP/1.0", resp.js_get_version());
    resp.js_set_version("HTTP/1.1");
    assert_eq!("HTTP/1.1", resp.js_get_version());
    resp.js_set_body_length(Some(3));
    assert_eq!(BodyLen::Length(3), resp.js_get_body_length());
    resp.js_set_headers(vec![("X-A".to_string(), "1".to_string())]);
    assert_eq!(1, resp.js_get_headers().len());
    let bytes = resp.js_encode(Some(b"hey".to_vec()));
    assert_eq!(
        b"HTTP/1.1 299 Fine\r\nX-A: 1\r\nContent-Length: 3\r\n\r\nhey".to_vec(),
        bytes
    );
    let head = resp.js_chunk();
    assert_eq!(
        b"HTTP/1.1 299 Fine\r\nX-A: 1\r\nTransfer-Encoding: chunked\r\n\r\n".to_vec(),
        head
    );
    let from = HttpResponse::from_status(None, 201, "Created");
    assert_eq!("HTTP/1.0 201 Created\r\n\r\n", from.to_string());
}

#[test]
fn response_head_cut_at_a_line_asks_for_more() {
    let data = b"HTTP/1.1 200 OK\r\nServer: x\r\nContent-Length: 0\r\n\r\n";
    let (_, n) = HttpResponse::parse(data).unwrap();
    assert_eq!(data.len(), n);
    for k in 0..n {
        if k == 0 || data[k - 1] == b'\n' {
            assert_eq!(ParseError::Pending, HttpResponse::parse(&data[..k]).unwrap_err());
        }
    }
}
