use wasmedge_quickjs::http::server::{server_response, HandlerBody, HandlerReply};
use wasmedge_quickjs::http::{lower_case, upper_case};

#[test]
fn handler_text_body_with_default_status() {
    let r = server_response(HandlerReply::Object {
        status: None,
        body: HandlerBody::Text("héllo".to_string()),
    });
    assert_eq!(200, r.status);
    assert_eq!("héllo".as_bytes().to_vec(), r.body);
}

#[test]
fn handler_bytes_body_with_status() {
    let r = server_response(HandlerReply::Object {
        status: Some(404),
        body: HandlerBody::Bytes(vec![1, 2, 3]),
    });
    assert_eq!(404, r.status);
    assert_eq!(vec![1u8, 2, 3], r.body);
}

#[test]
fn handler_other_body_uses_its_string_form() {
    let r = server_response(HandlerReply::Object {
        status: Some(201),
        body: HandlerBody::Other(Some("42".to_string())),
    });
    assert_eq!(201, r.status);
    assert_eq!(b"42".to_vec(), r.body);
}

#[test]
fn handler_body_without_string_form_is_a_server_error() {
    let r = server_response(HandlerReply::Object {
        status: Some(201),
        body: HandlerBody::Other(None),
    });
    assert_eq!(500, r.status);
    assert!(r.body.is_empty());
}

#[test]
fn handler_without_object_is_a_bad_request() {
    let r = server_response(HandlerReply::NotObject);
    assert_eq!(400, r.status);
    assert!(r.body.is_empty());
}

#[test]
fn handler_status_is_taken_as_sixteen_bits() {
    let r = server_response(HandlerReply::Object {
        status: Some(65536 + 302),
        body: HandlerBody::Bytes(vec![]),
    });
    assert_eq!(302, r.status);
}

#[test]
fn header_names_fold_case() {
    assert_eq!("content-length", lower_case("Content-LENGTH"));
    assert_eq!("GET", upper_case("get"));
}
