//! The response that the HTTP server module sends for what a script's request handler
//! returned.
use vstd::prelude::*;
use vstd::utf8::*;
use crate::http::utf8_bytes;

verus! {

/// The `body` field of the object that a request handler returned.
pub enum HandlerBody {
    /// A string.
    Text(String),
    /// An `ArrayBuffer`, by its bytes.
    Bytes(Vec<u8>),
    /// Any other value: the string it converts to, or `None` when it converts to none.
    Other(Option<String>),
}

/// What a request handler returned.
pub enum HandlerReply {
    /// An object: its `status` field where that is an integer, and its `body` field.
    Object { status: Option<i32>, body: HandlerBody },
    /// A value that is no object.
    NotObject,
}

/// The status line code and the body of the response sent back. The response is always
/// written as `HTTP/1.0` with an empty reason phrase.
pub struct ServerResponse {
    pub status: u16,
    pub body: Vec<u8>,
}

/// The status that a handler's `status` field gives: the integer taken as a 16-bit code,
/// 200 when the field holds no integer.
pub open spec fn reply_status(status: Option<i32>) -> u16 {
    match status {
        Some(s) => s as u16,
        None => 200,
    }
}

/// The status and body sent for a handler's reply: the status of the reply and its body
/// (a string as its UTF-8 bytes, an `ArrayBuffer` as it is, another value as the UTF-8
/// bytes of its string form); 500 and no body when the body has no string form; 400 and no
/// body when the handler returned no object.
pub open spec fn server_response_spec(reply: HandlerReply) -> (u16, Seq<u8>) {
    match reply {
        HandlerReply::NotObject => (400, seq![]),
        HandlerReply::Object { status, body } => match body {
            HandlerBody::Text(s) => (reply_status(status), encode_utf8(s@)),
            HandlerBody::Bytes(b) => (reply_status(status), b@),
            HandlerBody::Other(Some(s)) => (reply_status(status), encode_utf8(s@)),
            HandlerBody::Other(None) => (500, seq![]),
        },
    }
}

/// Decides the response for what a request handler returned, as `server_response_spec`
/// says.
pub fn server_response(reply: HandlerReply) -> (r: ServerResponse)
    ensures
        (r.status, r.body@) == server_response_spec(reply),
{
    match reply {
        HandlerReply::NotObject => ServerResponse { status: 400, body: Vec::new() },
        HandlerReply::Object { status, body } => {
            let code: u16 = match status {
                Some(s) => s as u16,
                None => 200,
            };
            match body {
                HandlerBody::Text(s) => ServerResponse { status: code, body: utf8_bytes(&s) },
                HandlerBody::Bytes(b) => ServerResponse { status: code, body: b },
                HandlerBody::Other(Some(s)) => ServerResponse {
                    status: code,
                    body: utf8_bytes(&s),
                },
                HandlerBody::Other(None) => ServerResponse { status: 500, body: Vec::new() },
            }
        },
    }
}


/// Whatever kind of body a handler's object holds, as long as it has a string form, the
/// status sent is the handler's integer status taken as 16 bits, or 200 when it gave none;
/// only a body without a string form turns the status into 500.
pub proof fn lemma_status_follows_handler(status: Option<i32>, body: HandlerBody)
    ensures
        ({
            let sent = server_response_spec(HandlerReply::Object { status, body }).0;
            &&& !(body matches HandlerBody::Other(None)) ==> match status {
                Some(s) => sent == s as u16,
                None => sent == 200,
            }
            &&& body matches HandlerBody::Other(None) ==> sent == 500
        }),
{
}

} // verus!
