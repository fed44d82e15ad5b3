use crate::classify::{classified_bytes, classify};
use crate::error::{ClientError, ClientFault};
use crate::json::Json;
use crate::render::rendered;
use crate::shape::Shape;
use crate::views::outcome;
use vstd::prelude::*;

verus! {

/// How long a call may wait for its answer, in seconds.
pub const TIMEOUT_SECS: u64 = 30;

/// The content type of every request.
pub const CONTENT_TYPE: &'static str = "application/json";

/// One HTTP POST, ready to be sent: where to, how long to wait, the two
/// headers and the body.
#[derive(Debug, PartialEq, Eq)]
pub struct HttpRequest {
    pub url: String,
    pub timeout_secs: u64,
    /// The header `Content-Type`.
    pub content_type: String,
    /// The header `Authorization`.
    pub authorization: String,
    pub body: String,
}

/// The mathematical value of an [`HttpRequest`].
pub struct HttpRequestView {
    pub url: Seq<char>,
    pub timeout_secs: u64,
    pub content_type: Seq<char>,
    pub authorization: Seq<char>,
    pub body: Seq<char>,
}

impl DeepView for HttpRequest {
    type V = HttpRequestView;

    open spec fn deep_view(&self) -> HttpRequestView {
        HttpRequestView {
            url: self.url@,
            timeout_secs: self.timeout_secs,
            content_type: self.content_type@,
            authorization: self.authorization@,
            body: self.body@,
        }
    }
}

impl View for HttpRequest {
    type V = HttpRequestView;

    open spec fn view(&self) -> HttpRequestView {
        self.deep_view()
    }
}

/// The POST of a JSON body to `url` in the name of the holder of `api_key`:
/// the key goes into the header `Authorization` as a bearer token, as it is.
pub open spec fn post(url: Seq<char>, api_key: Seq<char>, body: Seq<char>) -> HttpRequestView {
    HttpRequestView {
        url,
        timeout_secs: TIMEOUT_SECS,
        content_type: CONTENT_TYPE@,
        authorization: "Bearer "@ + api_key,
        body,
    }
}

/// Makes the POST of `body` to `url`.
pub fn post_json(url: &str, api_key: &str, body: String) -> (request: HttpRequest)
    ensures
        request@ == post(url@, api_key@, body@),
{
    let mut authorization = String::from_str("Bearer ");
    authorization.append(api_key);
    HttpRequest {
        url: String::from_str(url),
        timeout_secs: TIMEOUT_SECS,
        content_type: String::from_str(CONTENT_TYPE),
        authorization,
        body,
    }
}

/// The request that carries a document to `url`, where the document can be
/// written; where it cannot, the local error that carries the report.
pub open spec fn prepared(url: Seq<char>, api_key: Seq<char>, body: Result<Seq<char>, Seq<char>>)
    -> Result<HttpRequestView, ClientFault> {
    match body {
        Ok(text) => Ok(post(url, api_key, text)),
        Err(report) => Err(ClientFault::OtherError(report)),
    }
}

/// Writes `document` and makes the request that carries it to `url`.
pub fn prepare(url: &str, api_key: &str, document: &Json) -> (r: Result<HttpRequest, ClientError>)
    ensures
        outcome(r) == prepared(url@, api_key@, rendered(document@)),
{
    match document.render() {
        Ok(body) => Ok(post_json(url, api_key, body)),
        Err(report) => Err(ClientError::OtherError(report)),
    }
}

/// What came of sending a request.
#[derive(Debug, PartialEq, Eq)]
pub enum Reply {
    /// The request could not be sent, or no answer came in time.
    SendFailed(String),
    /// An answer came, and its body could not be read to the end.
    ReadFailed(String),
    /// The body of the answer.
    Body(Vec<u8>),
}

/// The mathematical value of a [`Reply`].
pub enum ReplyView {
    SendFailed(Seq<char>),
    ReadFailed(Seq<char>),
    Body(Seq<u8>),
}

impl DeepView for Reply {
    type V = ReplyView;

    open spec fn deep_view(&self) -> ReplyView {
        match self {
            Reply::SendFailed(detail) => ReplyView::SendFailed(detail@),
            Reply::ReadFailed(detail) => ReplyView::ReadFailed(detail@),
            Reply::Body(bytes) => ReplyView::Body(bytes@),
        }
    }
}

impl View for Reply {
    type V = ReplyView;

    open spec fn view(&self) -> ReplyView {
        self.deep_view()
    }
}

/// What a reply means to the caller: a request that could not be sent and an
/// answer that could not be read are network errors, each with its detail; a
/// body is classified.
pub open spec fn answered<R: Shape>(reply: ReplyView) -> Result<<R as DeepView>::V, ClientFault> {
    match reply {
        ReplyView::SendFailed(detail) => Err(ClientFault::NetworkError(detail)),
        ReplyView::ReadFailed(detail) => Err(ClientFault::NetworkError(detail)),
        ReplyView::Body(bytes) => classified_bytes::<R>(bytes),
    }
}

/// Turns a reply into the response or the error that the caller gets.
pub fn answer<R: Shape>(reply: Reply) -> (r: Result<R, ClientError>)
    ensures
        outcome(r) == answered::<R>(reply@),
{
    match reply {
        Reply::SendFailed(detail) => Err(ClientError::NetworkError(detail)),
        Reply::ReadFailed(detail) => Err(ClientError::NetworkError(detail)),
        Reply::Body(bytes) => classify::<R>(bytes.as_slice()),
    }
}

/// What a caller may get from a call that had `call` to send, or could not
/// write it, and that went through `send`: the error of writing, or what
/// some reply of `send` to that request means.
pub open spec fn performed<R: Shape, F: FnOnce(HttpRequest) -> Reply>(
    call: Result<HttpRequestView, ClientFault>,
    send: F,
    got: Result<<R as DeepView>::V, ClientFault>,
) -> bool {
    match call {
        Err(fault) => got == Err::<<R as DeepView>::V, ClientFault>(fault),
        Ok(sent) => exists|request: HttpRequest, reply: Reply|
            request@ == sent && send.ensures((request,), reply) && got == answered::<R>(reply@),
    }
}

/// Sends the request once through `send`, if there is one, and turns the
/// reply into the response or the error that the caller gets. A request that
/// could not be written is not sent; no request is sent twice.
pub fn perform<R: Shape, F: FnOnce(HttpRequest) -> Reply>(
    call: Result<HttpRequest, ClientError>,
    send: F,
) -> (r: Result<R, ClientError>)
    requires
        call matches Ok(request) ==> send.requires((request,)),
    ensures
        performed::<R, F>(outcome(call), send, outcome(r)),
{
    match call {
        Err(fault) => Err(fault),
        Ok(request) => {
            let ghost sent = request;
            let reply = send(request);
            let r = answer::<R>(reply);
            assert(sent@ == outcome(call)->Ok_0 && send.ensures((sent,), reply) && outcome(r)
                == answered::<R>(reply@));
            r
        },
    }
}

} // verus!
