//! The messages of the greetd protocol and their encoding on the wire: a
//! frame whose payload is the JSON form that greetd_ipc gives a message.
use greetd_ipc::Response::{AuthMessage as WireMessage, Error as WireError};
use greetd_ipc::{
    AuthMessageType as WireKind, ErrorType as WireErrorType, Request as WireRequest,
    Response as WireResponse,
};
use vstd::prelude::*;

use crate::error::GreeterError;
use crate::frame::{
    encode_frame, first_payload, frame_of, lemma_frame_round_trip, read_frame, MAX_PAYLOAD_LEN,
};

verus! {

/// A request from the greeter to the broker.
#[derive(Debug, Clone, PartialEq, Eq)]
pub enum Request {
    /// Open an authentication session for a user.
    CreateSession { username: String },
    /// Answer the last auth message; `None` acknowledges an informational one.
    PostAuthMessageResponse { response: Option<String> },
    /// Start the user's session with a command and extra environment.
    StartSession { cmd: Vec<String>, env: Vec<String> },
    /// Abandon the session.
    CancelSession,
}

/// What the broker's auth message asks of the user.
#[derive(Debug, Clone, Copy, PartialEq, Eq, Structural)]
pub enum AuthMessageType {
    /// A question whose answer may be shown.
    Visible,
    /// A question whose answer must be hidden, such as a password.
    Secret,
    /// Text to show; no answer is expected.
    Info,
    /// An error text to show; no answer is expected.
    Error,
}

/// The kind of an error reply.
#[derive(Debug, Clone, Copy, PartialEq, Eq, Structural)]
pub enum ErrorType {
    /// A failure of the broker.
    Error,
    /// The authentication was rejected.
    AuthError,
}

/// A reply of the broker.
#[derive(Debug, Clone, PartialEq, Eq)]
pub enum Response {
    Success,
    Error { error_type: ErrorType, description: String },
    AuthMessage { auth_message_type: AuthMessageType, auth_message: String },
}

/// A request as a mathematical value.
pub enum RequestView {
    CreateSession { username: Seq<char> },
    PostAuthMessageResponse { response: Option<Seq<char>> },
    StartSession { cmd: Seq<Seq<char>>, env: Seq<Seq<char>> },
    CancelSession,
}

/// A reply as a mathematical value.
pub enum ResponseView {
    Success,
    Error { error_type: ErrorType, description: Seq<char> },
    AuthMessage { auth_message_type: AuthMessageType, auth_message: Seq<char> },
}

/// The characters of each string of a list.
pub open spec fn strings_view(v: Seq<String>) -> Seq<Seq<char>> {
    v.map_values(|s: String| s@)
}

impl View for Request {
    type V = RequestView;

    open spec fn view(&self) -> RequestView {
        match self {
            Request::CreateSession { username } => RequestView::CreateSession {
                username: username@,
            },
            Request::PostAuthMessageResponse { response } => RequestView::PostAuthMessageResponse {
                response: match response {
                    Some(s) => Some(s@),
                    None => None,
                },
            },
            Request::StartSession { cmd, env } => RequestView::StartSession {
                cmd: strings_view(cmd@),
                env: strings_view(env@),
            },
            Request::CancelSession => RequestView::CancelSession,
        }
    }
}

impl View for Response {
    type V = ResponseView;

    open spec fn view(&self) -> ResponseView {
        match self {
            Response::Success => ResponseView::Success,
            Response::Error { error_type, description } => ResponseView::Error {
                error_type: *error_type,
                description: description@,
            },
            Response::AuthMessage { auth_message_type, auth_message } => ResponseView::AuthMessage {
                auth_message_type: *auth_message_type,
                auth_message: auth_message@,
            },
        }
    }
}

/// The JSON bytes that greetd_ipc's serialisation gives a request, or `None`
/// where serialisation fails.
pub uninterp spec fn request_json(req: RequestView) -> Option<Seq<u8>>;

/// The reply that greetd_ipc's deserialisation reads from JSON bytes, or
/// `None` where they do not hold one.
pub uninterp spec fn response_of_json(b: Seq<u8>) -> Option<ResponseView>;

/// Declares serde_json's error type, which the JSON calls return.
#[verifier::external_type_specification]
#[verifier::external_body]
pub struct ExJsonError(serde_json::Error);

/// Relies on serde_json::to_vec applied to greetd_ipc::Request: the JSON
/// encoding that the broker reads, a function of the request alone.
#[verifier::external_body]
fn request_to_json(req: Request) -> (r: Result<Vec<u8>, serde_json::Error>)
    ensures
        match r {
            Ok(b) => request_json(req@) == Some(b@),
            Err(_) => request_json(req@) is None,
        },
{
    let wire = match req {
        Request::CreateSession { username } => WireRequest::CreateSession { username },
        Request::PostAuthMessageResponse { response } => WireRequest::PostAuthMessageResponse { response },
        Request::StartSession { cmd, env } => WireRequest::StartSession { cmd, env },
        Request::CancelSession => WireRequest::CancelSession,
    };
    serde_json::to_vec(&wire)
}

/// Relies on serde_json::from_slice into greetd_ipc::Response: the reply
/// that the JSON bytes hold, a function of the bytes alone.
#[verifier::external_body]
fn response_from_json(b: &[u8]) -> (r: Result<Response, serde_json::Error>)
    ensures
        match r {
            Ok(resp) => response_of_json(b@) == Some(resp@),
            Err(_) => response_of_json(b@) is None,
        },
{
    Ok(match serde_json::from_slice(b)? {
        WireResponse::Success => Response::Success,
        WireError { error_type: WireErrorType::Error, description } => Response::Error { error_type: ErrorType::Error, description },
        WireError { error_type: WireErrorType::AuthError, description } => Response::Error { error_type: ErrorType::AuthError, description },
        WireMessage { auth_message_type: WireKind::Visible, auth_message } => Response::AuthMessage { auth_message_type: AuthMessageType::Visible, auth_message },
        WireMessage { auth_message_type: WireKind::Secret, auth_message } => Response::AuthMessage { auth_message_type: AuthMessageType::Secret, auth_message },
        WireMessage { auth_message_type: WireKind::Info, auth_message } => Response::AuthMessage { auth_message_type: AuthMessageType::Info, auth_message },
        WireMessage { auth_message_type: WireKind::Error, auth_message } => Response::AuthMessage { auth_message_type: AuthMessageType::Error, auth_message },
    })
}

/// The frame that carries a request, where its JSON form fits in one.
pub open spec fn request_frame(req: RequestView) -> Option<Seq<u8>> {
    match request_json(req) {
        Some(j) => if j.len() <= MAX_PAYLOAD_LEN {
            Some(frame_of(j))
        } else {
            None
        },
        None => None,
    }
}

/// Reading the first frame of a stream that starts with the frame of a
/// request gives back the request's JSON form exactly, whatever follows.
pub proof fn lemma_request_round_trip(req: RequestView, rest: Seq<u8>)
    requires
        request_frame(req) is Some,
    ensures
        first_payload(request_frame(req)->0 + rest) == request_json(req),
{
    lemma_frame_round_trip(request_json(req)->0, rest);
}

/// Turns a request into the bytes to write to the broker: a frame holding
/// its JSON form. Fails with `Encoding` where there is no such frame.
pub fn encode_request(req: Request) -> (r: Result<Vec<u8>, GreeterError>)
    ensures
        match request_frame(req@) {
            Some(f) => r is Ok && r->Ok_0@ == f,
            None => r == Err::<Vec<u8>, GreeterError>(GreeterError::Encoding),
        },
{
    match request_to_json(req) {
        Ok(json) => encode_frame(json.as_slice()),
        Err(_) => Err(GreeterError::Encoding),
    }
}

/// Reads a reply from the payload of one frame. Fails with `Decoding` where
/// the payload holds no reply.
pub fn decode_response(payload: &[u8]) -> (r: Result<Response, GreeterError>)
    ensures
        match response_of_json(payload@) {
            Some(v) => r is Ok && r->Ok_0@ == v,
            None => r == Err::<Response, GreeterError>(GreeterError::Decoding),
        },
{
    match response_from_json(payload) {
        Ok(resp) => Ok(resp),
        Err(_) => Err(GreeterError::Decoding),
    }
}

/// Reads one reply from `stream`, the bytes that the broker sent before the
/// connection closed: a stream cut inside the frame is a `Transport` failure,
/// a payload that holds no reply a `Decoding` one.
pub fn read_message(stream: &[u8]) -> (r: Result<Response, GreeterError>)
    ensures
        match first_payload(stream@) {
            None => r == Err::<Response, GreeterError>(GreeterError::Transport),
            Some(p) => match response_of_json(p) {
                Some(v) => r is Ok && r->Ok_0@ == v,
                None => r == Err::<Response, GreeterError>(GreeterError::Decoding),
            },
        },
{
    let payload = read_frame(stream)?;
    decode_response(payload.as_slice())
}

} // verus!
