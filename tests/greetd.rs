use ballad::error::GreeterError;
use ballad::frame::{encode_frame, frame_length, length_header, read_frame};
use ballad::protocol::{
    decode_response, encode_request, read_message, AuthMessageType, ErrorType, Request, Response,
};
use ballad::session::{AuthFlow, AuthFlowState, Event, RequestedAction, Step};

fn frame(payload: &[u8]) -> Vec<u8> {
    let mut out = (payload.len() as u32).to_le_bytes().to_vec();
    out.extend_from_slice(payload);
    out
}

fn wire_response(resp: &greetd_ipc::Response) -> Vec<u8> {
    frame(&serde_json::to_vec(resp).unwrap())
}

fn sent_request(flow: &AuthFlow, user: &str, data: Option<&str>, command: &str) -> Request {
    match flow.next_step(user, data, command) {
        Ok(Step::Send(req)) => req,
        other => panic!("expected a request to send, got {:?}", other),
    }
}

/// Drives a flow to the state that waits for a reply.
fn waiting_flow() -> AuthFlow {
    let mut flow = AuthFlow::new();
    let _ = sent_request(&flow, "alice", None, "sway");
    assert_eq!(flow.complete(Event::Sent), Ok(RequestedAction::NoOp));
    assert_eq!(flow.state(), AuthFlowState::WaitingForResponse);
    flow
}

fn reply(flow: &mut AuthFlow, bytes: &[u8]) -> Result<RequestedAction, GreeterError> {
    assert!(matches!(flow.next_step("alice", None, "sway"), Ok(Step::Receive)));
    let resp = read_message(bytes).unwrap();
    flow.complete(Event::Replied(resp))
}

#[test]
fn length_header_is_little_endian() {
    assert_eq!(length_header(0x0102_0304), vec![4, 3, 2, 1]);
    assert_eq!(frame_length(&[1, 2, 0, 0]), 513);
    assert_eq!(frame_length(&[0xff, 0xff, 0xff, 0xff]), u32::MAX);
}

#[test]
fn encode_frame_prefixes_length() {
    assert_eq!(encode_frame(b"abc").unwrap(), vec![3, 0, 0, 0, b'a', b'b', b'c']);
    assert_eq!(encode_frame(b"").unwrap(), vec![0, 0, 0, 0]);
}

#[test]
fn read_frame_takes_first_frame_only() {
    let stream = [2, 0, 0, 0, 7, 8, 9, 9];
    assert_eq!(read_frame(&stream).unwrap(), vec![7, 8]);
    assert_eq!(read_frame(&[0, 0, 0, 0]).unwrap(), Vec::<u8>::new());
}

#[test]
fn short_header_is_transport_error() {
    assert_eq!(read_frame(&[5, 0, 0]), Err(GreeterError::Transport));
    assert_eq!(read_message(&[]), Err(GreeterError::Transport));
}

#[test]
fn truncated_payload_is_transport_error() {
    let full = wire_response(&greetd_ipc::Response::Success);
    let cut = &full[..full.len() - 1];
    assert_eq!(read_message(cut), Err(GreeterError::Transport));
    assert_eq!(read_frame(&[10, 0, 0, 0, 1, 2, 3]), Err(GreeterError::Transport));
}

#[test]
fn garbage_payload_is_decoding_error() {
    assert_eq!(read_message(&frame(b"not json")), Err(GreeterError::Decoding));
    assert_eq!(decode_response(br#"{"type":"unknown"}"#), Err(GreeterError::Decoding));
}

#[test]
fn create_session_request_bytes() {
    let bytes = encode_request(Request::CreateSession { username: "alice".to_string() }).unwrap();
    assert_eq!(bytes, frame(br#"{"type":"create_session","username":"alice"}"#));
}

#[test]
fn other_request_bytes() {
    let bytes = encode_request(Request::PostAuthMessageResponse { response: None }).unwrap();
    assert_eq!(bytes, frame(br#"{"type":"post_auth_message_response","response":null}"#));
    let bytes = encode_request(Request::CancelSession).unwrap();
    assert_eq!(bytes, frame(br#"{"type":"cancel_session"}"#));
    let bytes = encode_request(Request::StartSession {
        cmd: vec!["sway".to_string()],
        env: vec![],
    })
    .unwrap();
    assert_eq!(bytes, frame(br#"{"type":"start_session","cmd":["sway"],"env":[]}"#));
}

#[test]
fn request_round_trip() {
    let bytes = encode_request(Request::PostAuthMessageResponse {
        response: Some("hunter2".to_string()),
    })
    .unwrap();
    let payload = read_frame(&bytes).unwrap();
    assert_eq!(payload.len() + 4, bytes.len());
    match serde_json::from_slice::<greetd_ipc::Request>(&payload).unwrap() {
        greetd_ipc::Request::PostAuthMessageResponse { response } => {
            assert_eq!(response.as_deref(), Some("hunter2"))
        }
        other => panic!("decoded {:?}", other),
    }
}

#[test]
fn response_round_trip() {
    let cases = vec![
        (greetd_ipc::Response::Success, Response::Success),
        (
            greetd_ipc::Response::Error {
                error_type: greetd_ipc::ErrorType::AuthError,
                description: "denied".to_string(),
            },
            Response::Error { error_type: ErrorType::AuthError, description: "denied".to_string() },
        ),
        (
            greetd_ipc::Response::Error {
                error_type: greetd_ipc::ErrorType::Error,
                description: "broken".to_string(),
            },
            Response::Error { error_type: ErrorType::Error, description: "broken".to_string() },
        ),
        (
            greetd_ipc::Response::AuthMessage {
                auth_message_type: greetd_ipc::AuthMessageType::Visible,
                auth_message: "Login:".to_string(),
            },
            Response::AuthMessage {
                auth_message_type: AuthMessageType::Visible,
                auth_message: "Login:".to_string(),
            },
        ),
        (
            greetd_ipc::Response::AuthMessage {
                auth_message_type: greetd_ipc::AuthMessageType::Secret,
                auth_message: "Password:".to_string(),
            },
            Response::AuthMessage {
                auth_message_type: AuthMessageType::Secret,
                auth_message: "Password:".to_string(),
            },
        ),
        (
            greetd_ipc::Response::AuthMessage {
                auth_message_type: greetd_ipc::AuthMessageType::Info,
                auth_message: "hello".to_string(),
            },
            Response::AuthMessage {
                auth_message_type: AuthMessageType::Info,
                auth_message: "hello".to_string(),
            },
        ),
        (
            greetd_ipc::Response::AuthMessage {
                auth_message_type: greetd_ipc::AuthMessageType::Error,
                auth_message: "oops".to_string(),
            },
            Response::AuthMessage {
                auth_message_type: AuthMessageType::Error,
                auth_message: "oops".to_string(),
            },
        ),
    ];
    for (wire, expected) in cases {
        let mut stream = wire_response(&wire);
        stream.extend_from_slice(&[9, 9, 9]);
        assert_eq!(read_message(&stream), Ok(expected));
    }
}

#[test]
fn first_step_creates_session() {
    let mut flow = AuthFlow::new();
    assert_eq!(flow.state(), AuthFlowState::Uninitialized);
    assert_eq!(flow.failed_attempts(), 0);
    let req = sent_request(&flow, "alice", Some("ignored"), "sway");
    assert_eq!(req, Request::CreateSession { username: "alice".to_string() });
    assert_eq!(flow.complete(Event::Sent), Ok(RequestedAction::NoOp));
    assert_eq!(flow.state(), AuthFlowState::WaitingForResponse);
}

#[test]
fn secret_prompt_asks_for_hidden_input() {
    let mut flow = waiting_flow();
    let bytes = wire_response(&greetd_ipc::Response::AuthMessage {
        auth_message_type: greetd_ipc::AuthMessageType::Secret,
        auth_message: "Password:".to_string(),
    });
    let action = reply(&mut flow, &bytes);
    assert_eq!(
        action,
        Ok(RequestedAction::PromptForInput { prompt: "Password:".to_string(), is_secret: true })
    );
    assert_eq!(flow.state(), AuthFlowState::NeedAuthResponse);
}

#[test]
fn visible_prompt_asks_for_shown_input() {
    let mut flow = waiting_flow();
    let bytes = wire_response(&greetd_ipc::Response::AuthMessage {
        auth_message_type: greetd_ipc::AuthMessageType::Visible,
        auth_message: "Token:".to_string(),
    });
    assert_eq!(
        reply(&mut flow, &bytes),
        Ok(RequestedAction::PromptForInput { prompt: "Token:".to_string(), is_secret: false })
    );
    assert_eq!(flow.state(), AuthFlowState::NeedAuthResponse);
}

#[test]
fn missing_answer_keeps_state() {
    let mut flow = waiting_flow();
    let bytes = wire_response(&greetd_ipc::Response::AuthMessage {
        auth_message_type: greetd_ipc::AuthMessageType::Secret,
        auth_message: "Password:".to_string(),
    });
    reply(&mut flow, &bytes).unwrap();
    assert!(matches!(flow.next_step("alice", None, "sway"), Err(GreeterError::MissingData)));
    assert_eq!(flow.state(), AuthFlowState::NeedAuthResponse);
    let req = sent_request(&flow, "alice", Some("hunter2"), "sway");
    assert_eq!(
        req,
        Request::PostAuthMessageResponse { response: Some("hunter2".to_string()) }
    );
    assert_eq!(flow.complete(Event::Sent), Ok(RequestedAction::NoOp));
    assert_eq!(flow.state(), AuthFlowState::WaitingForResponse);
}

#[test]
fn info_message_is_shown_then_acknowledged() {
    let mut flow = waiting_flow();
    let bytes = wire_response(&greetd_ipc::Response::AuthMessage {
        auth_message_type: greetd_ipc::AuthMessageType::Info,
        auth_message: "Welcome".to_string(),
    });
    assert_eq!(reply(&mut flow, &bytes), Ok(RequestedAction::ShowMessage("Welcome".to_string())));
    assert_eq!(flow.state(), AuthFlowState::NeedEmptyResponse);
    let req = sent_request(&flow, "alice", None, "sway");
    assert_eq!(req, Request::PostAuthMessageResponse { response: None });
    assert_eq!(flow.complete(Event::Sent), Ok(RequestedAction::NoOp));
    assert_eq!(flow.state(), AuthFlowState::WaitingForResponse);
}

#[test]
fn error_message_is_shown() {
    let mut flow = waiting_flow();
    let bytes = wire_response(&greetd_ipc::Response::AuthMessage {
        auth_message_type: greetd_ipc::AuthMessageType::Error,
        auth_message: "Bad token".to_string(),
    });
    assert_eq!(reply(&mut flow, &bytes), Ok(RequestedAction::ShowMessage("Bad token".to_string())));
    assert_eq!(flow.state(), AuthFlowState::NeedEmptyResponse);
}

#[test]
fn rejection_fails_the_flow() {
    let mut flow = waiting_flow();
    let bytes = wire_response(&greetd_ipc::Response::Error {
        error_type: greetd_ipc::ErrorType::AuthError,
        description: "Authentication failed".to_string(),
    });
    assert_eq!(
        reply(&mut flow, &bytes),
        Err(GreeterError::AuthenticationFailed { message: "Authentication failed".to_string() })
    );
    assert_eq!(flow.state(), AuthFlowState::Failed);
}

#[test]
fn failed_flow_only_cancels() {
    let mut flow = waiting_flow();
    let bytes = wire_response(&greetd_ipc::Response::Error {
        error_type: greetd_ipc::ErrorType::Error,
        description: "gone".to_string(),
    });
    assert!(reply(&mut flow, &bytes).is_err());
    for _ in 0..3 {
        let req = sent_request(&flow, "alice", Some("x"), "sway");
        assert_eq!(req, Request::CancelSession);
        assert_eq!(flow.complete(Event::Sent), Err(GreeterError::SessionTerminated));
        assert_eq!(flow.state(), AuthFlowState::Failed);
    }
    assert_eq!(
        flow.complete(Event::Broken(GreeterError::Transport)),
        Err(GreeterError::SessionTerminated)
    );
    assert_eq!(flow.state(), AuthFlowState::Failed);
}

#[test]
fn success_then_session_starts() {
    let mut flow = waiting_flow();
    let bytes = wire_response(&greetd_ipc::Response::Success);
    assert_eq!(reply(&mut flow, &bytes), Ok(RequestedAction::NoOp));
    assert_eq!(flow.state(), AuthFlowState::Authenticated);
    let req = sent_request(&flow, "alice", None, "sway");
    assert_eq!(req, Request::StartSession { cmd: vec!["sway".to_string()], env: vec![] });
    assert_eq!(flow.complete(Event::Sent), Ok(RequestedAction::SessionStarting));
    assert_eq!(flow.state(), AuthFlowState::Authenticated);
}

#[test]
fn transport_failure_is_returned_and_keeps_state() {
    let mut flow = waiting_flow();
    assert_eq!(
        flow.complete(Event::Broken(GreeterError::Decoding)),
        Err(GreeterError::Decoding)
    );
    assert_eq!(flow.state(), AuthFlowState::WaitingForResponse);
    assert!(GreeterError::Transport.is_fatal());
    assert!(GreeterError::Encoding.is_fatal());
    assert!(!GreeterError::MissingData.is_fatal());
}

#[test]
fn failed_attempts_count_and_saturate() {
    let mut flow = AuthFlow::new();
    flow.record_failed_attempt();
    flow.record_failed_attempt();
    assert_eq!(flow.failed_attempts(), 2);
    assert_eq!(flow.state(), AuthFlowState::Uninitialized);
}
