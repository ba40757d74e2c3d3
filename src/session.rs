//! The authentication flow of a greeter, as a state machine that tells its
//! caller which message to send or read next and what to do with the result.
use vstd::prelude::*;
use vstd::string::StringExecFns;

use crate::error::GreeterError;
use crate::protocol::{AuthMessageType, Request, RequestView, Response, strings_view};

verus! {

/// Where the authentication handshake stands.
#[derive(Debug, Clone, Copy, PartialEq, Eq, Structural)]
pub enum AuthFlowState {
    /// No session has been asked for yet.
    Uninitialized,
    /// A request was sent; its reply has not been read.
    WaitingForResponse,
    /// The broker asked a question; the answer has not been sent.
    NeedAuthResponse,
    /// The broker showed a message; the acknowledgement has not been sent.
    NeedEmptyResponse,
    /// The user is authenticated; the session can be started.
    Authenticated,
    /// The broker rejected the attempt.
    Failed,
}

/// What the caller of the flow must do after a step.
#[derive(Debug, Clone, PartialEq, Eq)]
pub enum RequestedAction {
    /// Ask the user, showing `prompt`, and hand the answer to the next step.
    PromptForInput { prompt: String, is_secret: bool },
    /// Show a message to the user.
    ShowMessage(String),
    /// Nothing: take the next step.
    NoOp,
    /// The session is starting: stop taking steps.
    SessionStarting,
}

/// The work on the connection that a step needs.
#[derive(Debug)]
pub enum Step {
    /// Write this request to the broker.
    Send(Request),
    /// Read one reply from the broker.
    Receive,
}

/// A step as a mathematical value.
pub enum StepView {
    Send(RequestView),
    Receive,
}

impl View for Step {
    type V = StepView;

    open spec fn view(&self) -> StepView {
        match self {
            Step::Send(req) => StepView::Send(req@),
            Step::Receive => StepView::Receive,
        }
    }
}

/// What came of the work on the connection.
#[derive(Debug)]
pub enum Event {
    /// The request was written.
    Sent,
    /// This reply was read.
    Replied(Response),
    /// The connection failed with this error.
    Broken(GreeterError),
}

/// The characters of an optional text.
pub open spec fn text_view(t: Option<&str>) -> Option<Seq<char>> {
    match t {
        Some(s) => Some(s@),
        None => None,
    }
}

/// A planned step as a mathematical value.
pub open spec fn step_result_view(r: Result<Step, GreeterError>) -> Result<StepView, GreeterError> {
    match r {
        Ok(s) => Ok(s@),
        Err(e) => Err(e),
    }
}

/// The step taken in `state`, for the user `user`, with the user's answer
/// `data` and the session command `command`.
pub open spec fn planned_step(
    state: AuthFlowState,
    user: Seq<char>,
    data: Option<Seq<char>>,
    command: Seq<char>,
) -> Result<StepView, GreeterError> {
    match state {
        AuthFlowState::Uninitialized => Ok(
            StepView::Send(RequestView::CreateSession { username: user }),
        ),
        AuthFlowState::WaitingForResponse => Ok(StepView::Receive),
        AuthFlowState::NeedAuthResponse => match data {
            Some(d) => Ok(StepView::Send(RequestView::PostAuthMessageResponse { response: Some(d) })),
            None => Err(GreeterError::MissingData),
        },
        AuthFlowState::NeedEmptyResponse => Ok(
            StepView::Send(RequestView::PostAuthMessageResponse { response: None }),
        ),
        AuthFlowState::Authenticated => Ok(
            StepView::Send(RequestView::StartSession { cmd: seq![command], env: seq![] }),
        ),
        AuthFlowState::Failed => Ok(StepView::Send(RequestView::CancelSession)),
    }
}

/// Whether `event` can follow the step planned in `state`: a write where a
/// request was to be sent, a reply where one was to be read.
pub open spec fn event_fits(state: AuthFlowState, event: Event) -> bool {
    match event {
        Event::Sent => state != AuthFlowState::WaitingForResponse,
        Event::Replied(_) => state == AuthFlowState::WaitingForResponse,
        Event::Broken(_) => true,
    }
}

/// The state after `event` ends the step taken in `state`.
pub open spec fn next_state(state: AuthFlowState, event: Event) -> AuthFlowState {
    if state == AuthFlowState::Failed {
        AuthFlowState::Failed
    } else {
        match event {
            Event::Sent => match state {
                AuthFlowState::Authenticated => AuthFlowState::Authenticated,
                _ => AuthFlowState::WaitingForResponse,
            },
            Event::Replied(reply) => match reply {
                Response::AuthMessage { auth_message_type, .. } => match auth_message_type {
                    AuthMessageType::Visible | AuthMessageType::Secret => AuthFlowState::NeedAuthResponse,
                    AuthMessageType::Info | AuthMessageType::Error => AuthFlowState::NeedEmptyResponse,
                },
                Response::Error { .. } => AuthFlowState::Failed,
                Response::Success => AuthFlowState::Authenticated,
            },
            Event::Broken(_) => state,
        }
    }
}

/// What the step taken in `state` gives its caller when `event` ends it.
pub open spec fn step_outcome(state: AuthFlowState, event: Event) -> Result<RequestedAction, GreeterError> {
    if state == AuthFlowState::Failed {
        Err(GreeterError::SessionTerminated)
    } else {
        match event {
            Event::Sent => match state {
                AuthFlowState::Authenticated => Ok(RequestedAction::SessionStarting),
                _ => Ok(RequestedAction::NoOp),
            },
            Event::Replied(reply) => match reply {
                Response::AuthMessage { auth_message_type, auth_message } => match auth_message_type {
                    AuthMessageType::Visible => Ok(
                        RequestedAction::PromptForInput { prompt: auth_message, is_secret: false },
                    ),
                    AuthMessageType::Secret => Ok(
                        RequestedAction::PromptForInput { prompt: auth_message, is_secret: true },
                    ),
                    AuthMessageType::Info | AuthMessageType::Error => Ok(
                        RequestedAction::ShowMessage(auth_message),
                    ),
                },
                Response::Error { description, .. } => Err(
                    GreeterError::AuthenticationFailed { message: description },
                ),
                Response::Success => Ok(RequestedAction::NoOp),
            },
            Event::Broken(e) => Err(e),
        }
    }
}

/// The state that a run of steps ends in, from `state`, when `events` end
/// them one after another.
pub open spec fn run(state: AuthFlowState, events: Seq<Event>) -> AuthFlowState
    decreases events.len(),
{
    if events.len() == 0 {
        state
    } else {
        run(next_state(state, events[0]), events.drop_first())
    }
}

/// The first step of a new flow sends the request that creates a session for
/// the user; once it is written, the flow waits for the reply and the caller
/// has nothing to do.
pub proof fn lemma_first_step_creates_session(
    user: Seq<char>,
    data: Option<Seq<char>>,
    command: Seq<char>,
)
    ensures
        planned_step(AuthFlowState::Uninitialized, user, data, command) == Ok::<
            StepView,
            GreeterError,
        >(StepView::Send(RequestView::CreateSession { username: user })),
        next_state(AuthFlowState::Uninitialized, Event::Sent) == AuthFlowState::WaitingForResponse,
        step_outcome(AuthFlowState::Uninitialized, Event::Sent) == Ok::<
            RequestedAction,
            GreeterError,
        >(RequestedAction::NoOp),
{
}

/// A failed flow stays failed: every later step only sends a cancellation,
/// reads nothing, and ends in `SessionTerminated`, whatever comes of it.
pub proof fn lemma_failed_is_final(
    user: Seq<char>,
    data: Option<Seq<char>>,
    command: Seq<char>,
    events: Seq<Event>,
)
    ensures
        planned_step(AuthFlowState::Failed, user, data, command) == Ok::<StepView, GreeterError>(
            StepView::Send(RequestView::CancelSession),
        ),
        forall|e: Event|
            #![trigger next_state(AuthFlowState::Failed, e)]
            #![trigger step_outcome(AuthFlowState::Failed, e)]
            next_state(AuthFlowState::Failed, e) == AuthFlowState::Failed && step_outcome(
                AuthFlowState::Failed,
                e,
            ) == Err::<RequestedAction, GreeterError>(GreeterError::SessionTerminated),
        run(AuthFlowState::Failed, events) == AuthFlowState::Failed,
    decreases events.len(),
{
    if events.len() > 0 {
        lemma_failed_is_final(user, data, command, events.drop_first());
    }
}

/// The authentication flow of one greeter session.
#[derive(Debug)]
pub struct AuthFlow {
    state: AuthFlowState,
    failed_attempts: u32,
}

/// A flow as a mathematical value: its state, and the count of rejected
/// attempts that the caller's policy keeps.
pub struct AuthFlowView {
    pub state: AuthFlowState,
    pub failed_attempts: u32,
}

impl View for AuthFlow {
    type V = AuthFlowView;

    closed spec fn view(&self) -> AuthFlowView {
        AuthFlowView { state: self.state, failed_attempts: self.failed_attempts }
    }
}

impl AuthFlow {
    /// A flow that has not asked for a session yet.
    pub fn new() -> (r: AuthFlow)
        ensures
            r@.state == AuthFlowState::Uninitialized,
            r@.failed_attempts == 0,
    {
        AuthFlow { state: AuthFlowState::Uninitialized, failed_attempts: 0 }
    }

    /// Where the flow stands.
    pub fn state(&self) -> (r: AuthFlowState)
        ensures
            r == self@.state,
    {
        self.state
    }

    /// The count of rejected attempts.
    pub fn failed_attempts(&self) -> (r: u32)
        ensures
            r == self@.failed_attempts,
    {
        self.failed_attempts
    }

    /// Counts one more rejected attempt; the count stops at its largest value.
    pub fn record_failed_attempt(&mut self)
        ensures
            final(self)@.state == old(self)@.state,
            final(self)@.failed_attempts == if old(self)@.failed_attempts == u32::MAX {
                u32::MAX
            } else {
                (old(self)@.failed_attempts + 1) as u32
            },
    {
        self.failed_attempts = self.failed_attempts.saturating_add(1);
    }

    /// The work on the connection that the next step needs. In the state that
    /// waits for an answer, a missing `data` gives `MissingData`: nothing is to
    /// be sent, and the step may be taken again with an answer.
    pub fn next_step(&self, user: &str, data: Option<&str>, command: &str) -> (r: Result<Step, GreeterError>)
        ensures
            step_result_view(r) == planned_step(self@.state, user@, text_view(data), command@),
    {
        match self.state {
            AuthFlowState::Uninitialized => Ok(
                Step::Send(Request::CreateSession { username: String::from_str(user) }),
            ),
            AuthFlowState::WaitingForResponse => Ok(Step::Receive),
            AuthFlowState::NeedAuthResponse => match data {
                Some(d) => Ok(
                    Step::Send(Request::PostAuthMessageResponse { response: Some(String::from_str(d)) }),
                ),
                None => Err(GreeterError::MissingData),
            },
            AuthFlowState::NeedEmptyResponse => Ok(
                Step::Send(Request::PostAuthMessageResponse { response: None }),
            ),
            AuthFlowState::Authenticated => {
                let cmd = vec![String::from_str(command)];
                let env: Vec<String> = Vec::new();
                assert(strings_view(cmd@) =~= seq![command@]);
                assert(strings_view(env@) =~= Seq::<Seq<char>>::empty());
                Ok(Step::Send(Request::StartSession { cmd, env }))
            },
            AuthFlowState::Failed => Ok(Step::Send(Request::CancelSession)),
        }
    }

    /// Ends the step with what came of its work on the connection, moves the
    /// flow on, and says what the caller must do.
    pub fn complete(&mut self, event: Event) -> (r: Result<RequestedAction, GreeterError>)
        requires
            event_fits(old(self)@.state, event),
        ensures
            final(self)@.state == next_state(old(self)@.state, event),
            final(self)@.failed_attempts == old(self)@.failed_attempts,
            r == step_outcome(old(self)@.state, event),
    {
        if self.state == AuthFlowState::Failed {
            return Err(GreeterError::SessionTerminated);
        }
        match event {
            Event::Sent => {
                if self.state == AuthFlowState::Authenticated {
                    Ok(RequestedAction::SessionStarting)
                } else {
                    self.state = AuthFlowState::WaitingForResponse;
                    Ok(RequestedAction::NoOp)
                }
            },
            Event::Replied(reply) => match reply {
                Response::AuthMessage { auth_message_type, auth_message } => match auth_message_type {
                    AuthMessageType::Visible => {
                        self.state = AuthFlowState::NeedAuthResponse;
                        Ok(RequestedAction::PromptForInput { prompt: auth_message, is_secret: false })
                    },
                    AuthMessageType::Secret => {
                        self.state = AuthFlowState::NeedAuthResponse;
                        Ok(RequestedAction::PromptForInput { prompt: auth_message, is_secret: true })
                    },
                    AuthMessageType::Info | AuthMessageType::Error => {
                        self.state = AuthFlowState::NeedEmptyResponse;
                        Ok(RequestedAction::ShowMessage(auth_message))
                    },
                },
                Response::Error { description, .. } => {
                    self.state = AuthFlowState::Failed;
                    Err(GreeterError::AuthenticationFailed { message: description })
                },
                Response::Success => {
                    self.state = AuthFlowState::Authenticated;
                    Ok(RequestedAction::NoOp)
                },
            },
            Event::Broken(e) => Err(e),
        }
    }
}

} // verus!
