//! The chat session as a state machine.
//!
//! The session decides; whoever drives it does the outside work. Each call
//! of `ChatSession::step` takes what happened outside, moves the session to
//! its next state and returns what to do next. Every action except `Halt` is
//! answered by exactly one event.
//!
//! A session starts `Disconnected` and passes through `Connecting`,
//! `Authenticated` and `Joined` to `Receiving`, where it stays. A reconnect
//! directive of the server sends it through `Reconnecting` over the same path
//! again. Refused credentials stop it with `AuthError`; every other failure,
//! and every event that the state does not allow, stops it with
//! `NetworkError`. A stopped session stays stopped.

use vstd::prelude::*;
use crate::command::{interpret, spec_interpret, Action, ActionView, Privmsg, PrivmsgView};
use crate::config::{ChatConfig, ChatConfigView};
use crate::text::text_of;

verus! {

/// Why a session stopped.
#[derive(Clone, Copy, Debug, PartialEq, Eq, Structural)]
pub enum ChatError {
    /// The server refused the credentials.
    AuthError,
    /// The connection failed or the dialogue with the server broke down.
    NetworkError,
}

/// Where a session stands.
#[derive(Clone, Copy, Debug, PartialEq, Eq, Structural)]
pub enum SessionState {
    /// Nothing has happened yet.
    Disconnected,
    /// The connection is being opened and the credentials presented.
    Connecting,
    /// The server accepted the credentials; the channels are being joined.
    Authenticated,
    /// Every channel is joined.
    Joined,
    /// The session takes messages.
    Receiving,
    /// The server asked for a new connection.
    Reconnecting,
    /// The session has ended.
    Stopped { error: ChatError },
}

/// A message of the chat server, by its class.
#[derive(Clone, Debug, PartialEq, Eq)]
pub enum ChatMessage {
    /// The server asks whether the session is alive.
    Ping { nonce: Option<String> },
    /// The server asks the session to connect anew.
    Reconnect,
    /// Somebody wrote to a channel.
    Privmsg { message: Privmsg },
    /// Anything else.
    Other,
}

/// A message as a mathematical value.
pub enum ChatMessageView {
    Ping { nonce: Option<Seq<char>> },
    Reconnect,
    Privmsg { message: PrivmsgView },
    Other,
}

impl View for ChatMessage {
    type V = ChatMessageView;

    open spec fn view(&self) -> ChatMessageView {
        match *self {
            ChatMessage::Ping { nonce } => ChatMessageView::Ping { nonce: text_of(nonce) },
            ChatMessage::Reconnect => ChatMessageView::Reconnect,
            ChatMessage::Privmsg { message } => ChatMessageView::Privmsg { message: message@ },
            ChatMessage::Other => ChatMessageView::Other,
        }
    }
}

/// What happened outside since the session last returned an action.
#[derive(Clone, Debug, PartialEq, Eq)]
pub enum SessionEvent {
    /// What the session asked for is done.
    Done,
    /// The server refused the credentials.
    Refused,
    /// What the session asked for failed.
    Failed,
    /// A message arrived.
    Message { message: ChatMessage },
}

/// An event as a mathematical value.
pub enum SessionEventView {
    Done,
    Refused,
    Failed,
    Message { message: ChatMessageView },
}

impl View for SessionEvent {
    type V = SessionEventView;

    open spec fn view(&self) -> SessionEventView {
        match *self {
            SessionEvent::Done => SessionEventView::Done,
            SessionEvent::Refused => SessionEventView::Refused,
            SessionEvent::Failed => SessionEventView::Failed,
            SessionEvent::Message { message } => SessionEventView::Message { message: message@ },
        }
    }
}

/// What the session asks its driver to do next.
#[derive(Clone, Debug, PartialEq, Eq)]
pub enum SessionAction {
    /// Open a connection, or replace the one there is, and present the
    /// credentials. Answer `Done`, `Refused` or `Failed`.
    Connect,
    /// Join every configured channel. Answer `Done` or `Failed`.
    Join,
    /// Nothing to do outside. Answer `Done`.
    Proceed,
    /// Wait for the next message. Answer `Message` or `Failed`.
    Receive,
    /// Tell the server that the session is alive, returning the nonce of its
    /// ping. Answer `Done` or `Failed`.
    Pong { nonce: Option<String> },
    /// Carry out what a chat message asked for. Answer `Done` or `Failed`.
    Perform { action: Action },
    /// Stop driving the session and report the error.
    Halt { error: ChatError },
}

/// An action as a mathematical value.
pub enum SessionActionView {
    Connect,
    Join,
    Proceed,
    Receive,
    Pong { nonce: Option<Seq<char>> },
    Perform { action: ActionView },
    Halt { error: ChatError },
}

impl View for SessionAction {
    type V = SessionActionView;

    open spec fn view(&self) -> SessionActionView {
        match *self {
            SessionAction::Connect => SessionActionView::Connect,
            SessionAction::Join => SessionActionView::Join,
            SessionAction::Proceed => SessionActionView::Proceed,
            SessionAction::Receive => SessionActionView::Receive,
            SessionAction::Pong { nonce } => SessionActionView::Pong { nonce: text_of(nonce) },
            SessionAction::Perform { action } => SessionActionView::Perform { action: action@ },
            SessionAction::Halt { error } => SessionActionView::Halt { error },
        }
    }
}

/// The error with which a session in `state` stops on `event`, `None` where
/// it goes on.
pub open spec fn failure(state: SessionState, event: SessionEventView) -> Option<ChatError> {
    match (state, event) {
        (SessionState::Stopped { error }, _) => Some(error),
        (SessionState::Receiving, SessionEventView::Message { .. }) => None,
        (SessionState::Receiving, SessionEventView::Done) => None,
        (SessionState::Connecting, SessionEventView::Refused) => Some(ChatError::AuthError),
        (_, SessionEventView::Done) => None,
        _ => Some(ChatError::NetworkError),
    }
}

/// The state that follows `state` on `event`.
pub open spec fn next_state(state: SessionState, event: SessionEventView) -> SessionState {
    match failure(state, event) {
        Some(error) => SessionState::Stopped { error },
        None => match (state, event) {
            (SessionState::Disconnected, _) => SessionState::Connecting,
            (SessionState::Connecting, _) => SessionState::Authenticated,
            (SessionState::Authenticated, _) => SessionState::Joined,
            (SessionState::Joined, _) => SessionState::Receiving,
            (SessionState::Reconnecting, _) => SessionState::Connecting,
            (
                _,
                SessionEventView::Message { message: ChatMessageView::Reconnect },
            ) => SessionState::Reconnecting,
            _ => SessionState::Receiving,
        },
    }
}

/// What a session that receives is asked to do by `message`.
pub open spec fn reaction(message: ChatMessageView) -> SessionActionView {
    match message {
        ChatMessageView::Ping { nonce } => SessionActionView::Pong { nonce },
        ChatMessageView::Reconnect => SessionActionView::Proceed,
        ChatMessageView::Privmsg { message } => match spec_interpret(message) {
            Some(action) => SessionActionView::Perform { action },
            None => SessionActionView::Receive,
        },
        ChatMessageView::Other => SessionActionView::Receive,
    }
}

/// The action that a session in `state` returns on `event`.
pub open spec fn next_action(state: SessionState, event: SessionEventView) -> SessionActionView {
    match failure(state, event) {
        Some(error) => SessionActionView::Halt { error },
        None => match (state, event) {
            (SessionState::Disconnected, _) => SessionActionView::Connect,
            (SessionState::Connecting, _) => SessionActionView::Join,
            (SessionState::Authenticated, _) => SessionActionView::Proceed,
            (SessionState::Joined, _) => SessionActionView::Receive,
            (SessionState::Reconnecting, _) => SessionActionView::Connect,
            (_, SessionEventView::Message { message }) => reaction(message),
            _ => SessionActionView::Receive,
        },
    }
}

/// The channels that `action` asks to join.
pub open spec fn joins(action: SessionActionView, config: ChatConfigView) -> Seq<Seq<char>> {
    match action {
        SessionActionView::Join => config.channels,
        _ => Seq::empty(),
    }
}

/// A chat session: its configuration, which never changes, and its state.
pub struct ChatSession {
    config: ChatConfig,
    state: SessionState,
}

impl ChatSession {
    /// The session's configuration.
    pub closed spec fn spec_config(&self) -> ChatConfigView {
        self.config@
    }

    /// Where the session stands.
    pub closed spec fn spec_state(&self) -> SessionState {
        self.state
    }

    /// A session that has not begun. The first event to give it is `Done`.
    pub fn new(config: ChatConfig) -> (session: ChatSession)
        ensures
            session.spec_state() == SessionState::Disconnected,
            session.spec_config() == config@,
    {
        ChatSession { config, state: SessionState::Disconnected }
    }

    /// The session's configuration.
    pub fn config(&self) -> (config: &ChatConfig)
        ensures
            config@ == self.spec_config(),
    {
        &self.config
    }

    /// Where the session stands.
    #[verifier::when_used_as_spec(spec_state)]
    pub fn state(&self) -> (state: SessionState)
        ensures
            state == self.spec_state(),
    {
        self.state
    }

    /// Takes `event`, moves to the next state and returns what to do next.
    pub fn step(&mut self, event: SessionEvent) -> (action: SessionAction)
        ensures
            final(self).spec_state() == next_state(old(self).spec_state(), event@),
            action@ == next_action(old(self).spec_state(), event@),
            final(self).spec_config() == old(self).spec_config(),
    {
        let (state, action) = match (self.state, event) {
            (SessionState::Stopped { error }, _) => (
                SessionState::Stopped { error },
                SessionAction::Halt { error },
            ),
            (SessionState::Disconnected, SessionEvent::Done) => (
                SessionState::Connecting,
                SessionAction::Connect,
            ),
            (SessionState::Connecting, SessionEvent::Done) => (
                SessionState::Authenticated,
                SessionAction::Join,
            ),
            (SessionState::Connecting, SessionEvent::Refused) => (
                SessionState::Stopped { error: ChatError::AuthError },
                SessionAction::Halt { error: ChatError::AuthError },
            ),
            (SessionState::Authenticated, SessionEvent::Done) => (
                SessionState::Joined,
                SessionAction::Proceed,
            ),
            (SessionState::Joined, SessionEvent::Done) => (
                SessionState::Receiving,
                SessionAction::Receive,
            ),
            (SessionState::Reconnecting, SessionEvent::Done) => (
                SessionState::Connecting,
                SessionAction::Connect,
            ),
            (SessionState::Receiving, SessionEvent::Done) => (
                SessionState::Receiving,
                SessionAction::Receive,
            ),
            (SessionState::Receiving, SessionEvent::Message { message }) => match message {
                ChatMessage::Ping { nonce } => (SessionState::Receiving, SessionAction::Pong { nonce }),
                ChatMessage::Reconnect => (SessionState::Reconnecting, SessionAction::Proceed),
                ChatMessage::Privmsg { message } => match interpret(&message) {
                    Some(action) => (SessionState::Receiving, SessionAction::Perform { action }),
                    None => (SessionState::Receiving, SessionAction::Receive),
                },
                ChatMessage::Other => (SessionState::Receiving, SessionAction::Receive),
            },
            _ => (
                SessionState::Stopped { error: ChatError::NetworkError },
                SessionAction::Halt { error: ChatError::NetworkError },
            ),
        };
        self.state = state;
        action
    }
}

/// A reconnect directive that arrives while the session receives leads it
/// through `Reconnecting`, `Connecting`, `Authenticated` and `Joined` back to
/// `Receiving`, provided that the driver reports each step done. On the way
/// the session asks once to connect and once to join, and the one join is for
/// every configured channel.
pub proof fn lemma_reconnect_round_trip(config: ChatConfigView)
    ensures
        ({
            let reconnect = SessionEventView::Message { message: ChatMessageView::Reconnect };
            let done = SessionEventView::Done;
            let s0 = SessionState::Receiving;
            let s1 = next_state(s0, reconnect);
            let s2 = next_state(s1, done);
            let s3 = next_state(s2, done);
            let s4 = next_state(s3, done);
            let s5 = next_state(s4, done);
            let a1 = next_action(s0, reconnect);
            let a2 = next_action(s1, done);
            let a3 = next_action(s2, done);
            let a4 = next_action(s3, done);
            let a5 = next_action(s4, done);
            &&& s1 == SessionState::Reconnecting
            &&& s2 == SessionState::Connecting
            &&& s3 == SessionState::Authenticated
            &&& s4 == SessionState::Joined
            &&& s5 == SessionState::Receiving
            &&& a1 == SessionActionView::Proceed
            &&& a2 == SessionActionView::Connect
            &&& a3 == SessionActionView::Join
            &&& a4 == SessionActionView::Proceed
            &&& a5 == SessionActionView::Receive
            &&& joins(a1, config) + joins(a2, config) + joins(a3, config) + joins(a4, config) + joins(
                a5,
                config,
            ) == config.channels
        }),
{
    let empty = Seq::<Seq<char>>::empty();
    assert(empty + empty + config.channels + empty + empty =~= config.channels);
}

/// The session asks to join exactly when a connection has just been opened
/// and the credentials accepted: once for each connection, the first and
/// every later one.
pub proof fn lemma_join_follows_connect(state: SessionState, event: SessionEventView)
    ensures
        next_action(state, event) is Join <==> state == SessionState::Connecting
            && event is Done,
        next_action(state, event) is Join ==> next_state(state, event)
            == SessionState::Authenticated,
{
}

/// A stopped session stays stopped, with the error it stopped with, and
/// asks for nothing but to halt.
pub proof fn lemma_stopped_is_final(error: ChatError, event: SessionEventView)
    ensures
        next_state(SessionState::Stopped { error }, event) == (SessionState::Stopped { error }),
        next_action(SessionState::Stopped { error }, event) == (SessionActionView::Halt { error }),
{
}

/// A session stops with `AuthError` only when its credentials are refused
/// while it connects. A reconnect directive is no error: it never stops a
/// session that receives.
pub proof fn lemma_auth_error_needs_refusal(state: SessionState, event: SessionEventView)
    requires
        !(state is Stopped),
    ensures
        next_state(state, event) == (SessionState::Stopped { error: ChatError::AuthError })
            <==> state == SessionState::Connecting && event is Refused,
        state == SessionState::Receiving && event is Message ==> !(next_state(state, event)
            is Stopped),
{
}

} // verus!
