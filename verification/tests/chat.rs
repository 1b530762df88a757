use vueko::chat::{ChatError, ChatMessage, ChatSession, SessionAction, SessionEvent, SessionState};
use vueko::color::Color;
use vueko::command::{Action, Privmsg, BALL_REWARD};
use vueko::config::ChatConfig;
use vueko::event::Event;

fn session() -> ChatSession {
    let config = ChatConfig::new(
        Some("vuekobot".to_string()),
        Some("secret".to_string()),
        vec!["#vesdeg".to_string(), "#other".to_string()],
    )
    .ok()
    .expect("a configuration");
    ChatSession::new(config)
}

fn receiving() -> ChatSession {
    let mut session = session();
    assert_eq!(session.step(SessionEvent::Done), SessionAction::Connect);
    assert_eq!(session.step(SessionEvent::Done), SessionAction::Join);
    assert_eq!(session.step(SessionEvent::Done), SessionAction::Proceed);
    assert_eq!(session.step(SessionEvent::Done), SessionAction::Receive);
    assert_eq!(session.state(), SessionState::Receiving);
    session
}

fn message(message: ChatMessage) -> SessionEvent {
    SessionEvent::Message { message }
}

fn privmsg(text: &str, reward: Option<&str>) -> SessionEvent {
    message(ChatMessage::Privmsg {
        message: Privmsg {
            text: text.to_string(),
            custom_reward_id: reward.map(|id| id.to_string()),
        },
    })
}

fn halt(error: ChatError) -> SessionAction {
    SessionAction::Halt { error }
}

fn stopped(error: ChatError) -> SessionState {
    SessionState::Stopped { error }
}

#[test]
fn a_new_session_is_disconnected() {
    let session = session();
    assert_eq!(session.state(), SessionState::Disconnected);
    assert_eq!(session.config().handle(), "vuekobot");
}

#[test]
fn a_session_passes_through_every_state_to_receiving() {
    let mut session = session();
    assert_eq!(session.step(SessionEvent::Done), SessionAction::Connect);
    assert_eq!(session.state(), SessionState::Connecting);
    assert_eq!(session.step(SessionEvent::Done), SessionAction::Join);
    assert_eq!(session.state(), SessionState::Authenticated);
    assert_eq!(session.step(SessionEvent::Done), SessionAction::Proceed);
    assert_eq!(session.state(), SessionState::Joined);
    assert_eq!(session.step(SessionEvent::Done), SessionAction::Receive);
    assert_eq!(session.state(), SessionState::Receiving);
}

#[test]
fn refused_credentials_stop_the_session_with_auth_error() {
    let mut session = session();
    session.step(SessionEvent::Done);
    assert_eq!(session.step(SessionEvent::Refused), halt(ChatError::AuthError));
    assert_eq!(session.state(), stopped(ChatError::AuthError));
}

#[test]
fn a_failed_connection_stops_the_session_with_network_error() {
    let mut session = session();
    session.step(SessionEvent::Done);
    assert_eq!(session.step(SessionEvent::Failed), halt(ChatError::NetworkError));
    assert_eq!(session.state(), stopped(ChatError::NetworkError));
}

#[test]
fn a_failed_join_stops_the_session_with_network_error() {
    let mut session = session();
    session.step(SessionEvent::Done);
    session.step(SessionEvent::Done);
    assert_eq!(session.state(), SessionState::Authenticated);
    assert_eq!(session.step(SessionEvent::Failed), halt(ChatError::NetworkError));
    assert_eq!(session.state(), stopped(ChatError::NetworkError));
}

#[test]
fn a_refusal_outside_connecting_is_a_network_error() {
    let mut session = session();
    assert_eq!(session.step(SessionEvent::Refused), halt(ChatError::NetworkError));
    let mut session = receiving();
    assert_eq!(session.step(SessionEvent::Refused), halt(ChatError::NetworkError));
}

#[test]
fn a_message_before_receiving_is_a_network_error() {
    let mut session = session();
    session.step(SessionEvent::Done);
    assert_eq!(session.step(message(ChatMessage::Other)), halt(ChatError::NetworkError));
    assert_eq!(session.state(), stopped(ChatError::NetworkError));
}

#[test]
fn a_failure_while_receiving_stops_the_session() {
    let mut session = receiving();
    assert_eq!(session.step(SessionEvent::Failed), halt(ChatError::NetworkError));
    assert_eq!(session.state(), stopped(ChatError::NetworkError));
}

#[test]
fn a_stopped_session_stays_stopped() {
    let mut session = session();
    session.step(SessionEvent::Done);
    session.step(SessionEvent::Refused);
    assert_eq!(session.step(SessionEvent::Done), halt(ChatError::AuthError));
    assert_eq!(session.step(SessionEvent::Failed), halt(ChatError::AuthError));
    assert_eq!(session.step(message(ChatMessage::Reconnect)), halt(ChatError::AuthError));
    assert_eq!(session.state(), stopped(ChatError::AuthError));
}

#[test]
fn a_ping_is_answered_with_its_nonce() {
    let mut session = receiving();
    let ping = message(ChatMessage::Ping { nonce: Some("tmi.twitch.tv".to_string()) });
    assert_eq!(session.step(ping), SessionAction::Pong { nonce: Some("tmi.twitch.tv".to_string()) });
    assert_eq!(session.state(), SessionState::Receiving);
    assert_eq!(session.step(SessionEvent::Done), SessionAction::Receive);
    let bare = message(ChatMessage::Ping { nonce: None });
    assert_eq!(session.step(bare), SessionAction::Pong { nonce: None });
}

#[test]
fn a_failed_pong_stops_the_session() {
    let mut session = receiving();
    session.step(message(ChatMessage::Ping { nonce: None }));
    assert_eq!(session.step(SessionEvent::Failed), halt(ChatError::NetworkError));
}

#[test]
fn a_reconnect_leads_back_to_receiving_with_one_join() {
    let mut session = receiving();
    let mut states = Vec::new();
    let mut actions = Vec::new();
    actions.push(session.step(message(ChatMessage::Reconnect)));
    states.push(session.state());
    for _ in 0..4 {
        actions.push(session.step(SessionEvent::Done));
        states.push(session.state());
    }
    assert_eq!(
        states,
        vec![
            SessionState::Reconnecting,
            SessionState::Connecting,
            SessionState::Authenticated,
            SessionState::Joined,
            SessionState::Receiving,
        ]
    );
    assert_eq!(
        actions,
        vec![
            SessionAction::Proceed,
            SessionAction::Connect,
            SessionAction::Join,
            SessionAction::Proceed,
            SessionAction::Receive,
        ]
    );
    let joins = actions.iter().filter(|action| **action == SessionAction::Join).count();
    assert_eq!(joins, 1);
    let channels: Vec<&str> =
        session.config().channels().iter().map(|channel| channel.name()).collect();
    assert_eq!(channels, vec!["#vesdeg", "#other"]);
    assert_eq!(session.config().handle(), "vuekobot");
    assert_eq!(session.config().secret_token(), "secret");
}

#[test]
fn every_reconnect_joins_once() {
    let mut session = receiving();
    let mut joins = 0;
    for _ in 0..3 {
        let mut action = session.step(message(ChatMessage::Reconnect));
        while session.state() != SessionState::Receiving {
            if action == SessionAction::Join {
                joins += 1;
            }
            action = session.step(SessionEvent::Done);
        }
        assert_eq!(action, SessionAction::Receive);
    }
    assert_eq!(joins, 3);
}

#[test]
fn a_failed_reconnect_stops_the_session() {
    let mut session = receiving();
    session.step(message(ChatMessage::Reconnect));
    assert_eq!(session.step(SessionEvent::Done), SessionAction::Connect);
    assert_eq!(session.step(SessionEvent::Failed), halt(ChatError::NetworkError));
}

#[test]
fn a_viewer_command_is_performed() {
    let mut session = receiving();
    assert_eq!(
        session.step(privmsg("!mpv https://example.com/x", None)),
        SessionAction::Perform {
            action: Action::LaunchViewer { url: "https://example.com/x".to_string() }
        }
    );
    assert_eq!(session.state(), SessionState::Receiving);
    assert_eq!(session.step(SessionEvent::Done), SessionAction::Receive);
}

#[test]
fn a_redeemed_colour_is_emitted() {
    let mut session = receiving();
    assert_eq!(
        session.step(privmsg("#FF00FF", Some(BALL_REWARD))),
        SessionAction::Perform {
            action: Action::Emit {
                event: Event::Ball { color: Color { red: 255, green: 0, blue: 255, alpha: 255 } }
            }
        }
    );
    assert_eq!(
        session.step(privmsg("notacolor", Some(BALL_REWARD))),
        SessionAction::Perform { action: Action::Emit { event: Event::Ball { color: Color::white() } } }
    );
}

#[test]
fn other_messages_are_passed_over() {
    let mut session = receiving();
    assert_eq!(session.step(privmsg("hello", None)), SessionAction::Receive);
    assert_eq!(session.step(privmsg("!ball", None)), SessionAction::Receive);
    assert_eq!(session.step(message(ChatMessage::Other)), SessionAction::Receive);
    assert_eq!(session.state(), SessionState::Receiving);
}

#[test]
fn a_failed_action_stops_the_session() {
    let mut session = receiving();
    session.step(privmsg("!mpv https://example.com/x", None));
    assert_eq!(session.step(SessionEvent::Failed), halt(ChatError::NetworkError));
}
