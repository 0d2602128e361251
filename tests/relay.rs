use matrix_sdk::ruma::{OwnedRoomId, RoomId};
use sms_relay::config::{Config, ConfigError};
use sms_relay::delivery::{
    receive, response_status, start_delivery, step, DeliveryAction, DeliveryError, DeliveryEvent,
    DeliveryState,
};
use sms_relay::message::InboundMessage;
use sms_relay::session::{
    homeserver_user, liveness_status, readiness_status, session_step, start_session,
    startup_status, SessionAction, SessionError, SessionEvent, SessionPhase,
};

fn s(v: &str) -> Option<String> {
    Some(v.to_string())
}

fn room() -> OwnedRoomId {
    RoomId::parse("!abcdef:example.org").unwrap()
}

fn config(user: &str, room_alias: &str) -> Config {
    Config::create(s(user), s("secret"), s(room_alias)).unwrap()
}

fn resolving(alias: &str, from: &str, to: &str, body: &str) -> DeliveryState {
    let (state, action) = receive(alias, s(from), s(to), s(body));
    match action {
        DeliveryAction::ResolveAlias { alias: a } => assert_eq!(a.as_str(), alias),
        _ => panic!("expected alias resolution"),
    }
    state
}

#[test]
fn compose_body_follows_template() {
    let msg = InboundMessage::new("+1".to_string(), "+2".to_string(), "hi there".to_string());
    assert_eq!(msg.compose_body(), "FROM: +1\nTO: +2\n\nhi there");
}

#[test]
fn compose_body_of_empty_fields() {
    let msg = InboundMessage::new(String::new(), String::new(), String::new());
    assert_eq!(msg.compose_body(), "FROM: \nTO: \n\n");
}

#[test]
fn config_takes_all_three_values() {
    let cfg = config("@bot:example.org", "#relay:example.org");
    assert_eq!(cfg.matrix_user_id, "@bot:example.org");
    assert_eq!(cfg.matrix_password, "secret");
    assert_eq!(cfg.matrix_room_id, "#relay:example.org");
}

#[test]
fn config_reports_first_missing_value() {
    assert!(matches!(Config::create(None, None, None), Err(ConfigError::MissingUserId)));
    assert!(matches!(Config::create(s("u"), None, None), Err(ConfigError::MissingPassword)));
    assert!(matches!(Config::create(s("u"), s("p"), None), Err(ConfigError::MissingRoomId)));
    assert_eq!(ConfigError::MissingUserId.message(), "failed to get user id");
    assert_eq!(ConfigError::MissingPassword.message(), "failed to get password");
    assert_eq!(ConfigError::MissingRoomId.message(), "failed to get room id");
}

#[test]
fn missing_body_is_rejected_without_action() {
    let (state, action) = receive("#relay:example.org", s("+1"), s("+2"), None);
    assert!(matches!(state, DeliveryState::Rejected));
    assert!(matches!(action, DeliveryAction::Respond { status: 422 }));
    assert!(state.is_finished());
}

#[test]
fn missing_sender_or_recipient_is_rejected() {
    let (_, a) = receive("#relay:example.org", None, s("+2"), s("x"));
    assert!(matches!(a, DeliveryAction::Respond { status: 422 }));
    let (_, a) = receive("#relay:example.org", s("+1"), None, s("x"));
    assert!(matches!(a, DeliveryAction::Respond { status: 422 }));
}

#[test]
fn malformed_alias_fails_before_resolution() {
    for alias in ["", "relay:example.org", "#relay"] {
        let (state, action) = receive(alias, s("+1"), s("+2"), s("x"));
        assert!(matches!(state, DeliveryState::Finished { outcome: Err(DeliveryError::AliasParse) }));
        assert!(matches!(action, DeliveryAction::Respond { status: 500 }));
    }
}

#[test]
fn end_to_end_delivery_with_ready_session() {
    let cfg = config("@bot:example.org", "#relay:example.org");
    let state = resolving(&cfg.matrix_room_id, "+15551234567", "+15559876543", "hello");
    let event = DeliveryEvent::AliasResolved { room: Some(room()) };
    assert!(state.accepts(&event));
    let (state, action) = step(state, event);
    match action {
        DeliveryAction::LookUpRoom { room: r } => assert_eq!(r, room()),
        _ => panic!("expected room lookup"),
    }
    let (state, action) = step(state, DeliveryEvent::RoomLookedUp { found: true });
    match action {
        DeliveryAction::Send { body } => {
            assert_eq!(body, "FROM: +15551234567\nTO: +15559876543\n\nhello")
        }
        _ => panic!("expected send"),
    }
    let (state, action) = step(state, DeliveryEvent::SendCompleted { ok: true });
    assert!(matches!(state, DeliveryState::Finished { outcome: Ok(()) }));
    assert!(matches!(action, DeliveryAction::Respond { status: 200 }));
}

#[test]
fn unauthenticated_session_is_not_ready_and_delivery_does_not_panic() {
    let cfg = config("@bot:example.org", "#relay:example.org");
    let (phase, action) = start_session(&cfg);
    assert_eq!(readiness_status(SessionPhase::Unauthenticated), 503);
    assert_eq!(readiness_status(phase), 503);
    assert!(matches!(action, SessionAction::Login { .. }));
    let state = resolving(&cfg.matrix_room_id, "+15551234567", "+15559876543", "hello");
    let (state, action) = step(state, DeliveryEvent::AliasResolved { room: None });
    assert!(matches!(state, DeliveryState::Finished { outcome: Err(DeliveryError::AliasResolution) }));
    assert!(matches!(action, DeliveryAction::Respond { status: 500 }));
}

#[test]
fn room_not_joined_is_server_error() {
    let state = resolving("#relay:example.org", "a", "b", "c");
    let (state, _) = step(state, DeliveryEvent::AliasResolved { room: Some(room()) });
    let (state, action) = step(state, DeliveryEvent::RoomLookedUp { found: false });
    assert!(matches!(state, DeliveryState::Finished { outcome: Err(DeliveryError::RoomNotFound) }));
    assert!(matches!(action, DeliveryAction::Respond { status: 500 }));
}

#[test]
fn refused_send_is_server_error() {
    let state = resolving("#relay:example.org", "a", "b", "c");
    let (state, _) = step(state, DeliveryEvent::AliasResolved { room: Some(room()) });
    let (state, _) = step(state, DeliveryEvent::RoomLookedUp { found: true });
    let (state, action) = step(state, DeliveryEvent::SendCompleted { ok: false });
    assert!(matches!(state, DeliveryState::Finished { outcome: Err(DeliveryError::Send) }));
    assert!(matches!(action, DeliveryAction::Respond { status: 500 }));
    assert!(!state.accepts(&DeliveryEvent::SendCompleted { ok: true }));
}

#[test]
fn every_failure_maps_to_server_error() {
    for e in [
        DeliveryError::AliasParse,
        DeliveryError::AliasResolution,
        DeliveryError::RoomNotFound,
        DeliveryError::Send,
    ] {
        assert_eq!(response_status(Err(e)), 500);
        assert!(!e.describe().is_empty());
    }
    assert_eq!(response_status(Ok(())), 200);
    assert_eq!(DeliveryError::RoomNotFound.describe(), "room not found");
}

#[test]
fn start_delivery_composes_text() {
    let msg = InboundMessage::new("x".to_string(), "y".to_string(), "z".to_string());
    let (state, _) = start_delivery("#r:example.org", &msg);
    match state {
        DeliveryState::Resolving { body } => assert_eq!(body, "FROM: x\nTO: y\n\nz"),
        _ => panic!("expected resolution"),
    }
}

#[test]
fn state_accepts_only_its_event() {
    let state = resolving("#relay:example.org", "a", "b", "c");
    assert!(!state.accepts(&DeliveryEvent::RoomLookedUp { found: true }));
    assert!(!state.accepts(&DeliveryEvent::SendCompleted { ok: true }));
    assert!(!state.is_finished());
}

#[test]
fn probes_succeed_without_authentication() {
    assert_eq!(startup_status(), 200);
    assert_eq!(liveness_status(), 200);
}

#[test]
fn readiness_follows_session_phase() {
    let cfg = config("@bot:example.org", "#relay:example.org");
    let (phase, _) = start_session(&cfg);
    assert_eq!(phase, SessionPhase::Authenticating);
    assert!(!phase.is_ready());
    let (phase, action) = session_step(phase, SessionEvent::LoginFinished { ok: true });
    assert!(matches!(action, SessionAction::RunSync));
    assert_eq!(readiness_status(phase), 200);
    let (phase, action) = session_step(phase, SessionEvent::SyncFinished { ok: false });
    assert!(matches!(action, SessionAction::Stop { error: Some(SessionError::Sync) }));
    assert_eq!(readiness_status(phase), 503);
    assert!(!phase.accepts(SessionEvent::LoginFinished { ok: true }));
}

#[test]
fn failed_login_stops_session() {
    let (phase, action) = session_step(SessionPhase::Authenticating, SessionEvent::LoginFinished { ok: false });
    assert_eq!(phase, SessionPhase::Terminated);
    assert!(matches!(action, SessionAction::Stop { error: Some(SessionError::Authentication) }));
    let (_, action) = session_step(SessionPhase::Syncing, SessionEvent::SyncFinished { ok: true });
    assert!(matches!(action, SessionAction::Stop { error: None }));
}

#[test]
fn unqualified_user_id_stops_session() {
    let cfg = config("bot:example.org", "#relay:example.org");
    let (phase, action) = start_session(&cfg);
    assert_eq!(phase, SessionPhase::Terminated);
    assert!(matches!(action, SessionAction::Stop { error: Some(SessionError::UserIdParse) }));
    assert!(matches!(homeserver_user(&cfg), Err(SessionError::UserIdParse)));
}

#[test]
fn user_id_names_homeserver() {
    let cfg = config("@bot:example.org", "#relay:example.org");
    let user = homeserver_user(&cfg).unwrap();
    assert_eq!(user.server_name().as_str(), "example.org");
    assert_eq!(user.localpart(), "bot");
}
