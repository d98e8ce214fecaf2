//! The management surface's rules: authentication, admission, the registry,
//! configuration resolution, error mapping, and identifier rendering.

use chat_server::config::{parse_u32, parse_u64, Config, ConfigError, RawConfig};
use chat_server::error::AppError;
use chat_server::handler::{
    route_inbound_frame, ConnectionCounter, ConnectionGuard, InboundAction,
};
use chat_server::ids::{u64_dec_string, uuid_string, websocket_url};
use chat_server::models::WsMessage;
use chat_server::registry::{check_auth, ws_admission, Registry};
use chat_server::sched::{next_action, SchedAction, NORMAL_SLICE};

fn s(x: &str) -> String {
    x.to_string()
}

fn raw_with_key() -> RawConfig {
    RawConfig {
        database_url: None,
        bind_address: None,
        admin_api_key: Some(s("k")),
        data_callback_url: None,
        max_connections: None,
        sync_interval_seconds: None,
        user_message_interval_secs: None,
        room_event_callback_url: None,
        chat_history_callback_url: None,
        session_history_callback_url: None,
        periodic_sync_callback_url: None,
        chat_history_batch_size: None,
        session_history_batch_size: None,
        chat_history_batch_interval_seconds: None,
        session_history_batch_interval_seconds: None,
        callback_max_retries: None,
        callback_retry_delay_seconds: None,
        callback_timeout_seconds: None,
    }
}

#[test]
fn config_defaults() {
    let c = Config::from_values(raw_with_key()).unwrap();
    assert_eq!(c.database_url, "sqlite::memory:");
    assert_eq!(c.bind_address, "0.0.0.0:3000");
    assert_eq!(c.admin_api_key, "k");
    assert_eq!(c.max_connections, 100000);
    assert_eq!(c.sync_interval_seconds, 300);
    assert_eq!(c.user_message_interval_secs, 5);
    assert_eq!(c.chat_history_batch_size, 1000);
    assert_eq!(c.session_history_batch_size, 500);
    assert_eq!(c.chat_history_batch_interval_seconds, 300);
    assert_eq!(c.session_history_batch_interval_seconds, 600);
    assert_eq!(c.callback_max_retries, 3);
    assert_eq!(c.callback_retry_delay_seconds, 5);
    assert_eq!(c.callback_timeout_seconds, 30);
    assert_eq!(c.data_callback_url, None);
}

#[test]
fn config_requires_admin_key() {
    let mut raw = raw_with_key();
    raw.admin_api_key = None;
    assert_eq!(Config::from_values(raw).unwrap_err(), ConfigError::MissingAdminKey);
}

#[test]
fn config_rejects_bad_numbers() {
    let mut raw = raw_with_key();
    raw.max_connections = Some(s("many"));
    assert_eq!(Config::from_values(raw).unwrap_err(), ConfigError::BadNumber);

    let mut raw = raw_with_key();
    raw.max_connections = Some(s("2048"));
    let c = Config::from_values(raw).unwrap();
    assert_eq!(c.max_connections, 2048);
}

#[test]
fn decimal_parsing_is_exact() {
    assert_eq!(parse_u64("0"), Some(0));
    assert_eq!(parse_u64("00123"), Some(123));
    assert_eq!(parse_u64("18446744073709551615"), Some(u64::MAX));
    assert_eq!(parse_u64("18446744073709551616"), None, "one past the maximum");
    assert_eq!(parse_u64(""), None);
    assert_eq!(parse_u64("12a"), None);
    assert_eq!(parse_u64("-3"), None);
    assert_eq!(parse_u32("4294967295"), Some(u32::MAX));
    assert_eq!(parse_u32("4294967296"), None);
}

#[test]
fn auth_accepts_exact_key_only() {
    let expected = s("secret");
    assert!(check_auth(Some(&s("secret")), &expected).is_ok());
    assert!(matches!(
        check_auth(Some(&s("wrong")), &expected),
        Err(AppError::Unauthorized)
    ));
    assert!(matches!(check_auth(None, &expected), Err(AppError::Unauthorized)));
}

#[test]
fn connection_cap_rejects_without_growing() {
    let mut counter = ConnectionCounter::new(2);
    let g1 = ConnectionGuard::new(&mut counter).expect("below the cap");
    let _g2 = ConnectionGuard::new(&mut counter).expect("below the cap");
    assert_eq!(counter.current, 2);

    // At the cap the next attempt is refused and the counter does not grow.
    assert!(ConnectionGuard::new(&mut counter).is_none());
    assert_eq!(counter.current, 2);

    g1.release(&mut counter);
    assert_eq!(counter.current, 1);
    assert!(ConnectionGuard::new(&mut counter).is_some());
}

#[test]
fn ws_admission_orders_its_checks() {
    let mut counter = ConnectionCounter::new(1);
    let r = ws_admission(&mut counter, true, 7);
    assert!(r.is_ok());
    assert_eq!(counter.current, 1);

    match ws_admission(&mut counter, true, 7) {
        Err(AppError::ServiceUnavailable(m)) => {
            assert_eq!(m, "服务器连接数已达上限")
        },
        other => panic!("expected Service Unavailable, got {:?}", other),
    }
    assert_eq!(counter.current, 1, "a rejected upgrade takes no slot");

    let mut counter = ConnectionCounter::new(10);
    match ws_admission(&mut counter, false, 7) {
        Err(AppError::NotFound(m)) => {
            let id = uuid::Uuid::from_u128(7).to_string();
            assert_eq!(m, format!("Room {} not found", id));
        },
        other => panic!("expected Not Found, got {:?}", other),
    }
    assert_eq!(counter.current, 0);
}

#[test]
fn register_room_accepts_fresh_ids_only() {
    let mut reg = Registry::new();
    let resp = reg.register_room(42).expect("fresh id is accepted");
    assert_eq!(resp.room_id, 42);
    assert_eq!(resp.websocket_url, websocket_url(42));
    assert!(reg.contains_room(42));

    assert!(reg.register_room(42).is_none(), "a colliding id is refused");
    assert!(reg.contains_room(42));
    assert_eq!(reg.room_ids, vec![42]);
}

#[test]
fn registry_creates_and_closes_rooms() {
    let mut reg = Registry::new();
    let resp = reg.create_room().expect("fresh id");
    assert!(reg.contains_room(resp.room_id));
    assert_eq!(resp.websocket_url, websocket_url(resp.room_id));

    assert!(reg.remove_room(resp.room_id));
    assert!(!reg.contains_room(resp.room_id));
    assert!(!reg.remove_room(resp.room_id), "closing twice reports Not Found");
}

#[test]
fn error_statuses_match_their_kinds() {
    assert_eq!(AppError::Unauthorized.status_code(), 401);
    assert_eq!(AppError::NotFound(s("x")).status_code(), 404);
    assert_eq!(AppError::BadRequest(s("x")).status_code(), 400);
    assert_eq!(AppError::Forbidden(s("x")).status_code(), 403);
    assert_eq!(AppError::ServiceUnavailable(s("x")).status_code(), 503);
    assert_eq!(AppError::InternalServerError(s("x")).status_code(), 500);
    assert_eq!(AppError::Database(s("x")).status_code(), 500);
    assert_eq!(AppError::External(s("x")).status_code(), 500);

    assert_eq!(AppError::Unauthorized.message(), "Unauthorized: Invalid API Key");
    assert_eq!(AppError::Database(s("boom")).message(), "Database error: boom");
    assert_eq!(
        AppError::External(s("boom")).message(),
        "External service communication error"
    );
    assert_eq!(AppError::NotFound(s("nope")).message(), "nope");
}

#[test]
fn id_rendering_matches_canonical_uuid_text() {
    for x in [0u128, 1, 0xffff_ffff_ffff_ffff_ffff_ffff_ffff_ffff, 0x1234_5678_9abc_def0] {
        assert_eq!(uuid_string(x), uuid::Uuid::from_u128(x).to_string());
    }
    assert_eq!(websocket_url(0), format!("/ws/rooms/{}", uuid::Uuid::from_u128(0)));
    for n in [0u64, 7, 10, 105, u64::MAX] {
        assert_eq!(u64_dec_string(n), format!("{}", n));
    }
}

#[test]
fn ping_is_answered_locally_with_same_timestamp() {
    let a = route_inbound_frame(WsMessage::Ping { timestamp: 42 }, 1, s("b"), s("b"), 7);
    assert_eq!(a, InboundAction::ReplyLocal(WsMessage::Pong { timestamp: 42 }));
}

#[test]
fn other_frames_are_forwarded_unchanged() {
    let a = route_inbound_frame(
        WsMessage::SendMessage { content: s("hi") },
        1,
        s("b"),
        s("nick"),
        7,
    );
    match a {
        InboundAction::Forward(m) => {
            assert_eq!(m.conn_id, 1);
            assert_eq!(m.user_id, "b");
            assert_eq!(m.nickname, "nick");
            assert_eq!(m.room_id, 7);
            assert_eq!(m.content, WsMessage::SendMessage { content: s("hi") });
        },
        other => panic!("expected a forward, got {:?}", other),
    }
}

#[test]
fn scheduler_prefers_urgent_ports_and_honors_the_slice() {
    assert_eq!(next_action(true, true, true, true, 0), SchedAction::ServeHigh);
    assert_eq!(next_action(false, true, true, true, 0), SchedAction::ServeControl);
    assert_eq!(next_action(false, false, true, true, 0), SchedAction::ServeStats);
    assert_eq!(next_action(false, false, false, true, 0), SchedAction::ServeNormal);
    assert_eq!(
        next_action(false, false, false, true, NORMAL_SLICE - 1),
        SchedAction::ServeNormal
    );
    assert_eq!(next_action(false, false, false, true, NORMAL_SLICE), SchedAction::Yield);
    assert_eq!(next_action(false, false, false, false, 0), SchedAction::Yield);
    assert_eq!(next_action(true, false, false, true, NORMAL_SLICE), SchedAction::ServeHigh);
}
