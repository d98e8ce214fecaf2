//! The webhook dispatcher's retry budget, batch tags and pagination.

use chat_server::callback::{
    batch_bounds, chat_batch_id, chat_history_batch_event, num_batches, room_closed_event,
    room_created_event, session_batch_id, Delivery, RetryDecision, RetryPolicy,
};
use chat_server::models::{CallbackEvent, RoomStats};

fn s(x: &str) -> String {
    x.to_string()
}

fn policy(max_retries: u32, delay: u64) -> RetryPolicy {
    RetryPolicy { max_retries, retry_delay_seconds: delay, timeout_seconds: 30 }
}

#[test]
fn retry_succeeds_on_third_attempt() {
    // max_retries = 2, delay 0; the webhook answers 500, 500, 200.
    let p = policy(2, 0);
    let mut d = Delivery::new();
    assert_eq!(d.after_attempt(&p, false), RetryDecision::RetryAfter(0));
    assert_eq!(d.after_attempt(&p, false), RetryDecision::RetryAfter(0));
    assert_eq!(d.after_attempt(&p, true), RetryDecision::Delivered);
    assert_eq!(d.attempts_made, 3);
}

#[test]
fn retry_gives_up_after_three_posts() {
    let p = policy(2, 0);
    let mut d = Delivery::new();
    assert_eq!(d.after_attempt(&p, false), RetryDecision::RetryAfter(0));
    assert_eq!(d.after_attempt(&p, false), RetryDecision::RetryAfter(0));
    assert_eq!(d.after_attempt(&p, false), RetryDecision::GiveUp);
    assert_eq!(d.attempts_made, 3, "exactly three POSTs were made");
}

#[test]
fn retry_delay_comes_from_policy() {
    let p = policy(1, 9);
    let mut d = Delivery::new();
    assert_eq!(d.after_attempt(&p, false), RetryDecision::RetryAfter(9));
    assert_eq!(d.after_attempt(&p, false), RetryDecision::GiveUp);
}

#[test]
fn first_attempt_success_delivers_at_once() {
    let p = policy(3, 5);
    let mut d = Delivery::new();
    assert_eq!(d.after_attempt(&p, true), RetryDecision::Delivered);
    assert_eq!(d.attempts_made, 1);
}

#[test]
fn batch_ids_follow_the_tag_scheme() {
    let room: u128 = 0x1234_5678_9abc_def0_1122_3344_5566_7788;
    let uuid_text = uuid::Uuid::from_u128(room).to_string();
    assert_eq!(chat_batch_id(room, 3), format!("chat_{}_{}", uuid_text, 3));
    assert_eq!(session_batch_id(room, 12), format!("session_{}_{}", uuid_text, 12));
}

#[test]
fn pagination_covers_the_table_and_flags_the_last_page() {
    assert_eq!(num_batches(0, 3), 1, "an empty table still sends a terminal batch");
    assert_eq!(num_batches(10, 3), 4);
    assert_eq!(num_batches(9, 3), 3);

    assert_eq!(batch_bounds(10, 3, 0), (0, 3, false));
    assert_eq!(batch_bounds(10, 3, 2), (6, 9, false));
    assert_eq!(batch_bounds(10, 3, 3), (9, 10, true));
    assert_eq!(batch_bounds(9, 3, 2), (6, 9, true));
    assert_eq!(batch_bounds(0, 3, 0), (0, 0, true));
}

#[test]
fn room_lifecycle_events_carry_their_fields() {
    let e = room_created_event(5, s("lobby"), vec![s("a")]);
    match e {
        CallbackEvent::RoomCreated { room_id, room_name, admin_ids, .. } => {
            assert_eq!(room_id, 5);
            assert_eq!(room_name, "lobby");
            assert_eq!(admin_ids, vec![s("a")]);
        },
        other => panic!("unexpected event: {:?}", other),
    }

    let stats = RoomStats { current_users: 0, peak_users: 4, total_joins: 9 };
    let e = room_closed_event(5, stats);
    match e {
        CallbackEvent::RoomClosed { room_id, final_stats, .. } => {
            assert_eq!(room_id, 5);
            assert_eq!(final_stats.peak_users, 4);
            assert_eq!(final_stats.total_joins, 9);
        },
        other => panic!("unexpected event: {:?}", other),
    }
}

#[test]
fn history_batch_event_is_tagged_and_terminal() {
    let e = chat_history_batch_event(5, vec![], 2, true);
    match e {
        CallbackEvent::ChatHistoryBatch { room_id, messages, batch_id, is_last_batch, .. } => {
            assert_eq!(room_id, 5);
            assert!(messages.is_empty());
            assert_eq!(batch_id, chat_batch_id(5, 2));
            assert!(is_last_batch);
        },
        other => panic!("unexpected event: {:?}", other),
    }
}
