//! End-to-end scenarios against the room actor's state machine.

use chat_server::models::{
    ControlMessage, DbWriteCommand, Effect, InternalMessage, ResetAdminsRequest, WsMessage,
};
use chat_server::registry::reset_admins_control;
use chat_server::room::Room;
use chat_server::userset::UserSet;

fn s(x: &str) -> String {
    x.to_string()
}

fn room_with_admins(admins: &[&str]) -> Room {
    let ids: Vec<String> = admins.iter().map(|a| a.to_string()).collect();
    Room::new(UserSet::from_vec(ids), UserSet::new())
}

const ROOM: u128 = 7;

#[test]
fn basic_exchange_broadcasts_and_persists() {
    // Create a room with admin "a", connect "a" and "b", let "b" chat.
    let mut room = room_with_admins(&["a"]);
    room.user_joined(1, s("a"), s("a"), ROOM, 100);
    room.user_joined(2, s("b"), s("b"), ROOM, 101);
    assert_eq!(room.stats.current_users, 2);

    let eff = room.send_message(2, s("b"), s("b"), ROOM, s("hi"), 1000, 5);
    assert_eq!(eff.len(), 2);
    assert_eq!(
        eff[0],
        Effect::DbWrite {
            cmd: DbWriteCommand::ChatMessage {
                user_id: s("b"),
                nickname: s("b"),
                room_id: ROOM,
                content: s("hi"),
            }
        }
    );
    assert_eq!(
        eff[1],
        Effect::Broadcast {
            msg: WsMessage::Message {
                from: s("b"),
                nickname: s("b"),
                content: s("hi"),
                is_admin: false,
            }
        }
    );
}

#[test]
fn ban_evicts_and_locks_out() {
    let mut room = room_with_admins(&["a"]);
    room.user_joined(1, s("a"), s("a"), ROOM, 100);
    room.user_joined(2, s("b"), s("b"), ROOM, 101);

    // Admin "a" kicks "b": ban row write, then the eviction notice.
    let eff = room.kick_user(1, s("b"), ROOM);
    assert_eq!(eff.len(), 2);
    assert_eq!(
        eff[0],
        Effect::DbWrite { cmd: DbWriteCommand::BanUser { user_id: s("b"), room_id: ROOM } }
    );
    assert_eq!(eff[1], Effect::SendTo { conn_id: 2, msg: WsMessage::YouAreKicked });
    assert_eq!(room.stats.current_users, 1);

    // A fresh connect attempt by "b" is refused with the exact notice.
    let eff = room.user_joined(3, s("b"), s("b"), ROOM, 102);
    assert_eq!(eff.len(), 1);
    assert_eq!(
        eff[0],
        Effect::SendTo {
            conn_id: 3,
            msg: WsMessage::Error { message: s("你已被踢出该房间，无法再次加入") },
        }
    );
    assert_eq!(room.stats.current_users, 1);
}

#[test]
fn non_admin_kick_is_silently_dropped() {
    let mut room = room_with_admins(&["a"]);
    room.user_joined(1, s("a"), s("a"), ROOM, 100);
    room.user_joined(2, s("b"), s("b"), ROOM, 101);
    let eff = room.kick_user(2, s("a"), ROOM);
    assert!(eff.is_empty());
    assert_eq!(room.stats.current_users, 2);
}

#[test]
fn duplicate_session_displacement() {
    let mut room = room_with_admins(&["a"]);
    let before = room.stats.current_users;
    let eff1 = room.user_joined(10, s("c"), s("c"), ROOM, 100);
    let eff2 = room.user_joined(11, s("c"), s("c"), ROOM, 101);

    // The first connection is kicked and its session row is closed with the
    // original join instant; net growth is one user.
    assert_eq!(eff2[0], Effect::SendTo { conn_id: 10, msg: WsMessage::YouAreKicked });
    assert_eq!(
        eff2[1],
        Effect::DbWrite {
            cmd: DbWriteCommand::UserLeft {
                user_id: s("c"),
                nickname: s("c"),
                room_id: ROOM,
                join_time: 100,
            }
        }
    );
    assert_eq!(room.stats.current_users, before + 1);

    // Exactly one live connection carries user "c".
    let live: Vec<u128> = room
        .connections
        .iter()
        .filter(|e| e.user_id == "c")
        .map(|e| e.conn_id)
        .collect();
    assert_eq!(live, vec![11]);
    assert_eq!(room.stats.total_joins, 2);

    // Applying the emitted writes in order leaves exactly one open session
    // row for ("room", "c").
    let mut tables = chat_server::db::RoomTables::new();
    let mut mono: u64 = 100;
    for e in eff1.iter().chain(eff2.iter()) {
        if let Effect::DbWrite { cmd } = e {
            tables.apply_command(cmd, 1000, mono);
            mono += 1;
        }
    }
    let open: Vec<&chat_server::db::SessionRow> = tables
        .sessions
        .iter()
        .filter(|r| r.user_id == "c" && r.leave_time.is_none())
        .collect();
    assert_eq!(open.len(), 1, "one open session row after displacement");
}

#[test]
fn rate_limit_names_remaining_seconds() {
    // interval 5 s; "d" is not an admin; second message 1 s after the first.
    let mut room = room_with_admins(&["a"]);
    room.user_joined(1, s("d"), s("d"), ROOM, 100);

    let eff = room.send_message(1, s("d"), s("d"), ROOM, s("one"), 1000, 5);
    assert_eq!(eff.len(), 2, "first message is persisted and broadcast");

    let eff = room.send_message(1, s("d"), s("d"), ROOM, s("two"), 1001, 5);
    assert_eq!(eff.len(), 1, "second message is refused");
    assert_eq!(
        eff[0],
        Effect::SendTo {
            conn_id: 1,
            msg: WsMessage::Error { message: s("发送过于频繁，请4秒后再试") },
        }
    );

    // Once the interval has passed, the next message goes through.
    let eff = room.send_message(1, s("d"), s("d"), ROOM, s("three"), 1005, 5);
    assert_eq!(eff.len(), 2);
}

#[test]
fn admins_bypass_rate_limit() {
    let mut room = room_with_admins(&["a"]);
    room.user_joined(1, s("a"), s("a"), ROOM, 100);
    let eff = room.send_message(1, s("a"), s("a"), ROOM, s("one"), 1000, 5);
    assert_eq!(eff.len(), 2);
    let eff = room.send_message(1, s("a"), s("a"), ROOM, s("two"), 1001, 5);
    assert_eq!(eff.len(), 2);
    if let Effect::Broadcast { msg: WsMessage::Message { is_admin, .. } } = &eff[1] {
        assert!(*is_admin);
    } else {
        panic!("expected a broadcast message");
    }
}

#[test]
fn muted_sender_gets_notice_and_no_broadcast() {
    let mut room = room_with_admins(&["a"]);
    room.user_joined(1, s("a"), s("a"), ROOM, 100);
    room.user_joined(2, s("b"), s("b"), ROOM, 101);
    let eff = room.mute_user(1, s("b"));
    assert!(eff.is_empty());
    let eff = room.send_message(2, s("b"), s("b"), ROOM, s("hi"), 1000, 5);
    assert_eq!(eff, vec![Effect::SendTo { conn_id: 2, msg: WsMessage::YouAreMuted }]);
}

#[test]
fn mute_twice_equals_once() {
    let mut room = room_with_admins(&["a"]);
    room.user_joined(1, s("a"), s("a"), ROOM, 100);
    room.mute_user(1, s("b"));
    let items_once = room.muted.items.clone();
    room.mute_user(1, s("b"));
    assert_eq!(room.muted.items, items_once);
}

#[test]
fn reset_admins_last_wins() {
    let mut room = room_with_admins(&["a"]);
    let first = reset_admins_control(ResetAdminsRequest {
        admin_user_ids: vec![s("x"), s("y")],
    });
    room.apply_control(first);
    let second = reset_admins_control(ResetAdminsRequest { admin_user_ids: vec![s("z")] });
    room.apply_control(second);
    assert_eq!(room.admins.items, vec![s("z")]);
}

#[test]
fn unban_after_kick_allows_rejoin() {
    let mut room = room_with_admins(&["a"]);
    room.user_joined(1, s("a"), s("a"), ROOM, 100);
    room.user_joined(2, s("b"), s("b"), ROOM, 101);
    room.kick_user(1, s("b"), ROOM);
    let eff = room.user_joined(3, s("b"), s("b"), ROOM, 102);
    assert!(matches!(&eff[0], Effect::SendTo { msg: WsMessage::Error { .. }, .. }));

    room.apply_control(ControlMessage::UnbanUser(s("b")));
    let eff = room.user_joined(4, s("b"), s("b"), ROOM, 103);
    assert!(
        eff.iter().any(|e| matches!(
            e,
            Effect::SendTo { conn_id: 4, msg: WsMessage::WelcomeInfo { .. } }
        )),
        "the rejoin is welcomed"
    );
    assert_eq!(room.stats.current_users, 2);
}

#[test]
fn join_storm_debounce_single_broadcast() {
    let mut room = room_with_admins(&["a"]);
    let mut timer_arms = 0;
    for k in 0..50u128 {
        let eff = room.user_joined(100 + k, format!("u{}", k), format!("u{}", k), ROOM, 100);
        timer_arms += eff
            .iter()
            .filter(|e| matches!(e, Effect::StartJoinNotifyTimer))
            .count();
    }
    assert_eq!(timer_arms, 1, "a burst of joins arms the timer once");
    assert_eq!(room.stats.current_users, 50);

    let eff = room.join_notify_fire();
    assert_eq!(
        eff,
        vec![Effect::Broadcast {
            msg: WsMessage::RoomStats { current_users: 50, peak_users: 50 },
        }]
    );

    // A second fire in the same quiet window broadcasts nothing.
    let eff = room.join_notify_fire();
    assert!(eff.is_empty());
}

#[test]
fn user_left_closes_session_with_join_instant() {
    let mut room = room_with_admins(&["a"]);
    room.user_joined(1, s("b"), s("b"), ROOM, 12345);
    let eff = room.user_left(1, ROOM);
    assert_eq!(
        eff,
        vec![Effect::DbWrite {
            cmd: DbWriteCommand::UserLeft {
                user_id: s("b"),
                nickname: s("b"),
                room_id: ROOM,
                join_time: 12345,
            }
        }]
    );
    assert_eq!(room.stats.current_users, 0);
    assert_eq!(room.stats.peak_users, 1, "the peak stays after the user left");

    // An unknown connection id is a no-op.
    let eff = room.user_left(99, ROOM);
    assert!(eff.is_empty());
}

#[test]
fn custom_event_is_admin_only_and_broadcast_unchanged() {
    let mut room = room_with_admins(&["a"]);
    room.user_joined(1, s("a"), s("a"), ROOM, 100);
    room.user_joined(2, s("b"), s("b"), ROOM, 101);

    let eff = room.custom_event(2, s("poll"), s("{\"q\":1}"));
    assert!(eff.is_empty(), "non-admin custom events are dropped");

    let eff = room.custom_event(1, s("poll"), s("{\"q\":1}"));
    assert_eq!(
        eff,
        vec![Effect::Broadcast {
            msg: WsMessage::CustomEvent { event_type: s("poll"), payload: s("{\"q\":1}") },
        }]
    );
}

#[test]
fn handle_message_dispatches_send() {
    let mut room = room_with_admins(&["a"]);
    room.user_joined(1, s("b"), s("b"), ROOM, 100);
    let msg = InternalMessage {
        conn_id: 1,
        user_id: s("b"),
        nickname: s("b"),
        room_id: ROOM,
        content: WsMessage::SendMessage { content: s("hello") },
    };
    let eff = room.handle_message(msg, 1000, 100, 5);
    assert_eq!(eff.len(), 2);

    // An outbound-only frame is a no-op for the actor.
    let msg = InternalMessage {
        conn_id: 1,
        user_id: s("b"),
        nickname: s("b"),
        room_id: ROOM,
        content: WsMessage::Pong { timestamp: 1 },
    };
    let eff = room.handle_message(msg, 1000, 100, 5);
    assert!(eff.is_empty());
}

#[test]
fn handle_message_now_reads_the_wall_clock() {
    // With a zero interval the rate limit never rejects, whatever the clock
    // reads; two back-to-back messages both go through.
    let mut room = room_with_admins(&["a"]);
    room.user_joined(1, s("b"), s("b"), ROOM, 100);
    for _ in 0..2 {
        let msg = InternalMessage {
            conn_id: 1,
            user_id: s("b"),
            nickname: s("b"),
            room_id: ROOM,
            content: WsMessage::SendMessage { content: s("hi") },
        };
        let eff = room.handle_message_now(msg, 100, 0);
        assert_eq!(eff.len(), 2);
    }
}

#[test]
fn details_snapshot_carries_stats_and_admins() {
    let mut room = room_with_admins(&["a"]);
    room.user_joined(1, s("a"), s("a"), ROOM, 100);
    let d = room.details(ROOM, s("lobby"), 500);
    assert_eq!(d.room_id, ROOM);
    assert_eq!(d.room_name, "lobby");
    assert_eq!(d.admin_user_ids, vec![s("a")]);
    assert_eq!(d.start_time, 500);
    assert_eq!(d.stats.current_users, 1);
    assert_eq!(d.stats.total_joins, 1);
}

#[test]
fn shutdown_broadcasts_final_stats() {
    let room = room_with_admins(&[]);
    let eff = room.shutdown_effects();
    assert_eq!(
        eff,
        vec![Effect::Broadcast {
            msg: WsMessage::RoomStats { current_users: 0, peak_users: 0 },
        }]
    );
}
