//! The write-behind pipeline: batch coalescing and the row semantics of
//! each write command.

use chat_server::db::{take_batch, RoomTables};
use chat_server::models::DbWriteCommand;

fn s(x: &str) -> String {
    x.to_string()
}

const ROOM: u128 = 7;

fn join_cmd(u: &str) -> DbWriteCommand {
    DbWriteCommand::UserJoined { user_id: s(u), nickname: s(u), room_id: ROOM }
}

fn chat_cmd(u: &str, text: &str) -> DbWriteCommand {
    DbWriteCommand::ChatMessage {
        user_id: s(u),
        nickname: s(u),
        room_id: ROOM,
        content: s(text),
    }
}

#[test]
fn join_opens_session_row() {
    let mut t = RoomTables::new();
    t.apply_command(&join_cmd("b"), 1000, 0);
    assert_eq!(t.sessions.len(), 1);
    assert_eq!(t.sessions[0].user_id, "b");
    assert_eq!(t.sessions[0].join_time, 1000);
    assert_eq!(t.sessions[0].leave_time, None);
    assert_eq!(t.sessions[0].duration_seconds, None);
}

#[test]
fn leave_closes_newest_open_session_with_duration() {
    let mut t = RoomTables::new();
    t.apply_command(&join_cmd("b"), 1000, 10);
    let leave = DbWriteCommand::UserLeft {
        user_id: s("b"),
        nickname: s("b"),
        room_id: ROOM,
        join_time: 10,
    };
    t.apply_command(&leave, 1025, 25);
    assert_eq!(t.sessions.len(), 1);
    assert_eq!(t.sessions[0].leave_time, Some(1025));
    assert_eq!(t.sessions[0].duration_seconds, Some(15));

    // A late duplicate finds no open session and changes nothing.
    let before = t.sessions.clone();
    t.apply_command(&leave, 1030, 30);
    assert_eq!(t.sessions, before);
}

#[test]
fn leave_pairs_with_the_newest_open_row() {
    let mut t = RoomTables::new();
    t.apply_command(&join_cmd("c"), 1000, 10);
    t.apply_command(&join_cmd("c"), 1001, 11);
    let leave = DbWriteCommand::UserLeft {
        user_id: s("c"),
        nickname: s("c"),
        room_id: ROOM,
        join_time: 11,
    };
    t.apply_command(&leave, 1050, 60);
    assert_eq!(t.sessions[0].leave_time, None, "the older row stays open");
    assert_eq!(t.sessions[1].leave_time, Some(1050));
    assert_eq!(t.sessions[1].duration_seconds, Some(49));
}

#[test]
fn chat_message_appends_row() {
    let mut t = RoomTables::new();
    t.apply_command(&chat_cmd("b", "hi"), 1000, 0);
    t.apply_command(&chat_cmd("a", "yo"), 1001, 0);
    assert_eq!(t.chat.len(), 2);
    assert_eq!(t.chat[0].user_id, "b");
    assert_eq!(t.chat[0].content, "hi");
    assert_eq!(t.chat[0].created_at, 1000);
    assert_eq!(t.chat[1].user_id, "a");
}

#[test]
fn ban_is_idempotent_and_unban_deletes() {
    let mut t = RoomTables::new();
    let ban = DbWriteCommand::BanUser { user_id: s("b"), room_id: ROOM };
    t.apply_command(&ban, 1000, 0);
    t.apply_command(&ban, 1001, 0);
    assert_eq!(t.bans.items, vec![s("b")], "insert-or-ignore keeps one row");

    let unban = DbWriteCommand::UnbanUser { user_id: s("b"), room_id: ROOM };
    t.apply_command(&unban, 1002, 0);
    assert!(t.bans.items.is_empty());
}

#[test]
fn take_batch_caps_at_one_hundred_in_order() {
    let mut pending: Vec<DbWriteCommand> = (0..250)
        .map(|k| chat_cmd("u", &format!("m{}", k)))
        .collect();
    let all = pending.clone();

    let b1 = take_batch(&mut pending);
    let b2 = take_batch(&mut pending);
    let b3 = take_batch(&mut pending);
    let b4 = take_batch(&mut pending);
    assert_eq!(b1.len(), 100);
    assert_eq!(b2.len(), 100);
    assert_eq!(b3.len(), 50);
    assert!(b4.is_empty());
    assert!(pending.is_empty());

    let rejoined: Vec<DbWriteCommand> =
        b1.into_iter().chain(b2).chain(b3).collect();
    assert_eq!(rejoined, all, "batches keep arrival order and lose nothing");
}
