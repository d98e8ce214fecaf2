//! Assembly of the outward sync payloads: a room's live snapshot joined with
//! its durable histories. Querying the actor and the database, and posting
//! the result, happen outside; the shapes are fixed here.

use vstd::prelude::*;
use crate::models::{
    ChatHistoryEntry, DataSyncPayload, RoomBasicInfo, RoomDetailsResponse, SessionHistoryEntry,
};

verus! {

/// Joins a room's live snapshot with its full histories into the combined
/// payload posted to the legacy data-callback URL.
pub fn assemble_sync_payload(
    details: RoomDetailsResponse,
    chat_history: Vec<ChatHistoryEntry>,
    session_history: Vec<SessionHistoryEntry>,
) -> (p: DataSyncPayload)
    ensures
        p.room_id == details.room_id,
        p.admin_user_ids == details.admin_user_ids,
        p.start_time == details.start_time,
        p.stats == details.stats,
        p.chat_history == chat_history,
        p.session_history == session_history,
{
    DataSyncPayload {
        room_id: details.room_id,
        admin_user_ids: details.admin_user_ids,
        start_time: details.start_time,
        stats: details.stats,
        chat_history,
        session_history,
    }
}

/// A room's basic durable information: the last activity defaults to the
/// creation instant when the room has no chat history yet, and the live
/// connection count is filled in separately from the actor's snapshot.
pub fn room_basic_info(
    room_id: u128,
    room_name: String,
    admin_user_ids: Vec<String>,
    created_at: i64,
    last_chat_at: Option<i64>,
) -> (r: RoomBasicInfo)
    ensures
        r.room_id == room_id,
        r.room_name == room_name,
        r.admin_user_ids == admin_user_ids,
        r.created_at == created_at,
        r.current_connections == 0,
        r.last_activity == match last_chat_at {
            Option::Some(t) => t,
            Option::None => created_at,
        },
{
    let last_activity = match last_chat_at {
        Option::Some(t) => t,
        Option::None => created_at,
    };
    RoomBasicInfo {
        room_id,
        room_name,
        admin_user_ids,
        current_connections: 0,
        created_at,
        last_activity,
    }
}

} // verus!
