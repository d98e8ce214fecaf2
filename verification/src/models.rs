//! The message and record types the server's components exchange: wire
//! frames, the room actor's inbound and control messages, persistence
//! commands, statistics and the management-surface payloads.

use vstd::prelude::*;
use crate::userset::UserSet;

verus! {

/// A wire frame, inbound or outbound. Custom event payloads are carried as
/// raw JSON text; the socket layer is responsible for the outward encoding.
#[derive(Clone, Debug, PartialEq)]
pub enum WsMessage {
    SendMessage { content: String },
    KickUser { user_id: String },
    MuteUser { user_id: String },
    Message { from: String, nickname: String, content: String, is_admin: bool },
    UserJoined { user_id: String, nickname: String },
    UserLeft { user_id: String, nickname: String },
    YouAreKicked,
    YouAreMuted,
    UserMuted { user_id: String },
    Error { message: String },
    System { message: String },
    WelcomeInfo { user_id: String, nickname: String, is_muted: bool },
    RoomStats { current_users: u32, peak_users: u32 },
    CustomEvent { event_type: String, payload: String },
    Ping { timestamp: i64 },
    Pong { timestamp: i64 },
}

/// A frame forwarded from a socket to its room's actor.
#[derive(Debug, PartialEq)]
pub struct InternalMessage {
    pub conn_id: u128,
    pub user_id: String,
    pub nickname: String,
    pub room_id: u128,
    pub content: WsMessage,
}

/// A management-surface order to a room's actor.
#[derive(Debug, PartialEq)]
pub enum ControlMessage {
    ResetAdmins(UserSet),
    UnbanUser(String),
}

/// A write handed to the room's persistence writer.
#[derive(Clone, Debug, PartialEq)]
pub enum DbWriteCommand {
    UserJoined { user_id: String, nickname: String, room_id: u128 },
    UserLeft { user_id: String, nickname: String, room_id: u128, join_time: u64 },
    ChatMessage { user_id: String, nickname: String, room_id: u128, content: String },
    BanUser { user_id: String, room_id: u128 },
    UnbanUser { user_id: String, room_id: u128 },
}

/// What the room actor asks its surroundings to do after handling one
/// message. The actor never performs I/O itself; it returns these in order.
#[derive(Clone, Debug, PartialEq)]
pub enum Effect {
    /// Push one frame to one connection's outbound channel.
    SendTo { conn_id: u128, msg: WsMessage },
    /// Push one frame to every connection's outbound channel.
    Broadcast { msg: WsMessage },
    /// Enqueue one command on the persistence writer.
    DbWrite { cmd: DbWriteCommand },
    /// Arm the one-second join-notify timer.
    StartJoinNotifyTimer,
}

/// Running statistics of one room.
#[derive(Clone, Copy, Debug, PartialEq)]
pub struct RoomStats {
    pub current_users: u32,
    pub peak_users: u32,
    pub total_joins: u64,
}

impl RoomStats {
    pub fn new() -> (r: RoomStats)
        ensures
            r == (RoomStats { current_users: 0u32, peak_users: 0u32, total_joins: 0u64 }),
    {
        RoomStats { current_users: 0, peak_users: 0, total_joins: 0 }
    }
}

/// Body of the management request that creates a room.
#[derive(Debug)]
pub struct CreateRoomRequest {
    pub room_name: String,
    pub admin_user_ids: Vec<String>,
}

/// Reply to a room creation: the fresh id and the socket path to join it.
#[derive(Debug)]
pub struct CreateRoomResponse {
    pub room_id: u128,
    pub websocket_url: String,
}

/// Body of the management request that replaces a room's admin set.
#[derive(Debug)]
pub struct ResetAdminsRequest {
    pub admin_user_ids: Vec<String>,
}

/// The query string a client joins with: the caller-supplied, unverified
/// user identity.
#[derive(Debug)]
pub struct WsConnectQuery {
    pub user_id: String,
}

/// A live room snapshot served by the management surface.
#[derive(Debug)]
pub struct RoomDetailsResponse {
    pub room_id: u128,
    pub room_name: String,
    pub admin_user_ids: Vec<String>,
    pub start_time: i64,
    pub stats: RoomStats,
}

/// Basic durable information about a room, joined with the live connection
/// count.
#[derive(Debug)]
pub struct RoomBasicInfo {
    pub room_id: u128,
    pub room_name: String,
    pub admin_user_ids: Vec<String>,
    pub current_connections: u32,
    pub created_at: i64,
    pub last_activity: i64,
}

/// One persisted chat message.
#[derive(Clone, Debug, PartialEq)]
pub struct ChatHistoryEntry {
    pub user_id: String,
    pub nickname: String,
    pub content: String,
    pub created_at: i64,
}

/// One closed presence session.
#[derive(Clone, Debug, PartialEq)]
pub struct SessionHistoryEntry {
    pub user_id: String,
    pub nickname: String,
    pub join_time: i64,
    pub leave_time: i64,
    pub duration_seconds: i64,
}

/// A room's durable identity row.
#[derive(Clone, Debug)]
pub struct RoomInfo {
    pub id: String,
    pub created_at: i64,
}

/// An event posted to a configured webhook.
#[derive(Debug)]
pub enum CallbackEvent {
    RoomCreated { room_id: u128, room_name: String, admin_ids: Vec<String>, timestamp: i64 },
    RoomClosed { room_id: u128, final_stats: RoomStats, timestamp: i64 },
    UserJoined { room_id: u128, user_id: String, timestamp: i64 },
    UserLeft { room_id: u128, user_id: String, duration: i64, timestamp: i64 },
    ChatHistoryBatch {
        room_id: u128,
        messages: Vec<ChatHistoryEntry>,
        batch_id: String,
        is_last_batch: bool,
        timestamp: i64,
    },
    SessionHistoryBatch {
        room_id: u128,
        sessions: Vec<SessionHistoryEntry>,
        batch_id: String,
        is_last_batch: bool,
        timestamp: i64,
    },
    PeriodicSync { room_id: u128, room_info: RoomBasicInfo, last_sync_time: i64 },
}

/// The combined room dump posted to the legacy data-callback URL.
#[derive(Debug)]
pub struct DataSyncPayload {
    pub room_id: u128,
    pub admin_user_ids: Vec<String>,
    pub start_time: i64,
    pub stats: RoomStats,
    pub chat_history: Vec<ChatHistoryEntry>,
    pub session_history: Vec<SessionHistoryEntry>,
}

} // verus!
