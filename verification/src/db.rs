//! The write-behind persistence pipeline's semantics.
//!
//! A room's writer consumes `DbWriteCommand`s, coalesces them into bounded
//! batches, and applies each batch in one transaction. `RoomTables` is the
//! row-level meaning of those commands for one room: what each command does
//! to the chat-history, session and ban tables. The surrounding task owns
//! the channel and the database handle; the batching rule and the row
//! semantics live here.

use vstd::prelude::*;
use crate::models::{ChatHistoryEntry, DbWriteCommand, Effect, WsMessage};
use crate::room::{message_step, Room};
use crate::userset::UserSet;

verus! {

/// A batch holds at most this many commands.
pub const MAX_BATCH: usize = 100;

/// One session row: `leave_time` stays empty while the session is live.
#[derive(Clone, Debug, PartialEq)]
pub struct SessionRow {
    pub user_id: String,
    pub nickname: String,
    pub join_time: i64,
    pub leave_time: Option<i64>,
    pub duration_seconds: Option<i64>,
}

/// One room's durable tables, as the write commands see them.
#[derive(Debug)]
pub struct RoomTables {
    pub chat: Vec<ChatHistoryEntry>,
    pub sessions: Vec<SessionRow>,
    pub bans: UserSet,
}

/// Whether row `i` is a still-open session of `u`.
pub open spec fn open_session_at(s: Seq<SessionRow>, u: Seq<char>, i: int) -> bool {
    0 <= i < s.len() && s[i].user_id@ == u && s[i].leave_time is None
}

pub open spec fn has_open_session(s: Seq<SessionRow>, u: Seq<char>) -> bool {
    exists|i: int| open_session_at(s, u, i)
}

/// Row `i` is the newest still-open session of `u`.
pub open spec fn newest_open_at(s: Seq<SessionRow>, u: Seq<char>, i: int) -> bool {
    open_session_at(s, u, i) && forall|j: int| i < j < s.len() ==> !open_session_at(s, u, j)
}

pub open spec fn newest_open_idx(s: Seq<SessionRow>, u: Seq<char>) -> int {
    choose|i: int| newest_open_at(s, u, i)
}

impl RoomTables {
    pub fn new() -> (t: RoomTables)
        ensures
            t.bans.wf(),
            t.chat@.len() == 0,
            t.sessions@.len() == 0,
            t.bans@ == Set::<Seq<char>>::empty(),
    {
        RoomTables { chat: Vec::new(), sessions: Vec::new(), bans: UserSet::new() }
    }

    /// Index of the newest still-open session of `u`, scanning from the end.
    fn find_newest_open(&self, u: &String) -> (r: Option<usize>)
        ensures
            r is Some <==> has_open_session(self.sessions@, u@),
            r matches Some(i) ==> newest_open_at(self.sessions@, u@, i as int),
    {
        let mut k: usize = self.sessions.len();
        while k > 0
            invariant
                k <= self.sessions.len(),
                forall|j: int|
                    k <= j < self.sessions@.len() ==> !open_session_at(self.sessions@, u@, j),
            decreases k,
        {
            k = k - 1;
            let row = &self.sessions[k];
            if row.leave_time.is_none() && row.user_id.eq(u) {
                proof {
                    assert(open_session_at(self.sessions@, u@, k as int));
                }
                return Some(k);
            }
        }
        None
    }

    /// Applies one write command, at wall-clock second `now` and monotonic
    /// second `now_mono`:
    /// a join opens a session row; a leave closes the newest open session of
    /// that user with the duration measured on the monotonic clock (and is a
    /// no-op when none is open); a chat message appends a history row; a ban
    /// inserts into the ban table, ignoring duplicates; an unban deletes.
    pub fn apply_command(&mut self, cmd: &DbWriteCommand, now: i64, now_mono: u64)
        requires
            old(self).bans.wf(),
            *cmd matches DbWriteCommand::UserLeft { join_time, .. } ==> join_time <= now_mono
                && now_mono - join_time <= i64::MAX,
        ensures
            final (self).bans.wf(),
            *cmd matches DbWriteCommand::UserJoined { user_id, nickname, .. } ==> {
                &&& final (self).sessions@ == old(self).sessions@.push(
                    SessionRow {
                        user_id,
                        nickname,
                        join_time: now,
                        leave_time: None,
                        duration_seconds: None,
                    },
                )
                &&& final (self).chat == old(self).chat
                &&& final (self).bans == old(self).bans
            },
            *cmd matches DbWriteCommand::UserLeft { user_id, join_time, .. } ==> {
                &&& final (self).chat == old(self).chat
                &&& final (self).bans == old(self).bans
                &&& if has_open_session(old(self).sessions@, user_id@) {
                    let i = newest_open_idx(old(self).sessions@, user_id@);
                    final (self).sessions@ == old(self).sessions@.update(
                        i,
                        SessionRow {
                            user_id: old(self).sessions@[i].user_id,
                            nickname: old(self).sessions@[i].nickname,
                            join_time: old(self).sessions@[i].join_time,
                            leave_time: Some(now),
                            duration_seconds: Some((now_mono - join_time) as i64),
                        },
                    )
                } else {
                    final (self).sessions == old(self).sessions
                }
            },
            *cmd matches DbWriteCommand::ChatMessage { user_id, nickname, content, .. } ==> {
                &&& final (self).chat@ == old(self).chat@.push(
                    ChatHistoryEntry { user_id, nickname, content, created_at: now },
                )
                &&& final (self).sessions == old(self).sessions
                &&& final (self).bans == old(self).bans
            },
            *cmd matches DbWriteCommand::BanUser { user_id, .. } ==> {
                &&& final (self).bans@ == old(self).bans@.insert(user_id@)
                &&& final (self).chat == old(self).chat
                &&& final (self).sessions == old(self).sessions
            },
            *cmd matches DbWriteCommand::UnbanUser { user_id, .. } ==> {
                &&& final (self).bans@ == old(self).bans@.remove(user_id@)
                &&& final (self).chat == old(self).chat
                &&& final (self).sessions == old(self).sessions
            },
    {
        match cmd {
            DbWriteCommand::UserJoined { user_id, nickname, .. } => {
                self.sessions.push(
                    SessionRow {
                        user_id: user_id.clone(),
                        nickname: nickname.clone(),
                        join_time: now,
                        leave_time: None,
                        duration_seconds: None,
                    },
                );
            },
            DbWriteCommand::UserLeft { user_id, join_time, .. } => {
                match self.find_newest_open(user_id) {
                    Some(k) => {
                        let row = &self.sessions[k];
                        let updated = SessionRow {
                            user_id: row.user_id.clone(),
                            nickname: row.nickname.clone(),
                            join_time: row.join_time,
                            leave_time: Some(now),
                            duration_seconds: Some((now_mono - *join_time) as i64),
                        };
                        self.sessions.set(k, updated);
                        proof {
                            let s0 = old(self).sessions@;
                            let uv = user_id@;
                            assert(newest_open_at(s0, uv, k as int));
                            let i = newest_open_idx(s0, uv);
                            assert(newest_open_at(s0, uv, i)) by {
                                assert(newest_open_at(s0, uv, k as int));
                            }
                            if i < k as int {
                                assert(!open_session_at(s0, uv, k as int));
                                assert(false);
                            }
                            if i > k as int {
                                assert(!open_session_at(s0, uv, i));
                                assert(false);
                            }
                            assert(i == k as int);
                        }
                    },
                    None => {},
                }
            },
            DbWriteCommand::ChatMessage { user_id, nickname, content, .. } => {
                self.chat.push(
                    ChatHistoryEntry {
                        user_id: user_id.clone(),
                        nickname: nickname.clone(),
                        content: content.clone(),
                        created_at: now,
                    },
                );
            },
            DbWriteCommand::BanUser { user_id, .. } => {
                self.bans.insert(user_id.clone());
            },
            DbWriteCommand::UnbanUser { user_id, .. } => {
                self.bans.remove(user_id);
            },
        }
    }
}

/// The chat rows a command sequence inserts, in order, all stamped `now`.
pub open spec fn chat_rows_of(cmds: Seq<DbWriteCommand>, now: i64) -> Seq<ChatHistoryEntry>
    decreases cmds.len(),
{
    if cmds.len() == 0 {
        Seq::empty()
    } else {
        let rest = chat_rows_of(cmds.drop_first(), now);
        match cmds.first() {
            DbWriteCommand::ChatMessage { user_id, nickname, content, .. } => seq![
                ChatHistoryEntry { user_id, nickname, content, created_at: now },
            ] + rest,
            _ => rest,
        }
    }
}

/// The write commands among a transition's effects, in emission order.
pub open spec fn dbwrites_of(eff: Seq<Effect>) -> Seq<DbWriteCommand>
    decreases eff.len(),
{
    if eff.len() == 0 {
        Seq::empty()
    } else {
        let rest = dbwrites_of(eff.drop_first());
        match eff.first() {
            Effect::DbWrite { cmd } => seq![cmd] + rest,
            _ => rest,
        }
    }
}

/// Splits off the next batch: the first `MAX_BATCH` pending commands (all of
/// them when fewer are pending), in arrival order, leaving the rest pending.
pub fn take_batch(pending: &mut Vec<DbWriteCommand>) -> (batch: Vec<DbWriteCommand>)
    ensures
        batch@.len() == if old(pending)@.len() < MAX_BATCH {
            old(pending)@.len()
        } else {
            MAX_BATCH as nat
        },
        batch@ == old(pending)@.take(batch@.len() as int),
        final (pending)@ == old(pending)@.skip(batch@.len() as int),
{
    let mut batch: Vec<DbWriteCommand> = Vec::new();
    while batch.len() < MAX_BATCH && pending.len() > 0
        invariant
            batch@.len() <= MAX_BATCH,
            batch@ + pending@ == old(pending)@,
        decreases pending@.len(),
    {
        let cmd = pending.remove(0);
        batch.push(cmd);
        proof {
            assert(batch@ + pending@ =~= old(pending)@);
        }
    }
    proof {
        assert(batch@ =~= old(pending)@.take(batch@.len() as int));
        assert(pending@ =~= old(pending)@.skip(batch@.len() as int));
    }
    batch
}

/// An accepted chat message is broadcast and persisted with identical
/// fields: the transition emits exactly one write command — a chat insert —
/// and applying the emitted writes stamps exactly one history row whose
/// user and content match the broadcast `Message` frame.
pub proof fn lemma_chat_message_persisted(
    pre: Room,
    post: Room,
    conn_id: u128,
    user_id: String,
    nickname: String,
    room_id: u128,
    content: String,
    now: i64,
    min_interval: i64,
    eff: Seq<Effect>,
    db_now: i64,
)
    requires
        message_step(
            pre,
            post,
            conn_id,
            user_id,
            nickname,
            room_id,
            content,
            now,
            min_interval,
            eff,
        ),
        pre.has_conn(conn_id),
        !pre.muted@.contains(user_id@),
        pre.connections@[pre.conn_idx(conn_id)].is_admin || now - pre.last_message_at.time_of(
            user_id@,
        ) >= min_interval,
    ensures
        eff.len() == 2,
        eff[1] == (Effect::Broadcast {
            msg: WsMessage::Message {
                from: user_id,
                nickname,
                content,
                is_admin: pre.connections@[pre.conn_idx(conn_id)].is_admin,
            },
        }),
        chat_rows_of(dbwrites_of(eff), db_now) == seq![
            ChatHistoryEntry { user_id, nickname, content, created_at: db_now },
        ],
{
    let tail = eff.drop_first();
    assert(tail.len() == 1);
    assert(tail.first() == eff[1]);
    assert(tail.drop_first().len() == 0);
    assert(dbwrites_of(tail.drop_first()) =~= Seq::<DbWriteCommand>::empty());
    assert(dbwrites_of(tail) =~= Seq::<DbWriteCommand>::empty());
    let cmd = DbWriteCommand::ChatMessage { user_id, nickname, room_id, content };
    assert(eff.first() == (Effect::DbWrite { cmd }));
    assert(dbwrites_of(eff) =~= seq![cmd]);
    let cs = dbwrites_of(eff);
    assert(cs.drop_first().len() == 0);
    assert(chat_rows_of(cs.drop_first(), db_now) =~= Seq::<ChatHistoryEntry>::empty());
    assert(chat_rows_of(cs, db_now) =~= seq![
        ChatHistoryEntry { user_id, nickname, content, created_at: db_now },
    ]);
}

} // verus!
