//! The room actor's state and its message semantics.
//!
//! A room's live state — connections, admin/ban/mute sets, statistics, the
//! per-user rate-limit clock and the join-notify debounce flags — is owned by
//! one actor. Each inbound message is applied by a verified transition that
//! returns the effects (frames to push, rows to write, a timer to arm) for
//! the surrounding loop to perform. The step predicates below state each
//! transition exactly; the laws at the end are proved from them.

use vstd::prelude::*;
use crate::ids::dec_seq;
use crate::models::{DbWriteCommand, ControlMessage, Effect, InternalMessage, RoomDetailsResponse, RoomStats, WsMessage};
use crate::userset::{SendTimes, UserSet};

verus! {

/// One live connection as the actor sees it: the admin flag is a snapshot
/// taken at join time, and the join instant comes from the monotonic clock.
pub struct ConnEntry {
    pub conn_id: u128,
    pub user_id: String,
    pub nickname: String,
    pub is_admin: bool,
    pub join_instant: u64,
}

/// The state a room's actor owns.
pub struct Room {
    pub connections: Vec<ConnEntry>,
    pub admins: UserSet,
    pub banned: UserSet,
    pub muted: UserSet,
    pub stats: RoomStats,
    pub last_message_at: SendTimes,
    pub pending_join_notify: bool,
    pub join_notify_timer_active: bool,
}

/// The notice a banned user gets when trying to join again.
pub open spec fn ban_reject_text() -> Seq<char> {
    "你已被踢出该房间，无法再次加入"@
}

/// The notice a rate-limited sender gets, naming the seconds left to wait.
pub open spec fn rate_limit_text(remaining: int) -> Seq<char> {
    "发送过于频繁，请"@ + dec_seq(remaining) + "秒后再试"@
}

impl Room {
    pub open spec fn has_conn(self, cid: u128) -> bool {
        exists|i: int| 0 <= i < self.connections@.len() && self.connections@[i].conn_id == cid
    }

    pub open spec fn conn_idx(self, cid: u128) -> int {
        choose|i: int| 0 <= i < self.connections@.len() && self.connections@[i].conn_id == cid
    }

    pub open spec fn has_user(self, u: Seq<char>) -> bool {
        exists|i: int| 0 <= i < self.connections@.len() && self.connections@[i].user_id@ == u
    }

    pub open spec fn user_idx(self, u: Seq<char>) -> int {
        choose|i: int| 0 <= i < self.connections@.len() && self.connections@[i].user_id@ == u
    }

    /// Whether `cid` is a live connection whose admin snapshot is set.
    pub open spec fn is_admin_conn(self, cid: u128) -> bool {
        self.has_conn(cid) && self.connections@[self.conn_idx(cid)].is_admin
    }

    /// A join by `u` is accepted exactly when `u` is not banned.
    pub open spec fn join_allowed(self, u: Seq<char>) -> bool {
        !self.banned@.contains(u)
    }

    /// Well-formedness: what every reachable room state satisfies.
    /// Connection and user ids are unique, the current-user count equals the
    /// number of connections, the peak never falls below it, and no banned
    /// user is connected.
    pub open spec fn wf(self) -> bool {
        &&& self.admins.wf()
        &&& self.banned.wf()
        &&& self.muted.wf()
        &&& self.last_message_at.wf()
        &&& forall|i: int, j: int|
            0 <= i < j < self.connections@.len() ==> self.connections@[i].conn_id
                != self.connections@[j].conn_id
        &&& forall|i: int, j: int|
            0 <= i < j < self.connections@.len() ==> self.connections@[i].user_id@
                != self.connections@[j].user_id@
        &&& self.stats.current_users == self.connections@.len()
        &&& self.stats.peak_users >= self.stats.current_users
        &&& forall|i: int|
            0 <= i < self.connections@.len() ==> !self.banned@.contains(
                self.connections@[i].user_id@,
            )
    }

    /// A fresh room loaded with its durable admin and ban sets.
    pub fn new(admins: UserSet, banned: UserSet) -> (r: Room)
        requires
            admins.wf(),
            banned.wf(),
        ensures
            r.wf(),
            r.connections@.len() == 0,
            r.admins == admins,
            r.banned == banned,
            r.muted@ == Set::<Seq<char>>::empty(),
            r.stats == (RoomStats { current_users: 0u32, peak_users: 0u32, total_joins: 0u64 }),
            forall|u: Seq<char>| r.last_message_at.time_of(u) == 0i64,
            !r.pending_join_notify,
            !r.join_notify_timer_active,
    {
        Room {
            connections: Vec::new(),
            admins,
            banned,
            muted: UserSet::new(),
            stats: RoomStats::new(),
            last_message_at: SendTimes::new(),
            pending_join_notify: false,
            join_notify_timer_active: false,
        }
    }
}

/// Everything but the named parts is carried over unchanged.
pub open spec fn same_sets(pre: Room, post: Room) -> bool {
    &&& post.admins == pre.admins
    &&& post.banned == pre.banned
    &&& post.muted == pre.muted
}

pub open spec fn same_debounce(pre: Room, post: Room) -> bool {
    &&& post.pending_join_notify == pre.pending_join_notify
    &&& post.join_notify_timer_active == pre.join_notify_timer_active
}

/// The transition a `UserJoined` message makes, relating the state before
/// and after and pinning the emitted effects. A displaced stale session is
/// both notified and closed, so at most one session row per user stays
/// open.
pub open spec fn joined_step(
    pre: Room,
    post: Room,
    conn_id: u128,
    user_id: String,
    nickname: String,
    room_id: u128,
    join_instant: u64,
    eff: Seq<Effect>,
) -> bool {
    if !pre.join_allowed(user_id@) {
        &&& post == pre
        &&& eff.len() == 1
        &&& eff[0] matches Effect::SendTo { conn_id: c, msg: WsMessage::Error { message } }
            && c == conn_id && message@ == ban_reject_text()
    } else {
        let was_here = pre.has_user(user_id@);
        let base = if was_here {
            pre.connections@.remove(pre.user_idx(user_id@))
        } else {
            pre.connections@
        };
        let entry = ConnEntry {
            conn_id,
            user_id,
            nickname,
            is_admin: pre.admins@.contains(user_id@),
            join_instant,
        };
        let stale = pre.connections@[pre.user_idx(user_id@)];
        let displaced: Seq<Effect> = if was_here {
            seq![
                Effect::SendTo { conn_id: stale.conn_id, msg: WsMessage::YouAreKicked },
                Effect::DbWrite {
                    cmd: DbWriteCommand::UserLeft {
                        user_id: stale.user_id,
                        nickname: stale.nickname,
                        room_id,
                        join_time: stale.join_instant,
                    },
                },
            ]
        } else {
            Seq::empty()
        };
        let welcome = Effect::SendTo {
            conn_id,
            msg: WsMessage::WelcomeInfo {
                user_id: entry.user_id,
                nickname: entry.nickname,
                is_muted: pre.muted@.contains(entry.user_id@),
            },
        };
        let dbjoin = Effect::DbWrite {
            cmd: DbWriteCommand::UserJoined {
                user_id: entry.user_id,
                nickname: entry.nickname,
                room_id,
            },
        };
        let timer: Seq<Effect> = if pre.join_notify_timer_active {
            Seq::empty()
        } else {
            seq![Effect::StartJoinNotifyTimer]
        };
        &&& post.connections@ == base.push(entry)
        &&& same_sets(pre, post)
        &&& post.last_message_at == pre.last_message_at
        &&& post.pending_join_notify
        &&& post.join_notify_timer_active
        &&& post.stats.total_joins == pre.stats.total_joins + 1
        &&& post.stats.current_users == base.len() + 1
        &&& post.stats.peak_users == if post.stats.current_users > pre.stats.peak_users {
            post.stats.current_users as u32
        } else {
            pre.stats.peak_users
        }
        &&& eff == displaced + seq![welcome, dbjoin] + timer
    }
}

/// The transition a `UserLeft` message makes.
pub open spec fn left_step(
    pre: Room,
    post: Room,
    conn_id: u128,
    room_id: u128,
    eff: Seq<Effect>,
) -> bool {
    if !pre.has_conn(conn_id) {
        &&& post == pre
        &&& eff == Seq::<Effect>::empty()
    } else {
        let i = pre.conn_idx(conn_id);
        let entry = pre.connections@[i];
        &&& post.connections@ == pre.connections@.remove(i)
        &&& same_sets(pre, post)
        &&& same_debounce(pre, post)
        &&& post.last_message_at == pre.last_message_at
        &&& post.stats.current_users == pre.stats.current_users - 1
        &&& post.stats.peak_users == pre.stats.peak_users
        &&& post.stats.total_joins == pre.stats.total_joins
        &&& eff == seq![
            Effect::DbWrite {
                cmd: DbWriteCommand::UserLeft {
                    user_id: entry.user_id,
                    nickname: entry.nickname,
                    room_id,
                    join_time: entry.join_instant,
                },
            },
        ]
    }
}

/// The transition a `SendMessage` frame makes: muted senders are refused,
/// non-admins are rate limited, accepted messages are persisted and
/// broadcast with identical fields.
pub open spec fn message_step(
    pre: Room,
    post: Room,
    conn_id: u128,
    user_id: String,
    nickname: String,
    room_id: u128,
    content: String,
    now: i64,
    min_interval: i64,
    eff: Seq<Effect>,
) -> bool {
    if !pre.has_conn(conn_id) {
        &&& post == pre
        &&& eff == Seq::<Effect>::empty()
    } else if pre.muted@.contains(user_id@) {
        &&& post == pre
        &&& eff == seq![Effect::SendTo { conn_id, msg: WsMessage::YouAreMuted }]
    } else {
        let is_admin = pre.connections@[pre.conn_idx(conn_id)].is_admin;
        let last = pre.last_message_at.time_of(user_id@);
        if !is_admin && now - last < min_interval {
            &&& post == pre
            &&& eff.len() == 1
            &&& eff[0] matches Effect::SendTo { conn_id: c, msg: WsMessage::Error { message } }
                && c == conn_id && message@ == rate_limit_text(min_interval - (now - last))
        } else {
            &&& post.connections == pre.connections
            &&& same_sets(pre, post)
            &&& same_debounce(pre, post)
            &&& post.stats == pre.stats
            &&& post.last_message_at.wf()
            &&& post.last_message_at.time_of(user_id@) == now
            &&& forall|v: Seq<char>|
                v != user_id@ ==> post.last_message_at.time_of(v) == pre.last_message_at.time_of(
                    v,
                )
            &&& eff == seq![
                Effect::DbWrite {
                    cmd: DbWriteCommand::ChatMessage { user_id, nickname, room_id, content },
                },
                Effect::Broadcast {
                    msg: WsMessage::Message { from: user_id, nickname, content, is_admin },
                },
            ]
        }
    }
}

/// The transition a `KickUser` frame makes: admin-only; the target is banned
/// durably and, when connected, evicted with a `YouAreKicked` notice.
pub open spec fn kick_step(
    pre: Room,
    post: Room,
    conn_id: u128,
    target: String,
    room_id: u128,
    eff: Seq<Effect>,
) -> bool {
    if !pre.is_admin_conn(conn_id) {
        &&& post == pre
        &&& eff == Seq::<Effect>::empty()
    } else {
        let ban = Effect::DbWrite { cmd: DbWriteCommand::BanUser { user_id: target, room_id } };
        &&& post.banned@ == pre.banned@.insert(target@)
        &&& post.banned.wf()
        &&& post.admins == pre.admins
        &&& post.muted == pre.muted
        &&& post.last_message_at == pre.last_message_at
        &&& same_debounce(pre, post)
        &&& post.stats.peak_users == pre.stats.peak_users
        &&& post.stats.total_joins == pre.stats.total_joins
        &&& if pre.has_user(target@) {
            let i = pre.user_idx(target@);
            &&& post.connections@ == pre.connections@.remove(i)
            &&& post.stats.current_users == pre.stats.current_users - 1
            &&& eff == seq![
                ban,
                Effect::SendTo {
                    conn_id: pre.connections@[i].conn_id,
                    msg: WsMessage::YouAreKicked,
                },
            ]
        } else {
            &&& post.connections == pre.connections
            &&& post.stats.current_users == pre.stats.current_users
            &&& eff == seq![ban]
        }
    }
}

/// The transition a `MuteUser` frame makes: admin-only; the mute set is the
/// only thing that changes, and muting twice leaves the state as one mute.
pub open spec fn mute_step(
    pre: Room,
    post: Room,
    conn_id: u128,
    target: String,
    eff: Seq<Effect>,
) -> bool {
    &&& eff == Seq::<Effect>::empty()
    &&& if !pre.is_admin_conn(conn_id) {
        post == pre
    } else {
        &&& post.muted@ == pre.muted@.insert(target@)
        &&& post.muted.wf()
        &&& pre.muted@.contains(target@) ==> post == pre
        &&& !pre.muted@.contains(target@) ==> post.muted.items@ == pre.muted.items@.push(target)
        &&& post.connections == pre.connections
        &&& post.admins == pre.admins
        &&& post.banned == pre.banned
        &&& post.last_message_at == pre.last_message_at
        &&& same_debounce(pre, post)
        &&& post.stats == pre.stats
    }
}

/// The transition a `CustomEvent` frame makes: admin-only; the event is
/// broadcast unchanged and nothing else happens.
pub open spec fn custom_event_step(
    pre: Room,
    post: Room,
    conn_id: u128,
    event_type: String,
    payload: String,
    eff: Seq<Effect>,
) -> bool {
    &&& post == pre
    &&& if !pre.is_admin_conn(conn_id) {
        eff == Seq::<Effect>::empty()
    } else {
        eff == seq![Effect::Broadcast { msg: WsMessage::CustomEvent { event_type, payload } }]
    }
}

/// The transition a management control message makes.
pub open spec fn control_step(pre: Room, post: Room, ctrl: ControlMessage) -> bool {
    &&& post.connections == pre.connections
    &&& post.muted == pre.muted
    &&& post.last_message_at == pre.last_message_at
    &&& same_debounce(pre, post)
    &&& post.stats == pre.stats
    &&& match ctrl {
        ControlMessage::ResetAdmins(s) => {
            &&& post.admins == s
            &&& post.banned == pre.banned
        },
        ControlMessage::UnbanUser(u) => {
            &&& post.admins == pre.admins
            &&& post.banned@ == pre.banned@.remove(u@)
            &&& post.banned.wf()
        },
    }
}

/// The transition the join-notify timer makes when it fires: one `RoomStats`
/// broadcast when a join is pending, nothing otherwise, and both flags clear.
pub open spec fn fire_step(pre: Room, post: Room, eff: Seq<Effect>) -> bool {
    &&& post.connections == pre.connections
    &&& same_sets(pre, post)
    &&& post.last_message_at == pre.last_message_at
    &&& post.stats == pre.stats
    &&& !post.pending_join_notify
    &&& !post.join_notify_timer_active
    &&& if pre.pending_join_notify {
        eff == seq![
            Effect::Broadcast {
                msg: WsMessage::RoomStats {
                    current_users: pre.stats.current_users,
                    peak_users: pre.stats.peak_users,
                },
            },
        ]
    } else {
        eff == Seq::<Effect>::empty()
    }
}

/// The inbound frame kinds the actor itself handles; everything else is a
/// no-op to it.
pub open spec fn is_actor_inbound(m: WsMessage) -> bool {
    ||| m matches WsMessage::UserJoined { .. }
    ||| m matches WsMessage::UserLeft { .. }
    ||| m matches WsMessage::SendMessage { .. }
    ||| m matches WsMessage::KickUser { .. }
    ||| m matches WsMessage::MuteUser { .. }
    ||| m matches WsMessage::CustomEvent { .. }
}

/// One actor step: dispatches an inbound socket message to its transition.
/// Frame kinds the actor does not own leave the room unchanged.
pub open spec fn handle_step(
    pre: Room,
    post: Room,
    msg: InternalMessage,
    now: i64,
    join_instant: u64,
    min_interval: i64,
    eff: Seq<Effect>,
) -> bool {
    &&& msg.content matches WsMessage::UserJoined { .. } ==> joined_step(
        pre,
        post,
        msg.conn_id,
        msg.user_id,
        msg.nickname,
        msg.room_id,
        join_instant,
        eff,
    )
    &&& msg.content matches WsMessage::UserLeft { .. } ==> left_step(
        pre,
        post,
        msg.conn_id,
        msg.room_id,
        eff,
    )
    &&& msg.content matches WsMessage::SendMessage { content } ==> message_step(
        pre,
        post,
        msg.conn_id,
        msg.user_id,
        msg.nickname,
        msg.room_id,
        content,
        now,
        min_interval,
        eff,
    )
    &&& msg.content matches WsMessage::KickUser { user_id } ==> kick_step(
        pre,
        post,
        msg.conn_id,
        user_id,
        msg.room_id,
        eff,
    )
    &&& msg.content matches WsMessage::MuteUser { user_id } ==> mute_step(
        pre,
        post,
        msg.conn_id,
        user_id,
        eff,
    )
    &&& msg.content matches WsMessage::CustomEvent { event_type, payload } ==> custom_event_step(
        pre,
        post,
        msg.conn_id,
        event_type,
        payload,
        eff,
    )
    &&& !is_actor_inbound(msg.content) ==> post == pre && eff == Seq::<Effect>::empty()
}

impl Room {
    /// Index of the connection entry owned by `cid`, when one exists.
    fn find_conn(&self, cid: u128) -> (r: Option<usize>)
        requires
            forall|i: int, j: int|
                0 <= i < j < self.connections@.len() ==> self.connections@[i].conn_id
                    != self.connections@[j].conn_id,
        ensures
            r is Some <==> self.has_conn(cid),
            r matches Some(i) ==> 0 <= i < self.connections@.len()
                && self.connections@[i as int].conn_id == cid && i as int == self.conn_idx(cid),
    {
        let mut k: usize = 0;
        while k < self.connections.len()
            invariant
                k <= self.connections.len(),
                forall|i: int, j: int|
                    0 <= i < j < self.connections@.len() ==> self.connections@[i].conn_id
                        != self.connections@[j].conn_id,
                forall|i: int| 0 <= i < k ==> self.connections@[i].conn_id != cid,
            decreases self.connections.len() - k,
        {
            if self.connections[k].conn_id == cid {
                proof {
                    let i = choose|i: int|
                        0 <= i < self.connections@.len() && self.connections@[i].conn_id == cid;
                    assert(i == k);
                }
                return Some(k);
            }
            k += 1;
        }
        None
    }

    /// Index of the connection entry of user `u`, when one exists.
    fn find_user(&self, u: &String) -> (r: Option<usize>)
        requires
            forall|i: int, j: int|
                0 <= i < j < self.connections@.len() ==> self.connections@[i].user_id@
                    != self.connections@[j].user_id@,
        ensures
            r is Some <==> self.has_user(u@),
            r matches Some(i) ==> 0 <= i < self.connections@.len()
                && self.connections@[i as int].user_id@ == u@ && i as int == self.user_idx(u@),
    {
        let mut k: usize = 0;
        while k < self.connections.len()
            invariant
                k <= self.connections.len(),
                forall|i: int, j: int|
                    0 <= i < j < self.connections@.len() ==> self.connections@[i].user_id@
                        != self.connections@[j].user_id@,
                forall|i: int| 0 <= i < k ==> self.connections@[i].user_id@ != u@,
            decreases self.connections.len() - k,
        {
            if self.connections[k].user_id.eq(u) {
                proof {
                    let i = choose|i: int|
                        0 <= i < self.connections@.len() && self.connections@[i].user_id@ == u@;
                    assert(i == k);
                }
                return Some(k);
            }
            k += 1;
        }
        None
    }
}

/// Removing one entry keeps the remaining entries' ids distinct; each
/// remaining entry is the original entry just before or after the removed
/// index.
proof fn lemma_remove_entry(s: Seq<ConnEntry>, k: int)
    requires
        0 <= k < s.len(),
        forall|i: int, j: int| 0 <= i < j < s.len() ==> s[i].conn_id != s[j].conn_id,
        forall|i: int, j: int| 0 <= i < j < s.len() ==> s[i].user_id@ != s[j].user_id@,
    ensures
        forall|i: int, j: int|
            0 <= i < j < s.remove(k).len() ==> s.remove(k)[i].conn_id != s.remove(k)[j].conn_id,
        forall|i: int, j: int|
            0 <= i < j < s.remove(k).len() ==> s.remove(k)[i].user_id@ != s.remove(k)[j].user_id@,
        forall|i: int|
            0 <= i < s.remove(k).len() ==> #[trigger] s.remove(k)[i] == s[
                if i < k {
                    i
                } else {
                    i + 1
                }
            ],
        forall|i: int| 0 <= i < s.remove(k).len() ==> s.remove(k)[i].user_id@ != s[k].user_id@,
{
    assert forall|i: int, j: int|
        0 <= i < j < s.remove(k).len() implies s.remove(k)[i].conn_id != s.remove(k)[j].conn_id
        && s.remove(k)[i].user_id@ != s.remove(k)[j].user_id@ by {
        if j < k {
            assert(s[i].conn_id != s[j].conn_id);
        } else if i < k {
            assert(s[i].conn_id != s[j + 1].conn_id);
        } else {
            assert(s[i + 1].conn_id != s[j + 1].conn_id);
        }
    }
    assert forall|i: int| 0 <= i < s.remove(k).len() implies #[trigger] s.remove(k)[i] == s[
        if i < k {
            i
        } else {
            i + 1
        }
    ] by {
        if i < k {
            assert(s.remove(k)[i] == s[i]);
        } else {
            assert(s.remove(k)[i] == s[i + 1]);
        }
    }
    assert forall|i: int| 0 <= i < s.remove(k).len() implies s.remove(k)[i].user_id@
        != s[k].user_id@ by {
        if i < k {
            assert(s[i].user_id@ != s[k].user_id@);
        } else {
            assert(s[k].user_id@ != s[i + 1].user_id@);
        }
    }
}

impl Room {
    /// A banned user's join is refused with an error frame; otherwise a
    /// stale session of the same user is displaced with `YouAreKicked` and
    /// its session row is closed, the newcomer is welcomed and registered
    /// with admin and mute snapshots, a fresh session row is opened, the
    /// statistics advance, and the join-notify debounce is armed.
    pub fn user_joined(
        &mut self,
        conn_id: u128,
        user_id: String,
        nickname: String,
        room_id: u128,
        join_instant: u64,
    ) -> (eff: Vec<Effect>)
        requires
            old(self).wf(),
            !old(self).has_conn(conn_id),
            old(self).connections@.len() < u32::MAX,
            old(self).stats.total_joins < u64::MAX,
        ensures
            final (self).wf(),
            final (self).stats.peak_users >= old(self).stats.peak_users,
            joined_step(
                *old(self),
                *final (self),
                conn_id,
                user_id,
                nickname,
                room_id,
                join_instant,
                eff@,
            ),
    {
        let ghost pre = *self;
        if self.banned.contains(&user_id) {
            let mut eff: Vec<Effect> = Vec::new();
            let message = ban_reject_message();
            eff.push(Effect::SendTo { conn_id, msg: WsMessage::Error { message } });
            return eff;
        }
        let mut eff: Vec<Effect> = Vec::new();
        match self.find_user(&user_id) {
            Some(k) => {
                let stale = self.connections.remove(k);
                proof {
                    lemma_remove_entry(pre.connections@, k as int);
                }
                self.stats.current_users = self.stats.current_users - 1;
                eff.push(
                    Effect::SendTo { conn_id: stale.conn_id, msg: WsMessage::YouAreKicked },
                );
                eff.push(
                    Effect::DbWrite {
                        cmd: DbWriteCommand::UserLeft {
                            user_id: stale.user_id,
                            nickname: stale.nickname,
                            room_id,
                            join_time: stale.join_instant,
                        },
                    },
                );
            },
            None => {},
        }
        let ghost base = self.connections@;
        let is_admin = self.admins.contains(&user_id);
        let is_muted = self.muted.contains(&user_id);
        eff.push(
            Effect::SendTo {
                conn_id,
                msg: WsMessage::WelcomeInfo {
                    user_id: user_id.clone(),
                    nickname: nickname.clone(),
                    is_muted,
                },
            },
        );
        let entry = ConnEntry {
            conn_id,
            user_id: user_id.clone(),
            nickname: nickname.clone(),
            is_admin,
            join_instant,
        };
        self.connections.push(entry);
        self.stats.current_users = self.stats.current_users + 1;
        self.stats.total_joins = self.stats.total_joins + 1;
        if self.stats.current_users > self.stats.peak_users {
            self.stats.peak_users = self.stats.current_users;
        }
        eff.push(
            Effect::DbWrite {
                cmd: DbWriteCommand::UserJoined { user_id, nickname, room_id },
            },
        );
        self.pending_join_notify = true;
        if !self.join_notify_timer_active {
            self.join_notify_timer_active = true;
            eff.push(Effect::StartJoinNotifyTimer);
        }
        proof {
            let n = self.connections@.len() as int;
            assert forall|i: int, j: int|
                0 <= i < j < n implies self.connections@[i].conn_id
                != self.connections@[j].conn_id by {
                if j < n - 1 {
                    assert(base[i].conn_id != base[j].conn_id);
                } else {
                    assert(self.connections@[i] == base[i]);
                    if pre.has_user(user_id@) {
                        let k0 = pre.user_idx(user_id@);
                        lemma_remove_entry(pre.connections@, k0);
                        let m: int = if i < k0 { i } else { i + 1 };
                        assert(base[i] == pre.connections@[m]);
                        assert(pre.connections@[m].conn_id != conn_id);
                    } else {
                        assert(pre.connections@[i].conn_id != conn_id);
                    }
                }
            }
            assert forall|i: int, j: int|
                0 <= i < j < n implies self.connections@[i].user_id@
                != self.connections@[j].user_id@ by {
                if j < n - 1 {
                    assert(base[i].user_id@ != base[j].user_id@);
                } else {
                    assert(self.connections@[i] == base[i]);
                    if pre.has_user(user_id@) {
                        assert(base[i].user_id@ != pre.connections@[pre.user_idx(user_id@)].user_id@);
                    } else {
                        assert(!pre.has_user(user_id@));
                        assert(pre.connections@[i].user_id@ != user_id@);
                    }
                }
            }
            assert forall|i: int|
                0 <= i < n implies !self.banned@.contains(self.connections@[i].user_id@) by {
                if i < n - 1 {
                    assert(self.connections@[i] == base[i]);
                    if pre.has_user(user_id@) {
                        let k0 = pre.user_idx(user_id@);
                        lemma_remove_entry(pre.connections@, k0);
                        let m: int = if i < k0 { i } else { i + 1 };
                        assert(base[i] == pre.connections@[m]);
                        assert(!pre.banned@.contains(pre.connections@[m].user_id@));
                    } else {
                        assert(!pre.banned@.contains(pre.connections@[i].user_id@));
                    }
                }
            }
            if pre.has_user(user_id@) {
                let displaced = seq![eff@[0], eff@[1]];
                if pre.join_notify_timer_active {
                    assert(eff@ =~= displaced + seq![eff@[2], eff@[3]] + Seq::<Effect>::empty());
                } else {
                    assert(eff@ =~= displaced + seq![eff@[2], eff@[3]] + seq![
                        Effect::StartJoinNotifyTimer,
                    ]);
                }
            } else {
                if pre.join_notify_timer_active {
                    assert(eff@ =~= Seq::<Effect>::empty() + seq![eff@[0], eff@[1]]
                        + Seq::<Effect>::empty());
                } else {
                    assert(eff@ =~= Seq::<Effect>::empty() + seq![eff@[0], eff@[1]] + seq![
                        Effect::StartJoinNotifyTimer,
                    ]);
                }
            }
        }
        eff
    }

    /// A known connection is removed, the current-user count falls by one
    /// and the session row is closed with the original join instant.
    pub fn user_left(&mut self, conn_id: u128, room_id: u128) -> (eff: Vec<Effect>)
        requires
            old(self).wf(),
        ensures
            final (self).wf(),
            final (self).stats.peak_users >= old(self).stats.peak_users,
            left_step(*old(self), *final (self), conn_id, room_id, eff@),
    {
        let ghost pre = *self;
        let mut eff: Vec<Effect> = Vec::new();
        match self.find_conn(conn_id) {
            None => eff,
            Some(k) => {
                let e = self.connections.remove(k);
                proof {
                    lemma_remove_entry(pre.connections@, k as int);
                    assert forall|i: int|
                        0 <= i < self.connections@.len() implies !self.banned@.contains(
                        self.connections@[i].user_id@,
                    ) by {
                        let m: int = if i < k { i } else { i + 1 };
                        assert(self.connections@[i] == pre.connections@[m]);
                        assert(!pre.banned@.contains(pre.connections@[m].user_id@));
                    }
                }
                self.stats.current_users = self.stats.current_users - 1;
                eff.push(
                    Effect::DbWrite {
                        cmd: DbWriteCommand::UserLeft {
                            user_id: e.user_id,
                            nickname: e.nickname,
                            room_id,
                            join_time: e.join_instant,
                        },
                    },
                );
                eff
            },
        }
    }

    /// Muted senders get `YouAreMuted`; non-admin senders are rate limited
    /// with an error naming the remaining wait; accepted messages update the
    /// sender's clock, are persisted, and are broadcast to the whole room.
    pub fn send_message(
        &mut self,
        conn_id: u128,
        user_id: String,
        nickname: String,
        room_id: u128,
        content: String,
        now: i64,
        min_interval: i64,
    ) -> (eff: Vec<Effect>)
        requires
            old(self).wf(),
            now >= 0,
            min_interval >= 0,
        ensures
            final (self).wf(),
            final (self).stats.peak_users >= old(self).stats.peak_users,
            message_step(
                *old(self),
                *final (self),
                conn_id,
                user_id,
                nickname,
                room_id,
                content,
                now,
                min_interval,
                eff@,
            ),
    {
        let ghost gu = user_id;
        let ghost gn = nickname;
        let ghost gc = content;
        let mut eff: Vec<Effect> = Vec::new();
        let k = match self.find_conn(conn_id) {
            None => {
                return eff;
            },
            Some(k) => k,
        };
        if self.muted.contains(&user_id) {
            eff.push(Effect::SendTo { conn_id, msg: WsMessage::YouAreMuted });
            return eff;
        }
        let is_admin = self.connections[k].is_admin;
        let last = self.last_message_at.get(&user_id);
        if !is_admin {
            let gap: i128 = now as i128 - last as i128;
            if gap < min_interval as i128 {
                let remaining: i128 = min_interval as i128 - gap;
                let message = rate_limit_message(remaining as u64);
                eff.push(Effect::SendTo { conn_id, msg: WsMessage::Error { message } });
                return eff;
            }
        }
        self.last_message_at.set(&user_id, now);
        eff.push(
            Effect::DbWrite {
                cmd: DbWriteCommand::ChatMessage {
                    user_id: user_id.clone(),
                    nickname: nickname.clone(),
                    room_id,
                    content: content.clone(),
                },
            },
        );
        eff.push(
            Effect::Broadcast {
                msg: WsMessage::Message { from: user_id, nickname, content, is_admin },
            },
        );
        proof {
            assert(eff@ =~= seq![
                Effect::DbWrite {
                    cmd: DbWriteCommand::ChatMessage {
                        user_id: gu,
                        nickname: gn,
                        room_id,
                        content: gc,
                    },
                },
                Effect::Broadcast {
                    msg: WsMessage::Message { from: gu, nickname: gn, content: gc, is_admin },
                },
            ]);
        }
        eff
    }

    /// Admin-only: the target is banned durably and, when connected,
    /// evicted with a `YouAreKicked` notice.
    pub fn kick_user(&mut self, conn_id: u128, target: String, room_id: u128) -> (eff: Vec<
        Effect,
    >)
        requires
            old(self).wf(),
        ensures
            final (self).wf(),
            final (self).stats.peak_users >= old(self).stats.peak_users,
            kick_step(*old(self), *final (self), conn_id, target, room_id, eff@),
    {
        let ghost pre = *self;
        let ghost gt = target;
        let ghost tv = target@;
        let mut eff: Vec<Effect> = Vec::new();
        let is_admin = match self.find_conn(conn_id) {
            Some(k) => self.connections[k].is_admin,
            None => false,
        };
        if !is_admin {
            return eff;
        }
        let mut kicked: Option<u128> = None;
        match self.find_user(&target) {
            Some(k) => {
                let old_cid = self.connections[k].conn_id;
                self.connections.remove(k);
                proof {
                    lemma_remove_entry(pre.connections@, k as int);
                }
                self.stats.current_users = self.stats.current_users - 1;
                kicked = Some(old_cid);
            },
            None => {},
        }
        eff.push(
            Effect::DbWrite {
                cmd: DbWriteCommand::BanUser { user_id: target.clone(), room_id },
            },
        );
        self.banned.insert(target);
        match kicked {
            Some(cid) => {
                eff.push(Effect::SendTo { conn_id: cid, msg: WsMessage::YouAreKicked });
            },
            None => {},
        }
        proof {
            assert forall|i: int|
                0 <= i < self.connections@.len() implies !self.banned@.contains(
                self.connections@[i].user_id@,
            ) by {
                if pre.has_user(tv) {
                    let k = pre.user_idx(tv);
                    lemma_remove_entry(pre.connections@, k);
                    let m: int = if i < k { i } else { i + 1 };
                    assert(self.connections@[i] == pre.connections@[m]);
                    assert(!pre.banned@.contains(pre.connections@[m].user_id@));
                    assert(self.connections@[i].user_id@ != tv);
                } else {
                    assert(!pre.banned@.contains(pre.connections@[i].user_id@));
                    assert(pre.connections@[i].user_id@ != tv);
                }
            }
            let ban = Effect::DbWrite { cmd: DbWriteCommand::BanUser { user_id: gt, room_id } };
            if pre.has_user(tv) {
                let i = pre.user_idx(tv);
                assert(eff@ =~= seq![
                    ban,
                    Effect::SendTo {
                        conn_id: pre.connections@[i].conn_id,
                        msg: WsMessage::YouAreKicked,
                    },
                ]);
            }
        }
        eff
    }

    /// Admin-only: the target joins the volatile mute set; muting twice is
    /// the same as muting once.
    pub fn mute_user(&mut self, conn_id: u128, target: String) -> (eff: Vec<Effect>)
        requires
            old(self).wf(),
        ensures
            final (self).wf(),
            final (self).stats.peak_users >= old(self).stats.peak_users,
            mute_step(*old(self), *final (self), conn_id, target, eff@),
    {
        let eff: Vec<Effect> = Vec::new();
        let is_admin = match self.find_conn(conn_id) {
            Some(k) => self.connections[k].is_admin,
            None => false,
        };
        if !is_admin {
            return eff;
        }
        self.muted.insert(target);
        eff
    }

    /// Admin-only: the event is broadcast to the room unchanged.
    pub fn custom_event(&mut self, conn_id: u128, event_type: String, payload: String) -> (eff:
        Vec<Effect>)
        requires
            old(self).wf(),
        ensures
            final (self).wf(),
            final (self).stats.peak_users >= old(self).stats.peak_users,
            custom_event_step(*old(self), *final (self), conn_id, event_type, payload, eff@),
    {
        let mut eff: Vec<Effect> = Vec::new();
        let is_admin = match self.find_conn(conn_id) {
            Some(k) => self.connections[k].is_admin,
            None => false,
        };
        if !is_admin {
            return eff;
        }
        eff.push(Effect::Broadcast { msg: WsMessage::CustomEvent { event_type, payload } });
        eff
    }

    /// Applies a management order: replace the admin set, or remove one user
    /// from the ban set. Cached admin snapshots on live connections are left
    /// as they are.
    pub fn apply_control(&mut self, ctrl: ControlMessage)
        requires
            old(self).wf(),
            ctrl matches ControlMessage::ResetAdmins(s) ==> s.wf(),
        ensures
            final (self).wf(),
            final (self).stats.peak_users >= old(self).stats.peak_users,
            control_step(*old(self), *final (self), ctrl),
    {
        match ctrl {
            ControlMessage::ResetAdmins(s) => {
                self.admins = s;
            },
            ControlMessage::UnbanUser(u) => {
                self.banned.remove(&u);
                proof {
                    assert forall|i: int|
                        0 <= i < self.connections@.len() implies !self.banned@.contains(
                        self.connections@[i].user_id@,
                    ) by {
                        assert(!old(self).banned@.contains(self.connections@[i].user_id@));
                    }
                }
            },
        }
    }

    /// The join-notify timer fired: broadcast one `RoomStats` if a join is
    /// pending, and disarm.
    pub fn join_notify_fire(&mut self) -> (eff: Vec<Effect>)
        requires
            old(self).wf(),
        ensures
            final (self).wf(),
            final (self).stats.peak_users >= old(self).stats.peak_users,
            fire_step(*old(self), *final (self), eff@),
    {
        let mut eff: Vec<Effect> = Vec::new();
        if self.pending_join_notify {
            eff.push(
                Effect::Broadcast {
                    msg: WsMessage::RoomStats {
                        current_users: self.stats.current_users,
                        peak_users: self.stats.peak_users,
                    },
                },
            );
        }
        self.pending_join_notify = false;
        self.join_notify_timer_active = false;
        eff
    }

    /// The final `RoomStats` broadcast made when the actor shuts down.
    pub fn shutdown_effects(&self) -> (eff: Vec<Effect>)
        ensures
            eff@ == seq![
                Effect::Broadcast {
                    msg: WsMessage::RoomStats {
                        current_users: self.stats.current_users,
                        peak_users: self.stats.peak_users,
                    },
                },
            ],
    {
        let mut eff: Vec<Effect> = Vec::new();
        eff.push(
            Effect::Broadcast {
                msg: WsMessage::RoomStats {
                    current_users: self.stats.current_users,
                    peak_users: self.stats.peak_users,
                },
            },
        );
        eff
    }

    /// The live snapshot served to the management surface.
    pub fn details(&self, room_id: u128, room_name: String, start_time: i64) -> (r:
        RoomDetailsResponse)
        ensures
            r.room_id == room_id,
            r.room_name == room_name,
            r.admin_user_ids@ == self.admins.items@,
            r.start_time == start_time,
            r.stats == self.stats,
    {
        RoomDetailsResponse {
            room_id,
            room_name,
            admin_user_ids: self.admins.to_vec(),
            start_time,
            stats: self.stats,
        }
    }

    /// Applies one inbound socket message: the frame kinds the actor owns
    /// follow their step predicates; everything else leaves the room as it
    /// was and produces no effect.
    pub fn handle_message(
        &mut self,
        msg: InternalMessage,
        now: i64,
        join_instant: u64,
        min_interval: i64,
    ) -> (eff: Vec<Effect>)
        requires
            old(self).wf(),
            now >= 0,
            min_interval >= 0,
            msg.content matches WsMessage::UserJoined { .. } ==> !old(self).has_conn(msg.conn_id)
                && old(self).connections@.len() < u32::MAX && old(self).stats.total_joins
                < u64::MAX,
        ensures
            final (self).wf(),
            final (self).stats.peak_users >= old(self).stats.peak_users,
            handle_step(
                *old(self),
                *final (self),
                msg,
                now,
                join_instant,
                min_interval,
                eff@,
            ),
    {
        let InternalMessage { conn_id, user_id, nickname, room_id, content } = msg;
        match content {
            WsMessage::UserJoined { .. } => self.user_joined(
                conn_id,
                user_id,
                nickname,
                room_id,
                join_instant,
            ),
            WsMessage::UserLeft { .. } => self.user_left(conn_id, room_id),
            WsMessage::SendMessage { content } => self.send_message(
                conn_id,
                user_id,
                nickname,
                room_id,
                content,
                now,
                min_interval,
            ),
            WsMessage::KickUser { user_id } => self.kick_user(conn_id, user_id, room_id),
            WsMessage::MuteUser { user_id } => self.mute_user(conn_id, user_id),
            WsMessage::CustomEvent { event_type, payload } => self.custom_event(
                conn_id,
                event_type,
                payload,
            ),
            _ => Vec::new(),
        }
    }

    /// As `handle_message`, at the wall clock's current second: the actor
    /// reads the clock itself, so the step holds for some non-negative
    /// reading (a pre-epoch reading is clamped to zero).
    pub fn handle_message_now(
        &mut self,
        msg: InternalMessage,
        join_instant: u64,
        min_interval: i64,
    ) -> (eff: Vec<Effect>)
        requires
            old(self).wf(),
            min_interval >= 0,
            msg.content matches WsMessage::UserJoined { .. } ==> !old(self).has_conn(msg.conn_id)
                && old(self).connections@.len() < u32::MAX && old(self).stats.total_joins
                < u64::MAX,
        ensures
            final (self).wf(),
            final (self).stats.peak_users >= old(self).stats.peak_users,
            exists|now: i64|
                now >= 0 && #[trigger] handle_step(
                    *old(self),
                    *final (self),
                    msg,
                    now,
                    join_instant,
                    min_interval,
                    eff@,
                ),
    {
        let t = crate::sys::now_seconds();
        let now: i64 = if t < 0 {
            0
        } else {
            t
        };
        let eff = self.handle_message(msg, now, join_instant, min_interval);
        eff
    }
}

/// One lowercase notice string: the text a banned user gets on a rejected
/// join.
pub fn ban_reject_message() -> (r: String)
    ensures
        r@ == ban_reject_text(),
{
    "你已被踢出该房间，无法再次加入".to_owned()
}

/// The rate-limit error text naming the remaining seconds.
pub fn rate_limit_message(remaining: u64) -> (r: String)
    ensures
        r@ == rate_limit_text(remaining as int),
{
    let mut s = "发送过于频繁，请".to_owned();
    let d = crate::ids::u64_dec_string(remaining);
    s.append(d.as_str());
    s.append("秒后再试");
    s
}

/// Whether an effect is a room-wide broadcast.
pub open spec fn is_broadcast(e: Effect) -> bool {
    e matches Effect::Broadcast { .. }
}

/// Whether connection `c` receives effect `e`.
pub open spec fn delivered_to(e: Effect, c: u128) -> bool {
    ||| is_broadcast(e)
    ||| e matches Effect::SendTo { conn_id, .. } && conn_id == c
}

/// The subsequence of `effs` that connection `c` observes, in emission
/// order.
pub open spec fn observed_by(effs: Seq<Effect>, c: u128) -> Seq<Effect>
    decreases effs.len(),
{
    if effs.len() == 0 {
        Seq::empty()
    } else {
        let rest = observed_by(effs.drop_first(), c);
        if delivered_to(effs.first(), c) {
            seq![effs.first()] + rest
        } else {
            rest
        }
    }
}

/// The subsequence of room-wide broadcasts of `effs`, in emission order.
pub open spec fn broadcasts_of(effs: Seq<Effect>) -> Seq<Effect>
    decreases effs.len(),
{
    if effs.len() == 0 {
        Seq::empty()
    } else {
        let rest = broadcasts_of(effs.drop_first());
        if is_broadcast(effs.first()) {
            seq![effs.first()] + rest
        } else {
            rest
        }
    }
}

/// The broadcasts a connection observes are exactly the broadcasts emitted,
/// in emission order.
pub proof fn lemma_observed_broadcasts(effs: Seq<Effect>, c: u128)
    ensures
        broadcasts_of(observed_by(effs, c)) == broadcasts_of(effs),
    decreases effs.len(),
{
    if effs.len() == 0 {
    } else {
        lemma_observed_broadcasts(effs.drop_first(), c);
        let rest = observed_by(effs.drop_first(), c);
        if delivered_to(effs.first(), c) {
            let whole = seq![effs.first()] + rest;
            assert(whole.first() == effs.first());
            assert(whole.drop_first() =~= rest);
        }
    }
}

/// Any two connections observe the room's broadcasts in the same relative
/// order: each one's observation projects to the same broadcast sequence.
pub proof fn lemma_same_broadcast_order(effs: Seq<Effect>, c1: u128, c2: u128)
    ensures
        broadcasts_of(observed_by(effs, c1)) == broadcasts_of(observed_by(effs, c2)),
{
    lemma_observed_broadcasts(effs, c1);
    lemma_observed_broadcasts(effs, c2);
}

/// The standing invariants of a well-formed room: the current-user count
/// equals the number of connections; the peak never falls below it; no user
/// id owns two live connections; no banned user is connected.
pub proof fn lemma_room_invariants(r: Room)
    requires
        r.wf(),
    ensures
        r.stats.current_users == r.connections@.len(),
        r.stats.peak_users >= r.stats.current_users,
        forall|i: int, j: int|
            0 <= i < j < r.connections@.len() ==> r.connections@[i].user_id@
                != r.connections@[j].user_id@,
        forall|i: int| 0 <= i < r.connections@.len() ==> !r.banned@.contains(
            r.connections@[i].user_id@,
        ),
{
}

/// After a kick of `target` and a later unban of `target`, a fresh join by
/// `target` is accepted again.
pub proof fn lemma_unban_after_kick_allows_join(
    r0: Room,
    r1: Room,
    r2: Room,
    kicker: u128,
    target: String,
    room_id: u128,
    eff: Seq<Effect>,
)
    requires
        r0.is_admin_conn(kicker),
        kick_step(r0, r1, kicker, target, room_id, eff),
        control_step(r1, r2, ControlMessage::UnbanUser(target)),
    ensures
        r2.join_allowed(target@),
{
    assert(r1.banned@ == r0.banned@.insert(target@));
    assert(r2.banned@ == r1.banned@.remove(target@));
    assert(!r2.banned@.contains(target@));
}

/// Two successive admin resets leave exactly the second set, with
/// everything else as it was before either.
pub proof fn lemma_reset_admins_last_wins(r0: Room, r1: Room, r2: Room, s1: UserSet, s2: UserSet)
    requires
        control_step(r0, r1, ControlMessage::ResetAdmins(s1)),
        control_step(r1, r2, ControlMessage::ResetAdmins(s2)),
    ensures
        r2.admins == s2,
        r2.banned == r0.banned,
        r2.muted == r0.muted,
        r2.connections == r0.connections,
        r2.stats == r0.stats,
{
}

/// Muting the same user twice leaves the room exactly as one mute does, and
/// produces the same (empty) effects.
pub proof fn lemma_mute_idempotent(
    r0: Room,
    r1: Room,
    r2: Room,
    conn_id: u128,
    target: String,
    e1: Seq<Effect>,
    e2: Seq<Effect>,
)
    requires
        mute_step(r0, r1, conn_id, target, e1),
        mute_step(r1, r2, conn_id, target, e2),
    ensures
        r2 == r1,
        e2 == e1,
{
    if !r0.is_admin_conn(conn_id) {
        assert(r1 == r0);
    } else {
        assert(r1.connections == r0.connections);
        assert(r1.is_admin_conn(conn_id));
        assert(r1.muted@.contains(target@));
    }
}

/// Once the join-notify timer fires, a second fire with no join in between
/// broadcasts nothing: the coalesced `RoomStats` notice goes out at most
/// once per quiet window.
pub proof fn lemma_join_notify_fires_once(
    r0: Room,
    r1: Room,
    r2: Room,
    e1: Seq<Effect>,
    e2: Seq<Effect>,
)
    requires
        fire_step(r0, r1, e1),
        fire_step(r1, r2, e2),
    ensures
        e1.len() <= 1,
        e2 == Seq::<Effect>::empty(),
{
}

} // verus!
