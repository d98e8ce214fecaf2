//! The callback dispatcher's policy: the fixed-delay retry budget for each
//! webhook POST, the batch tags and pagination of history dumps, and the
//! construction of the events themselves. The HTTP client that performs the
//! POSTs lives outside; it reports each attempt's outcome and obeys the
//! decision returned here.

use vstd::prelude::*;
use crate::config::Config;
use crate::ids::{dec_seq, u64_dec_string, uuid_seq, uuid_string};
use crate::models::{
    CallbackEvent, ChatHistoryEntry, RoomBasicInfo, RoomStats, SessionHistoryEntry,
};
use crate::sys::now_seconds;

verus! {

/// The retry budget of one delivery: up to `max_retries` retries after the
/// first attempt, a fixed delay between attempts, and a per-attempt timeout.
#[derive(Clone, Copy, Debug, PartialEq, Eq, Structural)]
pub struct RetryPolicy {
    pub max_retries: u32,
    pub retry_delay_seconds: u64,
    pub timeout_seconds: u64,
}

impl RetryPolicy {
    /// The policy a configuration prescribes.
    pub fn from_config(config: &Config) -> (p: RetryPolicy)
        ensures
            p.max_retries == config.callback_max_retries,
            p.retry_delay_seconds == config.callback_retry_delay_seconds,
            p.timeout_seconds == config.callback_timeout_seconds,
    {
        RetryPolicy {
            max_retries: config.callback_max_retries,
            retry_delay_seconds: config.callback_retry_delay_seconds,
            timeout_seconds: config.callback_timeout_seconds,
        }
    }
}

/// What the sender does after one POST attempt.
#[derive(Clone, Copy, Debug, PartialEq, Eq, Structural)]
pub enum RetryDecision {
    /// A 2xx response arrived: the event is delivered.
    Delivered,
    /// Failure, budget left: sleep this many seconds and try again.
    RetryAfter(u64),
    /// Failure with the budget spent: the event is dropped.
    GiveUp,
}

/// Progress of one delivery: how many attempts have been made so far.
#[derive(Clone, Copy, Debug, PartialEq, Eq, Structural)]
pub struct Delivery {
    pub attempts_made: u32,
}

impl Delivery {
    pub fn new() -> (d: Delivery)
        ensures
            d.attempts_made == 0,
    {
        Delivery { attempts_made: 0 }
    }

    /// Records one attempt's outcome: success delivers; a failure is retried
    /// after the fixed delay while retries remain, and gives the event up
    /// once the first attempt plus `max_retries` retries are all spent.
    pub fn after_attempt(&mut self, policy: &RetryPolicy, success: bool) -> (d: RetryDecision)
        requires
            old(self).attempts_made <= policy.max_retries,
            policy.max_retries < u32::MAX,
        ensures
            final (self).attempts_made == old(self).attempts_made + 1,
            final (self).attempts_made <= policy.max_retries + 1,
            success ==> d == RetryDecision::Delivered,
            !success && final (self).attempts_made <= policy.max_retries ==> d
                == RetryDecision::RetryAfter(policy.retry_delay_seconds),
            !success && final (self).attempts_made > policy.max_retries ==> d
                == RetryDecision::GiveUp,
    {
        self.attempts_made = self.attempts_made + 1;
        if success {
            RetryDecision::Delivered
        } else if self.attempts_made <= policy.max_retries {
            RetryDecision::RetryAfter(policy.retry_delay_seconds)
        } else {
            RetryDecision::GiveUp
        }
    }
}

/// The tag of one chat-history batch: `chat_<room>_<page>`.
pub open spec fn chat_batch_id_text(room_id: u128, page: int) -> Seq<char> {
    "chat_"@ + uuid_seq(room_id) + "_"@ + dec_seq(page)
}

/// The tag of one session-history batch: `session_<room>_<page>`.
pub open spec fn session_batch_id_text(room_id: u128, page: int) -> Seq<char> {
    "session_"@ + uuid_seq(room_id) + "_"@ + dec_seq(page)
}

pub fn chat_batch_id(room_id: u128, page: u64) -> (r: String)
    ensures
        r@ == chat_batch_id_text(room_id, page as int),
{
    let mut s = "chat_".to_owned();
    let id = uuid_string(room_id);
    s.append(id.as_str());
    s.append("_");
    let p = u64_dec_string(page);
    s.append(p.as_str());
    s
}

pub fn session_batch_id(room_id: u128, page: u64) -> (r: String)
    ensures
        r@ == session_batch_id_text(room_id, page as int),
{
    let mut s = "session_".to_owned();
    let id = uuid_string(room_id);
    s.append(id.as_str());
    s.append("_");
    let p = u64_dec_string(page);
    s.append(p.as_str());
    s
}

/// How many batches a table of `total` rows makes: one batch per `size`
/// rows, rounded up, and a single batch for an empty table so that the
/// terminal flag is still delivered.
pub open spec fn spec_num_batches(total: int, size: int) -> int {
    if total == 0 {
        1
    } else {
        (total - 1) / size + 1
    }
}

pub fn num_batches(total: usize, size: usize) -> (n: usize)
    requires
        size > 0,
    ensures
        n == spec_num_batches(total as int, size as int),
        n >= 1,
{
    if total == 0 {
        1
    } else {
        (total - 1) / size + 1
    }
}

/// The row range of page `page` and whether it is the last: rows
/// `[page*size, min(page*size+size, total))`, terminal exactly when the
/// range reaches the end of the table.
pub fn batch_bounds(total: usize, size: usize, page: usize) -> (r: (usize, usize, bool))
    requires
        size > 0,
        page * size <= total,
    ensures
        r.0 == page * size,
        r.1 == if page * size + size <= total {
            page * size + size
        } else {
            total as int
        },
        r.2 <==> r.1 == total,
{
    let start = page * size;
    let end = if total - start >= size {
        start + size
    } else {
        total
    };
    (start, end, end == total)
}

/// The `RoomCreated` event, stamped with the current wall-clock second.
pub fn room_created_event(room_id: u128, room_name: String, admin_ids: Vec<String>) -> (e:
    CallbackEvent)
    ensures
        e matches CallbackEvent::RoomCreated { room_id: r, room_name: n, admin_ids: a, .. } && r
            == room_id && n == room_name && a == admin_ids,
{
    let timestamp = now_seconds();
    CallbackEvent::RoomCreated { room_id, room_name, admin_ids, timestamp }
}

/// The `RoomClosed` event, stamped with the current wall-clock second.
pub fn room_closed_event(room_id: u128, final_stats: RoomStats) -> (e: CallbackEvent)
    ensures
        e matches CallbackEvent::RoomClosed { room_id: r, final_stats: s, .. } && r == room_id
            && s == final_stats,
{
    let timestamp = now_seconds();
    CallbackEvent::RoomClosed { room_id, final_stats, timestamp }
}

/// One chat-history batch event, tagged `chat_<room>_<page>` and terminal
/// exactly when the caller says no pages remain.
pub fn chat_history_batch_event(
    room_id: u128,
    messages: Vec<ChatHistoryEntry>,
    page: u64,
    is_last_batch: bool,
) -> (e: CallbackEvent)
    ensures
        e matches CallbackEvent::ChatHistoryBatch {
            room_id: r,
            messages: m,
            batch_id,
            is_last_batch: l,
            ..
        } && r == room_id && m == messages && batch_id@ == chat_batch_id_text(
            room_id,
            page as int,
        ) && l == is_last_batch,
{
    let timestamp = now_seconds();
    let batch_id = chat_batch_id(room_id, page);
    CallbackEvent::ChatHistoryBatch { room_id, messages, batch_id, is_last_batch, timestamp }
}

/// One session-history batch event, tagged `session_<room>_<page>`.
pub fn session_history_batch_event(
    room_id: u128,
    sessions: Vec<SessionHistoryEntry>,
    page: u64,
    is_last_batch: bool,
) -> (e: CallbackEvent)
    ensures
        e matches CallbackEvent::SessionHistoryBatch {
            room_id: r,
            sessions: s,
            batch_id,
            is_last_batch: l,
            ..
        } && r == room_id && s == sessions && batch_id@ == session_batch_id_text(
            room_id,
            page as int,
        ) && l == is_last_batch,
{
    let timestamp = now_seconds();
    let batch_id = session_batch_id(room_id, page);
    CallbackEvent::SessionHistoryBatch { room_id, sessions, batch_id, is_last_batch, timestamp }
}

/// The periodic-sync snapshot event.
pub fn periodic_sync_event(room_id: u128, room_info: RoomBasicInfo) -> (e: CallbackEvent)
    ensures
        e matches CallbackEvent::PeriodicSync { room_id: r, room_info: i, .. } && r == room_id
            && i == room_info,
{
    let last_sync_time = now_seconds();
    CallbackEvent::PeriodicSync { room_id, room_info, last_sync_time }
}

} // verus!
