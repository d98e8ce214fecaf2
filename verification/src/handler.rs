//! Socket-side decisions: the per-frame routing done by a connection's
//! reader task, and the global connection-count admission check done on
//! upgrade.

use vstd::prelude::*;
use crate::models::{InternalMessage, WsMessage};

verus! {

/// What a connection's reader does with one decoded inbound frame.
#[derive(Debug, PartialEq)]
pub enum InboundAction {
    /// Answer on the spot, without involving the room actor.
    ReplyLocal(WsMessage),
    /// Forward to the room actor's normal-priority port.
    Forward(InternalMessage),
}

/// Routes one decoded frame: a ping is answered locally with a pong carrying
/// the same timestamp and never reaches the actor; every other frame is
/// forwarded unchanged.
pub fn route_inbound_frame(
    frame: WsMessage,
    conn_id: u128,
    user_id: String,
    nickname: String,
    room_id: u128,
) -> (a: InboundAction)
    ensures
        frame matches WsMessage::Ping { timestamp } ==> a == InboundAction::ReplyLocal(
            WsMessage::Pong { timestamp },
        ),
        !(frame matches WsMessage::Ping { .. }) ==> a == InboundAction::Forward(
            InternalMessage { conn_id, user_id, nickname, room_id, content: frame },
        ),
{
    match frame {
        WsMessage::Ping { timestamp } => InboundAction::ReplyLocal(WsMessage::Pong { timestamp }),
        other => InboundAction::Forward(
            InternalMessage { conn_id, user_id, nickname, room_id, content: other },
        ),
    }
}

/// The `UserLeft` notice a reader forwards when its socket closes.
pub fn leave_message(conn_id: u128, user_id: String, nickname: String, room_id: u128) -> (m:
    InternalMessage)
    ensures
        m.conn_id == conn_id,
        m.user_id == user_id,
        m.nickname == nickname,
        m.room_id == room_id,
        m.content == (WsMessage::UserLeft { user_id, nickname }),
{
    let content = WsMessage::UserLeft { user_id: user_id.clone(), nickname: nickname.clone() };
    InternalMessage { conn_id, user_id, nickname, room_id, content }
}

/// The process-wide count of live connections, bounded by the configured
/// maximum.
pub struct ConnectionCounter {
    pub current: u32,
    pub max: u32,
}

/// Witness that one slot of the global connection counter is held. The
/// holder must give it back through [`ConnectionGuard::release`].
#[derive(Debug)]
pub struct ConnectionGuard {
    _private: (),
}

impl ConnectionCounter {
    pub fn new(max: u32) -> (c: ConnectionCounter)
        ensures
            c.current == 0,
            c.max == max,
    {
        ConnectionCounter { current: 0, max }
    }
}

impl ConnectionGuard {
    /// Check-and-increment against the cap: at the cap, the attempt is
    /// refused and the counter does not grow; below it, one slot is taken.
    pub fn new(counter: &mut ConnectionCounter) -> (g: Option<ConnectionGuard>)
        ensures
            final (counter).max == old(counter).max,
            old(counter).current >= old(counter).max ==> g is None && final (counter).current
                == old(counter).current,
            old(counter).current < old(counter).max ==> g is Some && final (counter).current
                == old(counter).current + 1,
    {
        if counter.current >= counter.max {
            None
        } else {
            counter.current = counter.current + 1;
            Some(ConnectionGuard { _private: () })
        }
    }

    /// Gives the slot back; every exit path of a connection does this.
    pub fn release(self, counter: &mut ConnectionCounter)
        requires
            old(counter).current > 0,
        ensures
            final (counter).current == old(counter).current - 1,
            final (counter).max == old(counter).max,
    {
        counter.current = counter.current - 1;
    }
}

} // verus!
