//! The process-wide room registry and the management surface's rules: the
//! admin-key check, room creation and closing, and the admission decision
//! made on a socket upgrade.

use vstd::prelude::*;
use crate::error::AppError;
use crate::handler::{ConnectionCounter, ConnectionGuard};
use crate::ids::{uuid_seq, uuid_string};
use crate::models::{ControlMessage, CreateRoomResponse, ResetAdminsRequest};
use crate::userset::UserSet;
use crate::sys::mint_id;

verus! {

/// The ids of the rooms whose actors are live.
pub struct Registry {
    pub room_ids: Vec<u128>,
}

impl Registry {
    /// No room id occurs twice.
    pub open spec fn wf(self) -> bool {
        forall|i: int, j: int|
            0 <= i < j < self.room_ids@.len() ==> self.room_ids@[i] != self.room_ids@[j]
    }

    pub open spec fn has_room(self, id: u128) -> bool {
        exists|i: int| 0 <= i < self.room_ids@.len() && self.room_ids@[i] == id
    }

    pub fn new() -> (r: Registry)
        ensures
            r.wf(),
            r.room_ids@.len() == 0,
    {
        Registry { room_ids: Vec::new() }
    }

    pub fn contains_room(&self, id: u128) -> (r: bool)
        ensures
            r == self.has_room(id),
    {
        let mut k: usize = 0;
        while k < self.room_ids.len()
            invariant
                k <= self.room_ids.len(),
                forall|i: int| 0 <= i < k ==> self.room_ids@[i] != id,
            decreases self.room_ids.len() - k,
        {
            if self.room_ids[k] == id {
                return true;
            }
            k += 1;
        }
        false
    }

    /// Registers an id and answers with the socket path: a fresh id is
    /// accepted exactly; one already present is refused with the registry
    /// unchanged.
    pub fn register_room(&mut self, id: u128) -> (r: Option<CreateRoomResponse>)
        requires
            old(self).wf(),
        ensures
            final (self).wf(),
            r is Some <==> !old(self).has_room(id),
            r matches Some(resp) ==> {
                &&& resp.room_id == id
                &&& final (self).room_ids@ == old(self).room_ids@.push(id)
                &&& final (self).has_room(id)
                &&& resp.websocket_url@ == "/ws/rooms/"@ + uuid_seq(id)
            },
            r is None ==> *final (self) == *old(self),
    {
        if self.contains_room(id) {
            return None;
        }
        self.room_ids.push(id);
        proof {
            assert forall|i: int, j: int|
                0 <= i < j < self.room_ids@.len() implies self.room_ids@[i]
                != self.room_ids@[j] by {
                if j == old(self).room_ids@.len() as int {
                    assert(old(self).room_ids@[i] != id);
                }
            }
            assert(self.room_ids@[old(self).room_ids@.len() as int] == id);
        }
        let websocket_url = crate::ids::websocket_url(id);
        Some(CreateRoomResponse { room_id: id, websocket_url })
    }

    /// Mints a fresh id and registers it; `register_room` fixes the outcome
    /// for whatever id was drawn. `None` only when the drawn id collides
    /// with a registered one, which the caller reports as an internal fault.
    pub fn create_room(&mut self) -> (r: Option<CreateRoomResponse>)
        requires
            old(self).wf(),
        ensures
            final (self).wf(),
            r matches Some(resp) ==> {
                &&& !old(self).has_room(resp.room_id)
                &&& final (self).room_ids@ == old(self).room_ids@.push(resp.room_id)
                &&& final (self).has_room(resp.room_id)
                &&& resp.websocket_url@ == "/ws/rooms/"@ + uuid_seq(resp.room_id)
            },
            r is None ==> *final (self) == *old(self),
    {
        let id = mint_id();
        self.register_room(id)
    }

    /// Unregisters a room; says whether it was known.
    pub fn remove_room(&mut self, id: u128) -> (found: bool)
        requires
            old(self).wf(),
        ensures
            final (self).wf(),
            found == old(self).has_room(id),
            !found ==> *final (self) == *old(self),
            !final (self).has_room(id),
            forall|x: u128| x != id ==> (final (self).has_room(x) <==> old(self).has_room(x)),
    {
        let mut k: usize = 0;
        while k < self.room_ids.len()
            invariant
                k <= self.room_ids.len(),
                old(self).wf(),
                *self == *old(self),
                forall|i: int| 0 <= i < k ==> self.room_ids@[i] != id,
            decreases self.room_ids.len() - k,
        {
            if self.room_ids[k] == id {
                self.room_ids.remove(k);
                proof {
                    let pre = old(self).room_ids@;
                    assert forall|i: int, j: int|
                        0 <= i < j < self.room_ids@.len() implies self.room_ids@[i]
                        != self.room_ids@[j] by {
                        if j < k {
                            assert(pre[i] != pre[j]);
                        } else if i < k {
                            assert(pre[i] != pre[j + 1]);
                        } else {
                            assert(pre[i + 1] != pre[j + 1]);
                        }
                    }
                    assert forall|i: int|
                        0 <= i < self.room_ids@.len() implies self.room_ids@[i] != id by {
                        if i < k {
                            assert(self.room_ids@[i] == pre[i]);
                        } else {
                            assert(self.room_ids@[i] == pre[i + 1]);
                            assert(pre[k as int] != pre[i + 1]);
                        }
                    }
                    assert forall|x: u128| x != id && final (self).has_room(x) implies old(
                        self,
                    ).has_room(x) by {
                        let i = choose|i: int|
                            0 <= i < self.room_ids@.len() && self.room_ids@[i] == x;
                        if i < k {
                            assert(pre[i] == x);
                        } else {
                            assert(pre[i + 1] == x);
                        }
                    }
                    assert forall|x: u128| x != id && old(self).has_room(x) implies final (
                    self).has_room(x) by {
                        let i = choose|i: int| 0 <= i < pre.len() && pre[i] == x;
                        if i < k {
                            assert(self.room_ids@[i] == x);
                        } else {
                            assert(i != k);
                            assert(self.room_ids@[i - 1] == x);
                        }
                    }
                }
                return true;
            }
            k += 1;
        }
        false
    }
}

/// The control message a reset-admins request becomes: the requested ids as
/// a set, duplicates dropped.
pub fn reset_admins_control(req: ResetAdminsRequest) -> (c: ControlMessage)
    ensures
        c matches ControlMessage::ResetAdmins(s) && s.wf() && forall|u: Seq<char>|
            s@.contains(u) <==> exists|i: int|
                0 <= i < req.admin_user_ids@.len() && req.admin_user_ids@[i]@ == u,
{
    ControlMessage::ResetAdmins(UserSet::from_vec(req.admin_user_ids))
}

/// The admin-key gate on every management path: the caller must present
/// exactly the configured key.
pub fn check_auth(provided: Option<&String>, expected: &String) -> (r: Result<(), AppError>)
    ensures
        r is Ok <==> (provided matches Some(k) && k@ == expected@),
        r matches Err(e) ==> e == AppError::Unauthorized,
{
    match provided {
        Option::Some(k) => {
            if k.eq(expected) {
                Ok(())
            } else {
                Err(AppError::Unauthorized)
            }
        },
        Option::None => Err(AppError::Unauthorized),
    }
}

/// The admission decision on a socket upgrade: at the connection cap the
/// attempt is refused as Service Unavailable and the counter does not grow;
/// an unknown room is refused as Not Found; otherwise one counter slot is
/// taken and the upgrade proceeds.
pub fn ws_admission(counter: &mut ConnectionCounter, room_known: bool, room_id: u128) -> (r:
    Result<ConnectionGuard, AppError>)
    ensures
        final (counter).max == old(counter).max,
        old(counter).current >= old(counter).max ==> (r matches Err(
            AppError::ServiceUnavailable(m),
        ) && m@ == "服务器连接数已达上限"@ && final (counter).current == old(counter).current),
        old(counter).current < old(counter).max && !room_known ==> (r matches Err(
            AppError::NotFound(m),
        ) && m@ == "Room "@ + uuid_seq(room_id) + " not found"@ && final (counter).current == old(
            counter,
        ).current),
        old(counter).current < old(counter).max && room_known ==> r is Ok && final (
        counter).current == old(counter).current + 1,
{
    if counter.current >= counter.max {
        return Err(AppError::ServiceUnavailable("服务器连接数已达上限".to_owned()));
    }
    if !room_known {
        let mut m = "Room ".to_owned();
        let id = uuid_string(room_id);
        m.append(id.as_str());
        m.append(" not found");
        return Err(AppError::NotFound(m));
    }
    match ConnectionGuard::new(counter) {
        Option::Some(g) => Ok(g),
        Option::None => Err(AppError::ServiceUnavailable("服务器连接数已达上限".to_owned())),
    }
}

/// The frame a socket gets when its room is no longer registered after the
/// upgrade.
pub fn room_closed_error_frame() -> (m: crate::models::WsMessage)
    ensures
        m matches crate::models::WsMessage::Error { message } && message@ == "房间已关闭"@,
{
    crate::models::WsMessage::Error { message: "房间已关闭".to_owned() }
}

} // verus!
