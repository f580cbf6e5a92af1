use crate::room::Room;
use vstd::prelude::*;
use vstd::std_specs::convert::FromSpecImpl;

verus! {

/// A request to join a room.
#[derive(Debug)]
pub struct JoinRequest {
    pub user_id: String,
    pub room_code: String,
}

/// The answer to a request: one line of text.
#[derive(Debug)]
pub struct JoinResponse {
    pub message: String,
}

/// The room that a request is about.
#[derive(Debug)]
pub struct RoomObject {
    pub code: String,
}

/// The user that a request comes from.
#[derive(Debug)]
pub struct UserObject {
    pub id: String,
}

impl From<JoinRequest> for Room {
    /// The empty room that the request names.
    fn from(req: JoinRequest) -> (room: Room)
        ensures
            room.room_name == req.room_code,
            room.participants@.len() == 0,
    {
        Room::new(req.room_code)
    }
}

/// The conversion is stated on `from` itself, over the room's name and
/// members, so no value is singled out here.
impl FromSpecImpl<JoinRequest> for Room {
    open spec fn obeys_from_spec() -> bool {
        false
    }

    open spec fn from_spec(req: JoinRequest) -> Room {
        arbitrary()
    }
}

} // verus!
