use crate::admission::{join_message_text, join_postcondition, Admission};
use crate::dtos::{JoinRequest, JoinResponse, RoomObject, UserObject};
use crate::room::{JoinError, Room};
use crate::room_input_ports::RoomInputPort;
use crate::snapshot::status_text;
use vstd::prelude::*;

verus! {

/// Turns requests as the transport layer hands them over into calls of an
/// input port.
pub struct RoomController<P: RoomInputPort> {
    input_port: P,
}

impl<P: RoomInputPort> RoomController<P> {
    pub fn new(input_port: P) -> (s: Self)
        ensures
            s.input_port() == input_port,
    {
        Self { input_port }
    }

    /// The port that this controller calls.
    pub closed spec fn input_port(self) -> P {
        self.input_port
    }

    /// Lets the request's user join the request's room, under a generated
    /// name, and answers with the outcome in words.
    pub fn handle_join_request(&self, req: JoinRequest) -> (resp: JoinResponse)
        ensures
            exists|r: Result<Admission, JoinError>|
                join_postcondition(req.room_code@, req.user_id@, None::<String>, r)
                    && resp.message@ == #[trigger] join_message_text(
                    r,
                    req.room_code@,
                    req.user_id@,
                ),
    {
        let user = UserObject { id: req.user_id };
        let room = RoomObject { code: req.room_code };
        self.input_port.participate(room, user)
    }

    /// Answers with the status line of a reading of all rooms, under the
    /// port's version stamp.
    pub fn handle_current_status(&self) -> (resp: JoinResponse)
        ensures
            exists|rooms: Seq<Room>|
                resp.message@ == #[trigger] status_text(rooms, self.input_port().stamp_spec()),
    {
        let resp = self.input_port.get_all_room();
        proof {
            let rooms = choose|rooms: Seq<Room>|
                resp.message@ == #[trigger] status_text(rooms, self.input_port.stamp_spec());
            assert(resp.message@ == status_text(rooms, self.input_port().stamp_spec()));
        }
        resp
    }
}

} // verus!
