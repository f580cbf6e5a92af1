use crate::admission::{join_message_text, join_postcondition};
use crate::dtos::{JoinResponse, RoomObject, UserObject};
use crate::snapshot::status_text;
use vstd::prelude::*;

verus! {

/// What the transport layer may ask of the rooms. Both requests take room
/// locks, one at a time: a caller that holds the guard of a room concerned
/// does not return from them.
pub trait RoomInputPort {
    /// The version stamp that status lines carry.
    spec fn stamp_spec(&self) -> Seq<char>;

    /// Lets `user` join `room` and answers with the outcome in words: the
    /// line for some outcome that a join with these arguments can have.
    fn participate(&self, room: RoomObject, user: UserObject) -> (resp: JoinResponse)
        ensures
            exists|r: Result<crate::admission::Admission, crate::room::JoinError>|
                join_postcondition(room.code@, user.id@, None::<String>, r) && resp.message@
                    == #[trigger] join_message_text(r, room.code@, user.id@),
    ;

    /// Answers with the status line of some reading of all rooms, under
    /// the version stamp.
    fn get_all_room(&self) -> (resp: JoinResponse)
        ensures
            exists|rooms: Seq<crate::room::Room>|
                resp.message@ == #[trigger] status_text(rooms, self.stamp_spec()),
    ;
}

} // verus!
