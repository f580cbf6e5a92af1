use crate::admission::{join_message_text, join_postcondition, Admission};
use crate::dtos::{JoinRequest, JoinResponse};
use crate::room::{JoinError, Room};
use crate::room_controller::RoomController;
use crate::room_interactor::RoomInteractor;
use crate::room_repository::{RoomRepository, RoomRepositoryImpl};
use crate::snapshot::status_text;
use vstd::prelude::*;

verus! {

/// A controller over an interactor over `repository`.
pub fn create_controller<R: RoomRepository>(repository: R) -> (c: RoomController<RoomInteractor<R>>)
    ensures
        c.input_port().repository() == repository,
{
    let interactor = RoomInteractor::new(repository);
    RoomController::new(interactor)
}

/// Serves a join request against `repository`.
pub fn handle_room(repository: RoomRepositoryImpl, req: JoinRequest) -> (resp: JoinResponse)
    ensures
        exists|r: Result<Admission, JoinError>|
            join_postcondition(req.room_code@, req.user_id@, None::<String>, r) && resp.message@
                == #[trigger] join_message_text(r, req.room_code@, req.user_id@),
{
    let controller = create_controller(repository);
    controller.handle_join_request(req)
}

/// Serves a status request against `repository`: the status line of a
/// reading of all rooms, under the repository's version stamp.
pub fn handle_current_rooms(repository: RoomRepositoryImpl) -> (resp: JoinResponse)
    ensures
        exists|rooms: Seq<Room>|
            resp.message@ == #[trigger] status_text(rooms, repository.version_spec()),
{
    let controller = create_controller(repository);
    controller.handle_current_status()
}

} // verus!
