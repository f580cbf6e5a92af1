use crate::admission::{
    is_join_outcome, join_message, join_postcondition, join_room, validate_request, Admission,
};
use crate::dtos::{JoinResponse, RoomObject, UserObject};
use crate::room::{JoinError, Room};
use crate::room_input_ports::RoomInputPort;
use crate::room_repository::{distinct_names, guarded, locked_room, RoomRepository};
use crate::user::User;
use crate::snapshot::{status_text, Snapshot};
use std::sync::Arc;
use std::sync::LockResult;
use std::sync::Mutex;
use std::sync::MutexGuard;
use vstd::prelude::*;

verus! {

/// Admission to rooms and status reporting, over a store of rooms.
pub struct RoomInteractor<R: RoomRepository> {
    repository: R,
}

/// Decides the role of `user_id`, adds the user to the room that `guard`
/// protects and reads the roster, as `join_room` does on a room. A room
/// within its limits stays within them.
pub fn join_guarded(guard: &mut MutexGuard<'_, Room>, user_id: &str, name: Option<String>) -> (r:
    Result<Admission, JoinError>)
    ensures
        is_join_outcome(
            guarded(*old(guard)).participants@,
            guarded(*old(guard)).room_name@,
            user_id@,
            name,
            r,
        ),
        guarded(*final(guard)).room_name == guarded(*old(guard)).room_name,
        r is Ok ==> guarded(*final(guard)).participants@ == guarded(
            *old(guard),
        ).participants@.push(r->Ok_0.user),
        r is Err ==> guarded(*final(guard)).participants@ == guarded(*old(guard)).participants@,
        guarded(*old(guard)).wf() ==> guarded(*final(guard)).wf(),
{
    join_room(locked_room(guard), user_id.to_owned(), name)
}

/// Lets `user_id` join the room whose lock was asked for, given what the
/// lock answered: a poisoned lock ends in `InternalError` and leaves the room
/// alone; otherwise the outcome is that of a join to the room that the guard
/// protects. The lock is released on return.
pub fn join_under_lock(
    locked: LockResult<MutexGuard<'_, Room>>,
    user_id: &str,
    name: Option<String>,
) -> (r: Result<Admission, JoinError>)
    ensures
        locked is Err ==> r == Err::<Admission, JoinError>(JoinError::InternalError),
        locked is Ok ==> is_join_outcome(
            guarded(locked->Ok_0).participants@,
            guarded(locked->Ok_0).room_name@,
            user_id@,
            name,
            r,
        ),
{
    match locked {
        Err(_) => Err(JoinError::InternalError),
        Ok(mut guard) => join_guarded(&mut guard, user_id, name),
    }
}

/// Takes the lock of the room behind `handle` and, holding it, decides the
/// role of `user_id`, adds the user and reads the roster. A poisoned lock
/// ends the join with `InternalError` before the room is touched.
///
/// A caller that holds the room's guard does not return from this call.
pub fn join_handle(handle: &Arc<Mutex<Room>>, user_id: &str, name: Option<String>) -> (r: Result<
    Admission,
    JoinError,
>)
    ensures
        r == Err::<Admission, JoinError>(JoinError::InternalError) || exists|
            members: Seq<User>,
            stored_name: Seq<char>,
        | #[trigger] is_join_outcome(members, stored_name, user_id@, name, r),
{
    let locked = handle.lock();
    let ghost seen = locked;
    let r = join_under_lock(locked, user_id, name);
    proof {
        if seen is Ok {
            assert(is_join_outcome(
                guarded(seen->Ok_0).participants@,
                guarded(seen->Ok_0).room_name@,
                user_id@,
                name,
                r,
            ));
        }
    }
    r
}

impl<R: RoomRepository> RoomInteractor<R> {
    pub fn new(repository: R) -> (s: Self)
        ensures
            s.repository() == repository,
    {
        Self { repository }
    }

    /// The store that this interactor works against.
    pub closed spec fn repository(self) -> R {
        self.repository
    }

    /// Lets the user `user_id` join the room `room_name`, which is created
    /// if no room bears that name yet. The user goes by `name` or, without
    /// one, by a generated name.
    ///
    /// A caller that holds the guard of that room does not return from this
    /// call.
    pub fn join(&self, room_name: &str, user_id: &str, name: Option<String>) -> (r: Result<
        Admission,
        JoinError,
    >)
        ensures
            join_postcondition(room_name@, user_id@, name, r),
    {
        match validate_request(room_name, user_id) {
            Err(e) => Err(e),
            Ok(()) => {
                let handle = self.repository.create_room(room_name);
                join_handle(&handle, user_id, name)
            },
        }
    }

    /// A reading of all rooms with the store's version stamp: one room for
    /// each entry of a listing of the store, in which no name comes twice
    /// and every handle is the one kept under its name. Each room is read
    /// under its own lock; the rooms are not read at one instant. A
    /// caller that holds the guard of a registered room does not return from
    /// this call.
    pub fn snapshot(&self) -> (s: Snapshot)
        ensures
            s.version@ == self.repository().version_spec(),
            exists|entries: Seq<(String, Arc<Mutex<Room>>)>|
                #[trigger] distinct_names(entries) && s.rooms@.len() == entries.len() && (forall|
                    i: int,
                |
                    0 <= i < entries.len() ==> (#[trigger] entries[i]).1
                        == self.repository().room_of(entries[i].0@)),
    {
        let rooms = self.repository.get_all_repository();
        let version = self.repository.get_version();
        Snapshot { version, rooms }
    }
}

impl<R: RoomRepository> RoomInputPort for RoomInteractor<R> {
    open spec fn stamp_spec(&self) -> Seq<char> {
        self.repository().version_spec()
    }

    fn participate(&self, room: RoomObject, user: UserObject) -> (resp: JoinResponse) {
        let r = self.join(room.code.as_str(), user.id.as_str(), None);
        let message = join_message(&r, room.code.as_str(), user.id.as_str());
        JoinResponse { message }
    }

    fn get_all_room(&self) -> (resp: JoinResponse) {
        let snapshot = self.snapshot();
        let message = snapshot.status_message();
        assert(message@ == status_text(snapshot.rooms@, self.stamp_spec()));
        JoinResponse { message }
    }
}

} // verus!
