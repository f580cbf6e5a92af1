use crate::room::{
    count_role, distinct_ids, has_id, joined_by, lemma_count_role_push, lemma_join_keeps_limits,
    members_valid, roster_text, JoinError, Room,
};
use crate::user::{name_chosen, User, UserRole};
use vstd::prelude::*;
use vstd::string::StringExecFns;

verus! {

/// What a successful join hands back: the member as seated, and the room's
/// roster read right after, before anyone else could change it.
#[derive(Debug)]
pub struct Admission {
    pub user: User,
    pub roster: String,
    pub roster_size: usize,
}

/// The role that the next joiner of a room holding `members` gets: an active
/// slot while fewer than two are taken, an observer's seat after that.
/// Observers already present never stand in the way of an active slot.
pub open spec fn next_role(members: Seq<User>) -> UserRole {
    if count_role(members, UserRole::Participant) < UserRole::Participant.capacity_spec() {
        UserRole::Participant
    } else {
        UserRole::Observer
    }
}

/// What a join by `user_id` to a room holding `members` decides: the role
/// granted, or the reason for turning the user away.
pub open spec fn join_decision(members: Seq<User>, user_id: Seq<char>) -> Result<
    UserRole,
    JoinError,
> {
    if has_id(members, user_id) {
        Err(JoinError::DuplicateMember)
    } else if next_role(members) == UserRole::Observer && count_role(members, UserRole::Observer)
        >= UserRole::Observer.capacity_spec() {
        Err(JoinError::RoleCapacityExceeded(UserRole::Observer))
    } else {
        Ok(next_role(members))
    }
}

/// Whether `r` is the outcome of a join by `user_id`, with the display name
/// `name` if one was supplied, to the room `room_name` holding `members`.
pub open spec fn is_join_outcome(
    members: Seq<User>,
    room_name: Seq<char>,
    user_id: Seq<char>,
    name: Option<String>,
    r: Result<Admission, JoinError>,
) -> bool {
    match join_decision(members, user_id) {
        Ok(role) => {
            &&& r is Ok
            &&& r->Ok_0.user.id@ == user_id
            &&& r->Ok_0.user.role == role
            &&& name_chosen(name, r->Ok_0.user.name@)
            &&& r->Ok_0.roster@ == roster_text(room_name, members.push(r->Ok_0.user))
            &&& r->Ok_0.roster_size == members.len() + 1
        },
        Err(e) => r == Err::<Admission, JoinError>(e),
    }
}

/// What the caller is told of the error `e`, met on a join by `user_id` to
/// the room `room_name`.
pub open spec fn error_text(e: JoinError, room_name: Seq<char>, user_id: Seq<char>) -> Seq<char> {
    match e {
        JoinError::InvalidRequest => "Room name and user ID must not be empty."@,
        JoinError::DuplicateMember => "User already exists in the room."@,
        JoinError::RoleCapacityExceeded(role) => "Cannot add user with ID "@ + user_id
            + ". The room already has the maximum number of "@ + role.label_spec() + "."@,
        JoinError::InternalError => "Failed to lock room."@,
        JoinError::RoomNotFound => "Room with name '"@ + room_name + "' does not exist."@,
    }
}

/// The line that answers a join by `user_id` to the room `room_name`: a
/// greeting with the name and role granted and the room's roster, or the
/// error behind `Error: `.
pub open spec fn join_message_text(
    r: Result<Admission, JoinError>,
    room_name: Seq<char>,
    user_id: Seq<char>,
) -> Seq<char> {
    match r {
        Ok(a) => "Hello "@ + a.user.name@ + "! You joined as "@ + a.user.role.label_spec() + ". "@
            + a.roster@,
        Err(e) => "Error: "@ + error_text(e, room_name, user_id),
    }
}

/// What the caller is told of the error `e`, met on a join by `user_id` to
/// the room `room_name`.
pub fn error_message(e: JoinError, room_name: &str, user_id: &str) -> (text: String)
    ensures
        text@ == error_text(e, room_name@, user_id@),
{
    match e {
        JoinError::InvalidRequest => String::from_str("Room name and user ID must not be empty."),
        JoinError::DuplicateMember => String::from_str("User already exists in the room."),
        JoinError::RoleCapacityExceeded(role) => {
            let mut text = String::from_str("Cannot add user with ID ");
            text.append(user_id);
            text.append(". The room already has the maximum number of ");
            text.append(role.label().as_str());
            text.append(".");
            text
        },
        JoinError::InternalError => String::from_str("Failed to lock room."),
        JoinError::RoomNotFound => {
            let mut text = String::from_str("Room with name '");
            text.append(room_name);
            text.append("' does not exist.");
            text
        },
    }
}

/// The line that answers a join by `user_id` to the room `room_name`.
pub fn join_message(r: &Result<Admission, JoinError>, room_name: &str, user_id: &str) -> (text:
    String)
    ensures
        text@ == join_message_text(*r, room_name@, user_id@),
{
    match r {
        Ok(a) => {
            let mut text = String::from_str("Hello ");
            text.append(a.user.name.as_str());
            text.append("! You joined as ");
            text.append(a.user.role.label().as_str());
            text.append(". ");
            text.append(a.roster.as_str());
            text
        },
        Err(e) => {
            let mut text = String::from_str("Error: ");
            text.append(error_message(*e, room_name, user_id).as_str());
            text
        },
    }
}

/// Whether a join request names both a room and a user.
pub open spec fn request_valid(room_name: Seq<char>, user_id: Seq<char>) -> bool {
    room_name.len() > 0 && user_id.len() > 0
}

/// What holds of the outcome `r` of a join by `user_id` to the room called
/// `room_name`, whatever the room held when its lock was taken.
///
/// A request without a room name or a user id is answered with
/// `InvalidRequest`, and nothing else is. Any other request ends in
/// `InternalError`, where the room's lock was poisoned, or in the outcome that
/// the room's members at that moment call for.
pub open spec fn join_postcondition(
    room_name: Seq<char>,
    user_id: Seq<char>,
    name: Option<String>,
    r: Result<Admission, JoinError>,
) -> bool {
    if !request_valid(room_name, user_id) {
        r == Err::<Admission, JoinError>(JoinError::InvalidRequest)
    } else {
        ||| r == Err::<Admission, JoinError>(JoinError::InternalError)
        ||| exists|members: Seq<User>, stored_name: Seq<char>| #[trigger]
            is_join_outcome(members, stored_name, user_id, name, r)
    }
}

/// Rejects a request whose room name or user id is empty.
pub fn validate_request(room_name: &str, user_id: &str) -> (r: Result<(), JoinError>)
    ensures
        request_valid(room_name@, user_id@) ==> r is Ok,
        !request_valid(room_name@, user_id@) ==> r == Err::<(), JoinError>(
            JoinError::InvalidRequest,
        ),
{
    if room_name.is_empty() || user_id.is_empty() {
        Err(JoinError::InvalidRequest)
    } else {
        Ok(())
    }
}

/// The role that the next joiner of `room` gets.
pub fn assign_role(room: &Room) -> (role: UserRole)
    ensures
        role == next_role(room.participants@),
{
    if room.count_by_role(UserRole::Participant) < UserRole::Participant.capacity() {
        UserRole::Participant
    } else {
        UserRole::Observer
    }
}

/// Decides the role of `user_id`, adds the user to `room` and reads the
/// roster, all on the one room value that the caller holds.
///
/// A rejected join leaves the room as it was.
pub fn join_room(room: &mut Room, user_id: String, name: Option<String>) -> (r: Result<
    Admission,
    JoinError,
>)
    ensures
        is_join_outcome(old(room).participants@, old(room).room_name@, user_id@, name, r),
        final(room).room_name == old(room).room_name,
        r is Ok ==> final(room).participants@ == old(room).participants@.push(r->Ok_0.user),
        r is Ok ==> final(room).participants@ == seated(old(room).participants@, r->Ok_0.user),
        r is Err ==> final(room).participants@ == old(room).participants@,
        old(room).wf() ==> final(room).wf(),
{
    let role = assign_role(room);
    let user = User::with_role(user_id, name, role);
    let joined = user.clone();
    match room.add_participant(user) {
        Ok(()) => {
            let roster = room.list_participants();
            let roster_size = room.participant_count();
            Ok(Admission { user: joined, roster, roster_size })
        },
        Err(e) => Err(e),
    }
}

/// The members after a join attempt by `user`, whose role is the one that
/// the room assigns: with the user at the end where the join succeeds,
/// unchanged where it fails.
pub open spec fn seated(members: Seq<User>, user: User) -> Seq<User> {
    match join_decision(members, user.id@) {
        Ok(role) => members.push(User { id: user.id, name: user.name, role }),
        Err(_) => members,
    }
}

/// The members of a room that held `members` when `users` came to join it,
/// one after the other.
pub open spec fn seated_from(members: Seq<User>, users: Seq<User>) -> Seq<User>
    decreases users.len(),
{
    if users.len() == 0 {
        members
    } else {
        seated(seated_from(members, users.drop_last()), users.last())
    }
}

/// The members of a room that was empty when `users` came to join it, one
/// after the other.
pub open spec fn seated_all(users: Seq<User>) -> Seq<User> {
    seated_from(Seq::<User>::empty(), users)
}

/// The role of the joiner that arrives when `k` distinct users are seated in
/// a room that started empty.
pub open spec fn role_by_arrival(k: int) -> UserRole {
    if k < 2 {
        UserRole::Participant
    } else {
        UserRole::Observer
    }
}

/// A join through the room's own role assignment is an attempt to add that
/// user in the assigned role.
pub proof fn lemma_seated_is_joined(members: Seq<User>, user: User)
    ensures
        seated(members, user) == joined_by(
            members,
            User { id: user.id, name: user.name, role: next_role(members) },
        ),
{
}

/// A join keeps a room within its limits, whether the user gets in or not:
/// at most two participants, at most eight observers, no id twice.
pub proof fn lemma_seating_keeps_limits(members: Seq<User>, user: User)
    requires
        members_valid(members),
    ensures
        members_valid(seated(members, user)),
{
    lemma_seated_is_joined(members, user);
    lemma_join_keeps_limits(
        members,
        User { id: user.id, name: user.name, role: next_role(members) },
    );
}

/// Whoever comes to join, in whatever order and however often, a room that
/// starts within its limits is within them after every join: never more than
/// two participants, never more than eight observers, no id twice.
pub proof fn lemma_joins_keep_room_within_limits(members: Seq<User>, users: Seq<User>)
    requires
        members_valid(members),
    ensures
        members_valid(seated_from(members, users)),
        count_role(seated_from(members, users), UserRole::Participant) <= 2,
        count_role(seated_from(members, users), UserRole::Observer) <= 8,
    decreases users.len(),
{
    if users.len() > 0 {
        lemma_joins_keep_room_within_limits(members, users.drop_last());
        lemma_seating_keeps_limits(seated_from(members, users.drop_last()), users.last());
    }
}

/// Joins never remove anyone: a user id that is a member stays one.
pub proof fn lemma_seated_member_stays(members: Seq<User>, users: Seq<User>, id: Seq<char>)
    requires
        has_id(members, id),
    ensures
        has_id(seated_from(members, users), id),
    decreases users.len(),
{
    if users.len() > 0 {
        let before = seated_from(members, users.drop_last());
        lemma_seated_member_stays(members, users.drop_last(), id);
        let i = choose|i: int| 0 <= i < before.len() && (#[trigger] before[i]).id@ == id;
        assert(seated(before, users.last())[i].id@ == id);
    }
}

/// A user id that has joined a room cannot join it again. However many
/// joins came in between, the second attempt is answered with
/// `DuplicateMember`, and the room has as many members after it as before.
pub proof fn lemma_joined_once_never_again(
    members: Seq<User>,
    first: User,
    between: Seq<User>,
    again: User,
)
    requires
        join_decision(members, first.id@) is Ok,
        again.id@ == first.id@,
    ensures
        join_decision(seated_from(seated(members, first), between), again.id@) == Err::<
            UserRole,
            JoinError,
        >(JoinError::DuplicateMember),
        seated(seated_from(seated(members, first), between), again) == seated_from(
            seated(members, first),
            between,
        ),
{
    let once = seated(members, first);
    assert(once[members.len() as int].id@ == first.id@);
    lemma_seated_member_stays(once, between, first.id@);
}

/// Roles go by order of arrival. Where users with distinct ids join an empty
/// room one after the other, the first two become participants, the next
/// eight observers, and whoever comes after the tenth is turned away: the
/// members are the first ten arrivals, in order, each in the role of its
/// place.
pub proof fn lemma_roles_by_arrival(users: Seq<User>)
    requires
        distinct_ids(users),
    ensures
        seated_all(users).len() == if users.len() <= 10 {
            users.len()
        } else {
            10
        },
        forall|k: int|
            0 <= k < seated_all(users).len() ==> {
                &&& (#[trigger] seated_all(users)[k]).id == users[k].id
                &&& seated_all(users)[k].name == users[k].name
                &&& seated_all(users)[k].role == role_by_arrival(k)
            },
        count_role(seated_all(users), UserRole::Participant) == if users.len() <= 2 {
            users.len()
        } else {
            2
        },
        count_role(seated_all(users), UserRole::Observer) == if users.len() <= 2 {
            0
        } else if users.len() <= 10 {
            users.len() - 2
        } else {
            8
        },
    decreases users.len(),
{
    if users.len() > 0 {
        let earlier = users.drop_last();
        let last = users.last();
        assert(distinct_ids(earlier));
        lemma_roles_by_arrival(earlier);
        let before = seated_all(earlier);
        assert(seated_all(users) == seated(before, last));
        assert(!has_id(before, last.id@)) by {
            if has_id(before, last.id@) {
                let i = choose|i: int| 0 <= i < before.len() && (#[trigger] before[i]).id@ == last.id@;
                assert(before[i].id == users[i].id);
                assert(users[i].id@ != users[users.len() - 1].id@);
            }
        }
        let placed = User { id: last.id, name: last.name, role: next_role(before) };
        lemma_count_role_push(before, placed, UserRole::Participant);
        lemma_count_role_push(before, placed, UserRole::Observer);
    }
}

} // verus!
