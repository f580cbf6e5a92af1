use crate::text::{decimal_text, joined, lemma_joined_step, push_decimal};
use crate::user::{User, UserRole};
use vstd::prelude::*;
use vstd::std_specs::cmp::PartialEqSpecImpl;
use vstd::string::StringExecFns;

verus! {

/// Why a join did not add a member.
#[derive(Debug, Clone, Copy, PartialEq, Eq, Structural)]
pub enum JoinError {
    /// The room name or the user id was empty.
    InvalidRequest,
    /// The user id is already a member of the room.
    DuplicateMember,
    /// The room already holds as many members of this role as it admits.
    RoleCapacityExceeded(UserRole),
    /// The room's lock could not be taken.
    InternalError,
    /// No room of that name is registered.
    RoomNotFound,
}

/// A named room and its members, in the order in which they joined.
///
/// Two rooms are the same room when their names match.
#[derive(Debug)]
pub struct Room {
    pub room_name: String,
    pub participants: Vec<User>,
}

/// How many of `members` hold `role`.
pub open spec fn count_role(members: Seq<User>, role: UserRole) -> nat
    decreases members.len(),
{
    if members.len() == 0 {
        0
    } else {
        count_role(members.drop_last(), role) + if members.last().role == role {
            1nat
        } else {
            0nat
        }
    }
}

/// Whether one of `members` has the id `id`.
pub open spec fn has_id(members: Seq<User>, id: Seq<char>) -> bool {
    exists|i: int| 0 <= i < members.len() && (#[trigger] members[i]).id@ == id
}

/// Whether no two of `members` share an id.
pub open spec fn distinct_ids(members: Seq<User>) -> bool {
    forall|i: int, j: int|
        0 <= i < j < members.len() ==> (#[trigger] members[i]).id@ != (#[trigger] members[j]).id@
}

/// Whether `members` respects both role limits and holds no id twice.
pub open spec fn members_valid(members: Seq<User>) -> bool {
    &&& count_role(members, UserRole::Participant) <= UserRole::Participant.capacity_spec()
    &&& count_role(members, UserRole::Observer) <= UserRole::Observer.capacity_spec()
    &&& distinct_ids(members)
}

/// The display names of `members`, in order.
pub open spec fn names_of(members: Seq<User>) -> Seq<Seq<char>> {
    members.map_values(|u: User| u.name@)
}

/// The roster line of a room called `room_name` that holds `members`.
pub open spec fn roster_text(room_name: Seq<char>, members: Seq<User>) -> Seq<char> {
    if members.len() == 0 {
        "No participants in this room."@
    } else {
        room_name + " has "@ + decimal_text(members.len()) + " participant(s): "@ + joined(
            names_of(members),
            ", "@,
        )
    }
}

/// What adding `user` to `members` gives: the error, or the members with
/// `user` at the end. An id that is already present is reported before a
/// full role.
pub open spec fn added(members: Seq<User>, user: User) -> Result<Seq<User>, JoinError> {
    if has_id(members, user.id@) {
        Err(JoinError::DuplicateMember)
    } else if count_role(members, user.role) >= user.role.capacity_spec() {
        Err(JoinError::RoleCapacityExceeded(user.role))
    } else {
        Ok(members.push(user))
    }
}

/// The members after an attempt to add `user`: with `user` at the end where
/// the attempt succeeds, unchanged where it fails.
pub open spec fn joined_by(members: Seq<User>, user: User) -> Seq<User> {
    match added(members, user) {
        Ok(after) => after,
        Err(_) => members,
    }
}

/// The members after attempts to add each of `users` in turn.
pub open spec fn after_joins(members: Seq<User>, users: Seq<User>) -> Seq<User>
    decreases users.len(),
{
    if users.len() == 0 {
        members
    } else {
        joined_by(after_joins(members, users.drop_last()), users.last())
    }
}

/// Counting over one member more adds that member where the role matches.
pub proof fn lemma_count_role_push(members: Seq<User>, user: User, role: UserRole)
    ensures
        count_role(members.push(user), role) == count_role(members, role) + if user.role
            == role {
            1nat
        } else {
            0nat
        },
{
    assert(members.push(user).drop_last() =~= members);
}

/// One attempt to add a user keeps a room within its limits: at most two
/// participants, at most eight observers, no id twice.
pub proof fn lemma_join_keeps_limits(members: Seq<User>, user: User)
    requires
        members_valid(members),
    ensures
        members_valid(joined_by(members, user)),
{
    lemma_count_role_push(members, user, UserRole::Participant);
    lemma_count_role_push(members, user, UserRole::Observer);
}

/// Whatever users try to join, in whatever order and however often, a room
/// that starts within its limits is within them after every attempt: never
/// more than two participants, never more than eight observers, no id twice.
pub proof fn lemma_joins_keep_limits(members: Seq<User>, users: Seq<User>)
    requires
        members_valid(members),
    ensures
        members_valid(after_joins(members, users)),
        count_role(after_joins(members, users), UserRole::Participant) <= 2,
        count_role(after_joins(members, users), UserRole::Observer) <= 8,
    decreases users.len(),
{
    if users.len() > 0 {
        lemma_joins_keep_limits(members, users.drop_last());
        lemma_join_keeps_limits(after_joins(members, users.drop_last()), users.last());
    }
}

/// A room without members is within its limits, so every room that grew
/// from an empty one by joins is.
pub proof fn lemma_joins_from_empty_keep_limits(users: Seq<User>)
    ensures
        members_valid(after_joins(Seq::<User>::empty(), users)),
        count_role(after_joins(Seq::<User>::empty(), users), UserRole::Participant) <= 2,
        count_role(after_joins(Seq::<User>::empty(), users), UserRole::Observer) <= 8,
{
    lemma_joins_keep_limits(Seq::<User>::empty(), users);
}

/// Joins never remove anyone: an id that is a member stays one.
pub proof fn lemma_member_stays(members: Seq<User>, users: Seq<User>, id: Seq<char>)
    requires
        has_id(members, id),
    ensures
        has_id(after_joins(members, users), id),
        after_joins(members, users).len() >= members.len(),
    decreases users.len(),
{
    if users.len() > 0 {
        let before = after_joins(members, users.drop_last());
        lemma_member_stays(members, users.drop_last(), id);
        let i = choose|i: int| 0 <= i < before.len() && (#[trigger] before[i]).id@ == id;
        let after = joined_by(before, users.last());
        assert(after[i].id@ == id);
    }
}

/// A user id that has joined a room cannot join it again: however many
/// joins came in between, the second attempt is answered with
/// `DuplicateMember` and leaves the members as they were.
pub proof fn lemma_no_second_join(members: Seq<User>, first: User, between: Seq<User>, again: User)
    requires
        added(members, first) is Ok,
        again.id@ == first.id@,
    ensures
        added(after_joins(joined_by(members, first), between), again) == Err::<
            Seq<User>,
            JoinError,
        >(JoinError::DuplicateMember),
        joined_by(after_joins(joined_by(members, first), between), again) == after_joins(
            joined_by(members, first),
            between,
        ),
{
    let once = joined_by(members, first);
    assert(once[members.len() as int].id@ == first.id@);
    lemma_member_stays(once, between, first.id@);
}

impl Clone for Room {
    fn clone(&self) -> (r: Room)
        ensures
            r.room_name == self.room_name,
            r.participants@ == self.participants@,
    {
        let mut participants: Vec<User> = Vec::new();
        let mut i: usize = 0;
        while i < self.participants.len()
            invariant
                i <= self.participants@.len(),
                participants@ == self.participants@.take(i as int),
            decreases self.participants@.len() - i,
        {
            participants.push(self.participants[i].clone());
            assert(self.participants@.take(i + 1) =~= self.participants@.take(i as int).push(
                self.participants@[i as int],
            ));
            i += 1;
        }
        assert(self.participants@.take(i as int) =~= self.participants@);
        Room { room_name: self.room_name.clone(), participants }
    }
}

impl PartialEq for Room {
    fn eq(&self, other: &Room) -> (r: bool) {
        self.room_name == other.room_name
    }
}

impl Eq for Room {

}

impl PartialEqSpecImpl for Room {
    open spec fn obeys_eq_spec() -> bool {
        true
    }

    open spec fn eq_spec(&self, other: &Room) -> bool {
        self.room_name@ == other.room_name@
    }
}

impl Room {
    /// Whether the room respects both role limits and holds no id twice.
    pub open spec fn wf(self) -> bool {
        members_valid(self.participants@)
    }

    /// An empty room called `room_name`.
    pub fn new(room_name: String) -> (room: Room)
        ensures
            room.room_name == room_name,
            room.participants@.len() == 0,
            room.wf(),
    {
        Room { room_name, participants: Vec::new() }
    }

    /// The number of members, whatever their role.
    pub fn participant_count(&self) -> (n: usize)
        ensures
            n == self.participants@.len(),
    {
        self.participants.len()
    }

    /// The number of members that hold `role`.
    pub fn count_by_role(&self, role: UserRole) -> (n: usize)
        ensures
            n == count_role(self.participants@, role),
    {
        let mut n: usize = 0;
        let mut i: usize = 0;
        while i < self.participants.len()
            invariant
                i <= self.participants@.len(),
                n == count_role(self.participants@.take(i as int), role),
                n <= i,
            decreases self.participants@.len() - i,
        {
            proof {
                let next = self.participants@.take(i + 1);
                assert(next.drop_last() =~= self.participants@.take(i as int));
                assert(next.last() == self.participants@[i as int]);
            }
            if self.participants[i].role == role {
                n += 1;
            }
            i += 1;
        }
        assert(self.participants@.take(i as int) =~= self.participants@);
        n
    }

    /// Whether a member has the id `id`.
    pub fn has_member(&self, id: &String) -> (found: bool)
        ensures
            found == has_id(self.participants@, id@),
    {
        let mut i: usize = 0;
        while i < self.participants.len()
            invariant
                i <= self.participants@.len(),
                forall|k: int| 0 <= k < i ==> (#[trigger] self.participants@[k]).id@ != id@,
            decreases self.participants@.len() - i,
        {
            if self.participants[i].id == *id {
                return true;
            }
            i += 1;
        }
        false
    }

    /// Adds `user` at the end of the members.
    ///
    /// Fails with `DuplicateMember` where the id is already a member, and
    /// with `RoleCapacityExceeded` where the id is new and the user's role is
    /// full. A failed call leaves the room as it was.
    pub fn add_participant(&mut self, user: User) -> (r: Result<(), JoinError>)
        ensures
            final(self).room_name == old(self).room_name,
            match added(old(self).participants@, user) {
                Ok(members) => r is Ok && final(self).participants@ == members,
                Err(e) => r == Err::<(), JoinError>(e) && final(self).participants@ == old(
                    self,
                ).participants@,
            },
            final(self).participants@ == joined_by(old(self).participants@, user),
            old(self).wf() ==> final(self).wf(),
    {
        if self.has_member(&user.id) {
            return Err(JoinError::DuplicateMember);
        }
        if self.count_by_role(user.role) >= user.role.capacity() {
            return Err(JoinError::RoleCapacityExceeded(user.role));
        }
        proof {
            let before = self.participants@;
            lemma_count_role_push(before, user, UserRole::Participant);
            lemma_count_role_push(before, user, UserRole::Observer);
        }
        self.participants.push(user);
        Ok(())
    }

    /// The roster line: the room's name, the number of members and their
    /// display names in joining order, or a fixed sentence for an empty room.
    pub fn list_participants(&self) -> (s: String)
        ensures
            s@ == roster_text(self.room_name@, self.participants@),
    {
        if self.participants.len() == 0 {
            return String::from_str("No participants in this room.");
        }
        let mut s = self.room_name.clone();
        s.append(" has ");
        push_decimal(&mut s, self.participants.len());
        s.append(" participant(s): ");
        let ghost head = s@;
        let ghost names = names_of(self.participants@);
        let mut i: usize = 0;
        while i < self.participants.len()
            invariant
                i <= self.participants@.len(),
                names == names_of(self.participants@),
                s@ == head + joined(names.take(i as int), ", "@),
            decreases self.participants@.len() - i,
        {
            proof {
                lemma_joined_step(head, names, ", "@, i as int);
            }
            if i > 0 {
                s.append(", ");
            }
            s.append(self.participants[i].name.as_str());
            i += 1;
        }
        assert(names.take(i as int) =~= names);
        s
    }
}

} // verus!
