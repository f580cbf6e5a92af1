use crate::room::{added, joined_by, JoinError, Room};
use crate::text::letters_of;
use crate::user::User;
use dashmap::DashMap;
use rand::distributions::Alphanumeric;
use rand::Rng;
use std::sync::Arc;
use std::sync::Mutex;
use std::sync::LockResult;
use std::sync::MutexGuard;
use std::sync::PoisonError;
use vstd::prelude::*;

verus! {

/// `std::sync::Mutex`, carried as an opaque value.
#[verifier::external_type_specification]
#[verifier::external_body]
#[verifier::reject_recursive_types(T)]
pub struct ExMutex<T: ?Sized>(Mutex<T>);

/// `std::sync::MutexGuard`, carried as an opaque value.
#[verifier::external_type_specification]
#[verifier::external_body]
#[verifier::reject_recursive_types(T)]
pub struct ExMutexGuard<'a, T: ?Sized + 'a>(MutexGuard<'a, T>);

/// `std::sync::PoisonError`, carried as an opaque value.
#[verifier::external_type_specification]
#[verifier::external_body]
#[verifier::reject_recursive_types(T)]
pub struct ExPoisonError<T>(PoisonError<T>);

/// `dashmap::DashMap`, carried as an opaque value. It is shared between
/// threads and changed through `&self`, so what it holds at a given moment
/// is not stated; what is stated is which handle it keeps under a name, which
/// never changes.
#[verifier::external_type_specification]
#[verifier::external_body]
#[verifier::reject_recursive_types(K)]
#[verifier::reject_recursive_types(V)]
#[verifier::reject_recursive_types(S)]
pub struct ExDashMap<K, V, S>(DashMap<K, V, S>);

/// Number of characters in a registry's version stamp.
pub const VERSION_LEN: usize = 8;

/// Whether `c` is an ASCII letter or digit.
pub open spec fn is_alphanumeric(c: char) -> bool {
    ('0' <= c && c <= '9') || ('A' <= c && c <= 'Z') || ('a' <= c && c <= 'z')
}

/// Whether `v` has the shape of a version stamp: eight ASCII letters or
/// digits.
pub open spec fn is_version_stamp(v: Seq<char>) -> bool {
    &&& v.len() == VERSION_LEN
    &&& forall|i: int| 0 <= i < v.len() ==> is_alphanumeric(#[trigger] v[i])
}

/// Draws a byte with `rand::Rng::sample` from `rand::distributions::Alphanumeric`
/// on the thread-local generator. The byte is an ASCII letter or digit; which
/// one is left open.
#[verifier::external_body]
pub(crate) fn random_alphanumeric() -> (b: u8)
    ensures
        (48 <= b <= 57) || (65 <= b <= 90) || (97 <= b <= 122),
{
    rand::thread_rng().sample(Alphanumeric)
}

/// The room that a mutex was made to protect: the value handed to
/// `std::sync::Mutex::new` when the mutex was made. It says nothing of what
/// the mutex protects later on, which every holder of its lock may change.
pub uninterp spec fn room_made_with(cell: Mutex<Room>) -> Room;

/// `std::sync::Mutex::new`: a new, unlocked mutex that protects `room`.
#[verifier::external_body]
pub(crate) fn mutex_new(room: Room) -> (cell: Mutex<Room>)
    ensures
        room_made_with(cell) == room,
{
    Mutex::new(room)
}

/// `std::sync::Mutex::lock`: waits for the lock and hands back its guard, or
/// an error that carries the guard where an earlier holder failed while it
/// held the lock. Nothing is stated of what the guard protects: other
/// holders of the lock may have changed it.
///
/// The standard library leaves open what happens where the calling thread
/// already holds this lock; callers here take one room lock at a time.
pub assume_specification<'a, T: ?Sized>[ Mutex::<T>::lock ](m: &'a Mutex<T>) -> (r: LockResult<
    MutexGuard<'a, T>,
>);

/// `std::sync::PoisonError::into_inner`: the guard that a poisoned lock's
/// error carries.
pub assume_specification<T>[ PoisonError::<T>::into_inner ](e: PoisonError<T>) -> (t: T);

/// The room that a guard protects. While the guard lives nobody else reaches
/// that room, so it changes only through the guard.
pub uninterp spec fn guarded(guard: MutexGuard<'_, Room>) -> Room;

/// `DerefMut` on `std::sync::MutexGuard`: the room that the guard protects,
/// for as long as the guard is borrowed. What is written through the
/// reference is what the guard protects afterwards.
#[verifier::external_body]
pub(crate) fn locked_room<'a, 'b>(guard: &'a mut MutexGuard<'b, Room>) -> (room: &'a mut Room)
    ensures
        *room == guarded(*old(guard)),
        guarded(*final(guard)) == *final(room),
{
    &mut **guard
}

/// The handle that a registry's map keeps under `name`, for the life of the
/// map. The map is private to the registry, which stores a handle under a
/// name in one place only, `registry_get_or_insert`, and never replaces or
/// removes one: so a name that is ever registered has one handle, and this
/// is it. What the map holds at a given moment is not a function of the
/// map and has no name.
pub uninterp spec fn registered(m: DashMap<String, Arc<Mutex<Room>>>, name: Seq<char>) -> Arc<
    Mutex<Room>,
>;

/// `dashmap::DashMap::new`: a map with no entries.
#[verifier::external_body]
pub(crate) fn registry_new() -> (m: DashMap<String, Arc<Mutex<Room>>>) {
    DashMap::new()
}

/// `Arc::clone`: one more pointer to the same map.
#[verifier::external_body]
pub(crate) fn registry_share(m: &Arc<DashMap<String, Arc<Mutex<Room>>>>) -> (shared: Arc<
    DashMap<String, Arc<Mutex<Room>>>,
>)
    ensures
        shared == *m,
{
    Arc::clone(m)
}

/// `dashmap::DashMap::entry` followed by `Entry::or_insert_with`: in one step
/// under the shard's write lock, the handle stored under `name`, or else a
/// new handle to an empty room of that name, stored and handed back. Either
/// way it is the handle that the map keeps under `name`; as this is the one
/// place where the map is filled, that handle was made here, by
/// `new_room_handle`, with an empty room of that name.
#[verifier::external_body]
pub(crate) fn registry_get_or_insert(m: &DashMap<String, Arc<Mutex<Room>>>, name: &str) -> (h:
    Arc<Mutex<Room>>)
    ensures
        h == registered(*m, name@),
        room_made_with(*h).room_name@ == name@,
        room_made_with(*h).participants@.len() == 0,
{
    m.entry(name.to_owned()).or_insert_with(|| new_room_handle(name)).value().clone()
}

/// `dashmap::DashMap::get`: the handle stored under `name`, if there is one,
/// which is then the handle that the map keeps under `name`. Whether there
/// is one depends on who has registered what so far.
#[verifier::external_body]
pub(crate) fn registry_get(m: &DashMap<String, Arc<Mutex<Room>>>, name: &str) -> (h: Option<
    Arc<Mutex<Room>>,
>)
    ensures
        h is Some ==> h->Some_0 == registered(*m, name@),
{
    m.get(name).map(|entry| entry.value().clone())
}

/// Whether no name occurs twice among `entries`.
pub open spec fn distinct_names(entries: Seq<(String, Arc<Mutex<Room>>)>) -> bool {
    forall|i: int, j: int|
        0 <= i < j < entries.len() ==> (#[trigger] entries[i]).0@ != (#[trigger] entries[j]).0@
}

/// Whether each of `entries` pairs a name with the handle that `m` keeps
/// under it.
pub open spec fn listed_from(
    entries: Seq<(String, Arc<Mutex<Room>>)>,
    m: DashMap<String, Arc<Mutex<Room>>>,
) -> bool {
    forall|i: int|
        0 <= i < entries.len() ==> (#[trigger] entries[i]).1 == registered(m, entries[i].0@)
}

/// `dashmap::DashMap::iter`: every entry that the walk came across, as name
/// and handle. The walk takes the shards one after the other, each under its
/// read lock, and a key lies in one shard only, so no name comes twice; each
/// handle is the one that the map keeps under its name. Which entries the
/// walk meets while others insert, and in what order, is left open.
#[verifier::external_body]
pub(crate) fn registry_entries(m: &DashMap<String, Arc<Mutex<Room>>>) -> (entries: Vec<
    (String, Arc<Mutex<Room>>),
>)
    ensures
        distinct_names(entries@),
        listed_from(entries@, *m),
{
    m.iter().map(|entry| (entry.key().clone(), entry.value().clone())).collect()
}

/// A new shared handle to a room of its own, which starts out empty and is
/// called `name`.
pub fn new_room_handle(name: &str) -> (h: Arc<Mutex<Room>>)
    ensures
        room_made_with(*h).room_name@ == name@,
        room_made_with(*h).participants@.len() == 0,
{
    Arc::new(mutex_new(Room::new(name.to_owned())))
}

/// Whether `b` is the code of an ASCII letter or digit.
pub open spec fn is_alphanumeric_byte(b: u8) -> bool {
    (48 <= b <= 57) || (65 <= b <= 90) || (97 <= b <= 122)
}

/// Draws the bytes of a fresh version stamp: eight of them, each the code of
/// an ASCII letter or digit.
pub fn draw_version_letters() -> (draws: Vec<u8>)
    ensures
        draws@.len() == VERSION_LEN,
        forall|k: int| 0 <= k < draws@.len() ==> is_alphanumeric_byte(#[trigger] draws@[k]),
{
    let mut draws: Vec<u8> = Vec::new();
    let mut i: usize = 0;
    while i < VERSION_LEN
        invariant
            i <= VERSION_LEN,
            draws@.len() == i,
            forall|k: int| 0 <= k < draws@.len() ==> is_alphanumeric_byte(#[trigger] draws@[k]),
        decreases VERSION_LEN - i,
    {
        draws.push(random_alphanumeric());
        i += 1;
    }
    draws
}

/// A fresh version stamp: eight ASCII letters or digits, each drawn anew.
/// The stamp is what `letters_of` spells from the bytes drawn.
pub fn generate_version() -> (v: String)
    ensures
        is_version_stamp(v@),
{
    let draws = draw_version_letters();
    let v = letters_of(&draws);
    assert forall|k: int| 0 <= k < v@.len() implies is_alphanumeric(#[trigger] v@[k]) by {
        assert(v@[k] == draws@[k] as char);
        assert(is_alphanumeric_byte(draws@[k]));
    }
    v
}

/// The store of rooms that admission and status reporting work against.
pub trait RoomRepository {
    /// The version stamp, as a sequence of characters.
    spec fn version_spec(&self) -> Seq<char>;

    /// The handle that the store keeps under `name`, once and for all: every
    /// registration of and every lookup under that name gives this handle.
    spec fn room_of(&self, name: Seq<char>) -> Arc<Mutex<Room>>;

    /// Adds `user` to the registered room that bears the name of `room`.
    ///
    /// Takes the lock of `room` and then that of the registered room, one
    /// after the other. A caller that holds the guard of either does not
    /// return from this call.
    fn save(&self, room: &Arc<Mutex<Room>>, user: &User) -> (r: Result<(), JoinError>)
        ensures
            r is Err ==> save_error(r->Err_0, *user),
    ;

    /// The room registered under `room_code`, if there is one: the very
    /// handle that registering the name gave. Creates nothing.
    fn get_room(&self, room_code: &str) -> (h: Option<Arc<Mutex<Room>>>)
        ensures
            h is Some ==> h->Some_0 == self.room_of(room_code@),
    ;

    /// The room registered under `room_code`; where there is none yet, a new
    /// empty room is registered under that name first, in one atomic step.
    /// Every call for one name gives the same handle, to a room that was
    /// made empty and under that name.
    fn create_room(&self, room_code: &str) -> (h: Arc<Mutex<Room>>)
        ensures
            h == self.room_of(room_code@),
            room_made_with(*h).room_name@ == room_code@,
            room_made_with(*h).participants@.len() == 0,
    ;

    /// The stamp that the store was given when it was made.
    fn get_version(&self) -> (v: String)
        ensures
            v@ == self.version_spec(),
    ;

    /// A copy of every registered room, each read under that room's own lock,
    /// one lock at a time: one room for each entry of a listing of the store,
    /// in which no name comes twice and every handle is the one that the
    /// store keeps under its name. A caller that holds the guard of a
    /// registered room does not return from this call.
    fn get_all_repository(&self) -> (rooms: Vec<Room>)
        ensures
            exists|entries: Seq<(String, Arc<Mutex<Room>>)>|
                #[trigger] distinct_names(entries) && rooms@.len() == entries.len() && (forall|
                    i: int,
                |
                    0 <= i < entries.len() ==> (#[trigger] entries[i]).1 == self.room_of(
                        entries[i].0@,
                    )),
    ;
}

/// The errors that saving `user` can end in.
pub open spec fn save_error(e: JoinError, user: User) -> bool {
    ||| e == JoinError::InternalError
    ||| e == JoinError::RoomNotFound
    ||| e == JoinError::DuplicateMember
    ||| e == JoinError::RoleCapacityExceeded(user.role)
}

/// A registry of rooms by name, shared between threads. Every copy of the
/// registry reaches the same rooms.
pub struct RoomRepositoryImpl {
    state: Arc<DashMap<String, Arc<Mutex<Room>>>>,
    ver: String,
}

impl Clone for RoomRepositoryImpl {
    /// A second handle on the same registry: the same stamp, and under every
    /// name the same room.
    fn clone(&self) -> (r: RoomRepositoryImpl)
        ensures
            r.version_spec() == self.version_spec(),
            forall|name: Seq<char>| #[trigger] r.room_of(name) == self.room_of(name),
    {
        RoomRepositoryImpl { state: registry_share(&self.state), ver: self.ver.clone() }
    }
}

impl RoomRepositoryImpl {
    /// An empty registry with a fresh version stamp.
    pub fn new() -> (repo: RoomRepositoryImpl)
        ensures
            is_version_stamp(repo.version_spec()),
    {
        RoomRepositoryImpl { state: Arc::new(registry_new()), ver: generate_version() }
    }

    /// The room registered under `name`; where there is none yet, a new empty
    /// room is registered under that name first. Lookup and insertion are one
    /// step of the map, so that two callers with the same new name end up
    /// with the same room: every call for one name gives the same handle, to
    /// a room that was made empty and under that name.
    pub fn get_or_create(&self, name: &str) -> (h: Arc<Mutex<Room>>)
        ensures
            h == self.room_of(name@),
            room_made_with(*h).room_name@ == name@,
            room_made_with(*h).participants@.len() == 0,
    {
        registry_get_or_insert(&*self.state, name)
    }

    /// The room registered under `name`, if there is one: the very handle
    /// that registering the name gave.
    pub fn get(&self, name: &str) -> (h: Option<Arc<Mutex<Room>>>)
        ensures
            h is Some ==> h->Some_0 == self.room_of(name@),
    {
        registry_get(&*self.state, name)
    }

    /// Every registered room, as name and handle, as one walk over the
    /// registry found them. No name is listed twice, and each handle is the
    /// one registered under its name.
    pub fn all(&self) -> (entries: Vec<(String, Arc<Mutex<Room>>)>)
        ensures
            distinct_names(entries@),
            forall|i: int|
                0 <= i < entries@.len() ==> (#[trigger] entries@[i]).1 == self.room_of(
                    entries@[i].0@,
                ),
    {
        registry_entries(&*self.state)
    }

    /// Adds `user` to the registered room called `name`, given the name as it
    /// was read under the lock of the room passed to `save`. No name, which is
    /// what a poisoned lock leaves, ends in `InternalError` with nothing
    /// looked up and no room touched; with a name the answer is that of
    /// `save_to` on what the registry holds under it.
    ///
    /// A caller that holds the guard of the room registered under that name
    /// does not return from this call.
    pub fn save_named(&self, name: Option<String>, user: &User) -> (r: Result<(), JoinError>)
        ensures
            name is None ==> r == Err::<(), JoinError>(JoinError::InternalError),
            r is Err ==> save_error(r->Err_0, *user),
    {
        match name {
            None => Err(JoinError::InternalError),
            Some(name) => save_to(self.get(name.as_str()), user),
        }
    }

    /// The stamp that the registry was given when it was made.
    pub fn version(&self) -> (v: String)
        ensures
            v@ == self.version_spec(),
    {
        self.ver.clone()
    }
}

impl RoomRepository for RoomRepositoryImpl {
    closed spec fn version_spec(&self) -> Seq<char> {
        self.ver@
    }

    closed spec fn room_of(&self, name: Seq<char>) -> Arc<Mutex<Room>> {
        registered(*self.state, name)
    }

    fn save(&self, room: &Arc<Mutex<Room>>, user: &User) -> (r: Result<(), JoinError>) {
        self.save_named(read_room_name(room), user)
    }

    fn get_room(&self, room_code: &str) -> (h: Option<Arc<Mutex<Room>>>) {
        self.get(room_code)
    }

    fn create_room(&self, room_code: &str) -> (h: Arc<Mutex<Room>>) {
        self.get_or_create(room_code)
    }

    fn get_version(&self) -> (v: String) {
        self.version()
    }

    fn get_all_repository(&self) -> (rooms: Vec<Room>) {
        let entries = self.all();
        assert(distinct_names(entries@));
        read_rooms(&entries)
    }
}

/// Whether `r` is what an attempt to add `user` to `members` answers: `Ok`
/// on success, else the error.
pub open spec fn is_add_result(members: Seq<User>, user: User, r: Result<(), JoinError>) -> bool {
    match added(members, user) {
        Ok(_) => r is Ok,
        Err(e) => r == Err::<(), JoinError>(e),
    }
}

/// Adds `user` to the room that `guard` protects, as `Room::add_participant`
/// does.
pub fn add_guarded(guard: &mut MutexGuard<'_, Room>, user: &User) -> (r: Result<(), JoinError>)
    ensures
        is_add_result(guarded(*old(guard)).participants@, *user, r),
        guarded(*final(guard)).participants@ == joined_by(
            guarded(*old(guard)).participants@,
            *user,
        ),
        guarded(*final(guard)).room_name == guarded(*old(guard)).room_name,
        guarded(*old(guard)).wf() ==> guarded(*final(guard)).wf(),
{
    locked_room(guard).add_participant(user.clone())
}

/// Adds `user` to the room whose lock was asked for, given what the lock
/// answered: a poisoned lock ends in `InternalError` and leaves the room
/// alone; otherwise the outcome is that of adding the user to the room that
/// the guard protects. The lock is released on return.
pub fn add_under_lock(locked: LockResult<MutexGuard<'_, Room>>, user: &User) -> (r: Result<
    (),
    JoinError,
>)
    ensures
        locked is Err ==> r == Err::<(), JoinError>(JoinError::InternalError),
        locked is Ok ==> is_add_result(guarded(locked->Ok_0).participants@, *user, r),
{
    match locked {
        Err(_) => Err(JoinError::InternalError),
        Ok(mut guard) => add_guarded(&mut guard, user),
    }
}

/// Adds `user` to the room that a lookup found: without a room the answer is
/// `RoomNotFound`, and with one it is what adding under that room's lock
/// gives, which is never `RoomNotFound`. A caller that holds the guard of the
/// room found does not return from this call.
pub fn save_to(found: Option<Arc<Mutex<Room>>>, user: &User) -> (r: Result<(), JoinError>)
    ensures
        found is None <==> r == Err::<(), JoinError>(JoinError::RoomNotFound),
        r is Err ==> save_error(r->Err_0, *user),
{
    match found {
        None => Err(JoinError::RoomNotFound),
        Some(existing) => add_under_lock(existing.lock(), user),
    }
}

/// A copy of the room behind each of `entries`, in their order: one room
/// for every entry, with or without members. Each room is read under its own
/// lock, and no two locks are held at once. A caller that holds the guard of
/// one of these rooms does not return from this call.
pub fn read_rooms(entries: &Vec<(String, Arc<Mutex<Room>>)>) -> (rooms: Vec<Room>)
    ensures
        rooms@.len() == entries@.len(),
{
    let mut rooms: Vec<Room> = Vec::new();
    let mut i: usize = 0;
    while i < entries.len()
        invariant
            i <= entries@.len(),
            rooms@.len() == i,
        decreases entries@.len() - i,
    {
        rooms.push(read_room(&entries[i].1));
        i += 1;
    }
    rooms
}

/// The name of the room whose lock was asked for, given what the lock
/// answered: none where the lock is poisoned, else the name of the room that
/// the guard protects. The lock is released on return.
pub fn name_under_lock(locked: LockResult<MutexGuard<'_, Room>>) -> (name: Option<String>)
    ensures
        locked is Err <==> name is None,
        locked is Ok ==> name == Some(guarded(locked->Ok_0).room_name),
{
    match locked {
        Err(_) => None,
        Ok(mut guard) => Some(locked_room(&mut guard).room_name.clone()),
    }
}

/// A copy of the room that `guard` protects, which stays as it is.
pub fn copy_guarded(guard: &mut MutexGuard<'_, Room>) -> (room: Room)
    ensures
        room.room_name == guarded(*old(guard)).room_name,
        room.participants@ == guarded(*old(guard)).participants@,
        guarded(*final(guard)) == guarded(*old(guard)),
{
    locked_room(guard).clone()
}

/// The name of the room behind `handle`, read under its lock; `None` where
/// the lock is poisoned. A caller that holds the room's guard does not return
/// from this call.
pub fn read_room_name(handle: &Arc<Mutex<Room>>) -> (name: Option<String>) {
    name_under_lock(handle.lock())
}

/// A copy of the room behind `handle`, taken under its lock. A poisoned lock
/// is read all the same: a join changes a room in one step, so what the lock
/// guards is a state that the room was in. A caller that holds the room's
/// guard does not return from this call.
pub fn read_room(handle: &Arc<Mutex<Room>>) -> (room: Room) {
    let mut guard = match handle.lock() {
        Ok(guard) => guard,
        Err(poisoned) => poisoned.into_inner(),
    };
    copy_guarded(&mut guard)
}

} // verus!
