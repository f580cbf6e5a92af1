use crate::text::letters_of;
use rand::Rng;
use vstd::prelude::*;
use vstd::std_specs::cmp::PartialEqSpecImpl;
use vstd::string::StringExecFns;

verus! {

/// The slot a member occupies in a room.
#[derive(Debug, Clone, Copy, PartialEq, Eq, Structural)]
pub enum UserRole {
    Participant,
    Observer,
}

/// A user who has joined, or is about to join, a room.
///
/// Two users are the same user when their ids match; name and role do not
/// take part in the comparison.
#[derive(Debug)]
pub struct User {
    pub id: String,
    pub name: String,
    pub role: UserRole,
}

/// Number of letters in a generated display name.
pub const GENERATED_NAME_LEN: usize = 4;

/// Whether `c` is one of the letters `A` to `Z`.
pub open spec fn is_upper_letter(c: char) -> bool {
    'A' <= c && c <= 'Z'
}

/// Whether `name` has the shape of a generated display name: four letters,
/// each between `A` and `Z`.
pub open spec fn is_generated_name(name: Seq<char>) -> bool {
    &&& name.len() == GENERATED_NAME_LEN
    &&& forall|i: int| 0 <= i < name.len() ==> is_upper_letter(#[trigger] name[i])
}

/// The display name a new user gets: the supplied one, or else any generated
/// name.
pub open spec fn name_chosen(supplied: Option<String>, name: Seq<char>) -> bool {
    match supplied {
        Some(n) => name == n@,
        None => is_generated_name(name),
    }
}

/// Draws a byte with `rand::Rng::gen_range` on the thread-local generator,
/// over the inclusive range `lo..=hi`. The range must not be empty; the byte
/// drawn lies within it. Which byte comes back is left open.
#[verifier::external_body]
pub(crate) fn random_byte_between(lo: u8, hi: u8) -> (b: u8)
    requires
        lo <= hi,
    ensures
        lo <= b <= hi,
{
    rand::thread_rng().gen_range(lo..=hi)
}

impl UserRole {
    /// The role's name as it appears in messages.
    pub open spec fn label_spec(self) -> Seq<char> {
        match self {
            UserRole::Participant => "Participant"@,
            UserRole::Observer => "Observer"@,
        }
    }

    /// The most members a room admits in this role.
    pub open spec fn capacity_spec(self) -> nat {
        match self {
            UserRole::Participant => 2,
            UserRole::Observer => 8,
        }
    }

    /// The role's name as it appears in messages.
    pub fn label(&self) -> (s: String)
        ensures
            s@ == self.label_spec(),
    {
        match self {
            UserRole::Participant => String::from_str("Participant"),
            UserRole::Observer => String::from_str("Observer"),
        }
    }

    /// The most members a room admits in this role.
    pub fn capacity(&self) -> (n: usize)
        ensures
            n == self.capacity_spec(),
    {
        match self {
            UserRole::Participant => 2,
            UserRole::Observer => 8,
        }
    }
}

impl Default for UserRole {
    fn default() -> (r: UserRole)
        ensures
            r == UserRole::Participant,
    {
        UserRole::Participant
    }
}

impl Clone for User {
    fn clone(&self) -> (r: User)
        ensures
            r == *self,
    {
        User { id: self.id.clone(), name: self.name.clone(), role: self.role }
    }
}

impl PartialEq for User {
    fn eq(&self, other: &User) -> (r: bool) {
        self.id == other.id
    }
}

impl Eq for User {

}

impl PartialEqSpecImpl for User {
    open spec fn obeys_eq_spec() -> bool {
        true
    }

    open spec fn eq_spec(&self, other: &User) -> bool {
        self.id@ == other.id@
    }
}

impl User {
    /// A user in the participant role. Without a supplied name the user gets
    /// a generated one.
    pub fn new_participant(id: String, name: Option<String>) -> (u: User)
        ensures
            u.id == id,
            u.role == UserRole::Participant,
            name_chosen(name, u.name@),
    {
        User::with_role(id, name, UserRole::Participant)
    }

    /// A user in the observer role. Without a supplied name the user gets a
    /// generated one.
    pub fn new_observer(id: String, name: Option<String>) -> (u: User)
        ensures
            u.id == id,
            u.role == UserRole::Observer,
            name_chosen(name, u.name@),
    {
        User::with_role(id, name, UserRole::Observer)
    }

    /// A user in the given role. Without a supplied name the user gets a
    /// generated one.
    pub fn with_role(id: String, name: Option<String>, role: UserRole) -> (u: User)
        ensures
            u.id == id,
            u.role == role,
            name_chosen(name, u.name@),
    {
        let name = match name {
            Some(n) => n,
            None => User::generate_random_name(),
        };
        User { id, name, role }
    }

    /// Draws the bytes of a fresh display name: four of them, each the code
    /// of a letter between `A` and `Z`.
    pub fn draw_name_letters() -> (draws: Vec<u8>)
        ensures
            draws@.len() == GENERATED_NAME_LEN,
            forall|k: int| 0 <= k < draws@.len() ==> 65 <= #[trigger] draws@[k] <= 90,
    {
        let mut draws: Vec<u8> = Vec::new();
        let mut i: usize = 0;
        while i < GENERATED_NAME_LEN
            invariant
                i <= GENERATED_NAME_LEN,
                draws@.len() == i,
                forall|k: int| 0 <= k < draws@.len() ==> 65 <= #[trigger] draws@[k] <= 90,
            decreases GENERATED_NAME_LEN - i,
        {
            draws.push(random_byte_between(65u8, 90u8));
            i += 1;
        }
        draws
    }

    /// A fresh display name: four letters, each drawn between `A` and `Z`.
    /// The name is what `letters_of` spells from the bytes drawn.
    pub fn generate_random_name() -> (name: String)
        ensures
            is_generated_name(name@),
    {
        let draws = User::draw_name_letters();
        let name = letters_of(&draws);
        assert forall|k: int| 0 <= k < name@.len() implies is_upper_letter(
            #[trigger] name@[k],
        ) by {
            assert(name@[k] == draws@[k] as char);
        }
        name
    }
}

} // verus!
