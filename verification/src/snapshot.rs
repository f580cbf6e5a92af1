use crate::room::Room;
use crate::text::{decimal_text, joined, lemma_joined_step, push_decimal};
use crate::user::User;
use vstd::prelude::*;
use vstd::string::StringExecFns;

verus! {

/// The JSON text of the string `s`: `s` between double quotes, with the
/// characters that JSON does not take as they are written as escapes. It is
/// what `serde_json` prints for a string value.
pub uninterp spec fn json_string_text(s: Seq<char>) -> Seq<char>;

/// Prints `s` as a JSON string: `serde_json::Value::String` shown through
/// its `Display`, which writes the compact form. The text depends on `s`
/// alone.
#[verifier::external_body]
pub(crate) fn json_string(s: &str) -> (text: String)
    ensures
        text@ == json_string_text(s@),
{
    serde_json::Value::String(s.to_owned()).to_string()
}

/// The JSON object of one member: id, name and role.
pub open spec fn member_json(u: User) -> Seq<char> {
    "{\"id\":"@ + json_string_text(u.id@) + ",\"name\":"@ + json_string_text(u.name@)
        + ",\"role\":"@ + json_string_text(u.role.label_spec()) + "}"@
}

/// The JSON objects of `members`, in order.
pub open spec fn member_jsons(members: Seq<User>) -> Seq<Seq<char>> {
    members.map_values(|u: User| member_json(u))
}

/// The JSON object of one room: its members as an array, then its name.
pub open spec fn room_json(room: Room) -> Seq<char> {
    "{\"participants\":["@ + joined(member_jsons(room.participants@), ","@) + "],\"room_id\":"@
        + json_string_text(room.room_name@) + "}"@
}

/// The JSON objects of `rooms`, in order.
pub open spec fn room_jsons(rooms: Seq<Room>) -> Seq<Seq<char>> {
    rooms.map_values(|r: Room| room_json(r))
}

/// The JSON document that lists `rooms`.
pub open spec fn rooms_json(rooms: Seq<Room>) -> Seq<char> {
    "{\"rooms\":["@ + joined(room_jsons(rooms), ","@) + "]}"@
}

/// The status line for `rooms` and the version stamp `version`: how many
/// rooms there are, the stamp, and the rooms in full as JSON.
pub open spec fn status_text(rooms: Seq<Room>, version: Seq<char>) -> Seq<char> {
    "There are "@ + decimal_text(rooms.len()) + " rooms in "@ + version + ". Details: "@
        + rooms_json(rooms)
}

/// A reading of the whole registry: its version stamp and a copy of each
/// room.
#[derive(Debug)]
pub struct Snapshot {
    pub version: String,
    pub rooms: Vec<Room>,
}

/// Appends the JSON object of `u` to `out`.
pub fn push_member_json(out: &mut String, u: &User)
    ensures
        final(out)@ == old(out)@ + member_json(*u),
{
    out.append("{\"id\":");
    out.append(json_string(u.id.as_str()).as_str());
    out.append(",\"name\":");
    out.append(json_string(u.name.as_str()).as_str());
    out.append(",\"role\":");
    out.append(json_string(u.role.label().as_str()).as_str());
    out.append("}");
    assert(out@ =~= old(out)@ + member_json(*u));
}

/// Appends the JSON object of `room` to `out`.
pub fn push_room_json(out: &mut String, room: &Room)
    ensures
        final(out)@ == old(out)@ + room_json(*room),
{
    out.append("{\"participants\":[");
    let ghost head = out@;
    let ghost parts = member_jsons(room.participants@);
    let mut i: usize = 0;
    while i < room.participants.len()
        invariant
            i <= room.participants@.len(),
            parts == member_jsons(room.participants@),
            out@ == head + joined(parts.take(i as int), ","@),
        decreases room.participants@.len() - i,
    {
        proof {
            lemma_joined_step(head, parts, ","@, i as int);
        }
        if i > 0 {
            out.append(",");
        }
        push_member_json(out, &room.participants[i]);
        i += 1;
    }
    assert(parts.take(i as int) =~= parts);
    out.append("],\"room_id\":");
    out.append(json_string(room.room_name.as_str()).as_str());
    out.append("}");
    assert(out@ =~= old(out)@ + room_json(*room));
}

/// Appends the JSON document that lists `rooms` to `out`.
pub fn push_rooms_json(out: &mut String, rooms: &Vec<Room>)
    ensures
        final(out)@ == old(out)@ + rooms_json(rooms@),
{
    out.append("{\"rooms\":[");
    let ghost head = out@;
    let ghost parts = room_jsons(rooms@);
    let mut i: usize = 0;
    while i < rooms.len()
        invariant
            i <= rooms@.len(),
            parts == room_jsons(rooms@),
            out@ == head + joined(parts.take(i as int), ","@),
        decreases rooms@.len() - i,
    {
        proof {
            lemma_joined_step(head, parts, ","@, i as int);
        }
        if i > 0 {
            out.append(",");
        }
        push_room_json(out, &rooms[i]);
        i += 1;
    }
    assert(parts.take(i as int) =~= parts);
    out.append("]}");
    assert(out@ =~= old(out)@ + rooms_json(rooms@));
}

impl Snapshot {
    /// The number of rooms read, with or without members.
    pub fn room_count(&self) -> (n: usize)
        ensures
            n == self.rooms@.len(),
    {
        self.rooms.len()
    }

    /// The rooms in full, as a JSON document.
    pub fn details(&self) -> (text: String)
        ensures
            text@ == rooms_json(self.rooms@),
    {
        let mut text = String::new();
        push_rooms_json(&mut text, &self.rooms);
        assert(text@ =~= rooms_json(self.rooms@));
        text
    }

    /// The status line: the number of rooms, the version stamp, and the
    /// rooms in full.
    pub fn status_message(&self) -> (text: String)
        ensures
            text@ == status_text(self.rooms@, self.version@),
    {
        let mut text = String::from_str("There are ");
        push_decimal(&mut text, self.rooms.len());
        text.append(" rooms in ");
        text.append(self.version.as_str());
        text.append(". Details: ");
        push_rooms_json(&mut text, &self.rooms);
        text
    }
}

} // verus!
