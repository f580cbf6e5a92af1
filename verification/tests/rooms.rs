use room_registry::room::{JoinError, Room};
use room_registry::room_repository::{draw_version_letters, generate_version};
use room_registry::text::{decimal_string, letters_of};
use room_registry::user::{User, UserRole};

fn named(id: &str, name: &str, role: UserRole) -> User {
    User::with_role(id.to_string(), Some(name.to_string()), role)
}

#[test]
fn empty_room_roster() {
    let room = Room::new("Lobby".to_string());
    assert_eq!(room.participant_count(), 0);
    assert_eq!(room.list_participants(), "No participants in this room.");
}

#[test]
fn roster_lists_names_in_joining_order() {
    let mut room = Room::new("Lobby".to_string());
    room.add_participant(named("u1", "Ann", UserRole::Participant)).unwrap();
    assert_eq!(room.list_participants(), "Lobby has 1 participant(s): Ann");
    room.add_participant(named("u2", "Bob", UserRole::Observer)).unwrap();
    room.add_participant(named("u3", "Cy", UserRole::Participant)).unwrap();
    assert_eq!(room.list_participants(), "Lobby has 3 participant(s): Ann, Bob, Cy");
    assert_eq!(room.participant_count(), 3);
    assert_eq!(room.count_by_role(UserRole::Participant), 2);
    assert_eq!(room.count_by_role(UserRole::Observer), 1);
}

#[test]
fn roster_counts_in_decimal() {
    let mut room = Room::new("Big".to_string());
    for i in 0..10 {
        let role = if i < 2 { UserRole::Participant } else { UserRole::Observer };
        room.add_participant(named(&format!("u{}", i), &format!("N{}", i), role)).unwrap();
    }
    assert_eq!(
        room.list_participants(),
        "Big has 10 participant(s): N0, N1, N2, N3, N4, N5, N6, N7, N8, N9"
    );
}

#[test]
fn third_participant_is_turned_away() {
    let mut room = Room::new("Lobby".to_string());
    assert_eq!(room.add_participant(named("u1", "A", UserRole::Participant)), Ok(()));
    assert_eq!(room.add_participant(named("u2", "B", UserRole::Participant)), Ok(()));
    assert_eq!(
        room.add_participant(named("u3", "C", UserRole::Participant)),
        Err(JoinError::RoleCapacityExceeded(UserRole::Participant))
    );
    assert_eq!(room.participant_count(), 2);
    assert_eq!(room.add_participant(named("u3", "C", UserRole::Observer)), Ok(()));
    assert_eq!(room.participant_count(), 3);
}

#[test]
fn ninth_observer_is_turned_away() {
    let mut room = Room::new("Lobby".to_string());
    for i in 0..8 {
        assert_eq!(
            room.add_participant(named(&format!("o{}", i), "O", UserRole::Observer)),
            Ok(())
        );
    }
    assert_eq!(
        room.add_participant(named("o8", "O", UserRole::Observer)),
        Err(JoinError::RoleCapacityExceeded(UserRole::Observer))
    );
    assert_eq!(room.participant_count(), 8);
    assert_eq!(room.add_participant(named("p0", "P", UserRole::Participant)), Ok(()));
    assert_eq!(room.participant_count(), 9);
}

#[test]
fn duplicate_id_is_reported_before_a_full_role() {
    let mut room = Room::new("Lobby".to_string());
    room.add_participant(named("u1", "A", UserRole::Participant)).unwrap();
    room.add_participant(named("u2", "B", UserRole::Participant)).unwrap();
    assert_eq!(
        room.add_participant(named("u1", "Other", UserRole::Participant)),
        Err(JoinError::DuplicateMember)
    );
    assert_eq!(
        room.add_participant(named("u1", "Other", UserRole::Observer)),
        Err(JoinError::DuplicateMember)
    );
    assert_eq!(room.participant_count(), 2);
    assert_eq!(room.list_participants(), "Lobby has 2 participant(s): A, B");
}

#[test]
fn has_member_goes_by_id() {
    let mut room = Room::new("Lobby".to_string());
    room.add_participant(named("u1", "A", UserRole::Participant)).unwrap();
    assert!(room.has_member(&"u1".to_string()));
    assert!(!room.has_member(&"A".to_string()));
    assert!(!room.has_member(&"".to_string()));
}

#[test]
fn rooms_are_equal_by_name() {
    let mut a = Room::new("Lobby".to_string());
    let b = Room::new("Lobby".to_string());
    a.add_participant(named("u1", "A", UserRole::Participant)).unwrap();
    assert!(a == b);
    assert!(a != Room::new("Other".to_string()));
}

#[test]
fn room_clone_keeps_name_and_members() {
    let mut a = Room::new("Lobby".to_string());
    a.add_participant(named("u1", "A", UserRole::Participant)).unwrap();
    a.add_participant(named("u2", "B", UserRole::Observer)).unwrap();
    let b = a.clone();
    assert_eq!(b.room_name, "Lobby");
    assert_eq!(b.participants.len(), 2);
    assert_eq!(b.participants[0].id, "u1");
    assert_eq!(b.participants[0].name, "A");
    assert_eq!(b.participants[0].role, UserRole::Participant);
    assert_eq!(b.participants[1].id, "u2");
    assert_eq!(b.participants[1].name, "B");
    assert_eq!(b.participants[1].role, UserRole::Observer);
}

#[test]
fn users_are_equal_by_id() {
    let a = named("u1", "A", UserRole::Participant);
    let b = named("u1", "B", UserRole::Observer);
    let c = named("u2", "A", UserRole::Participant);
    assert!(a == b);
    assert!(a != c);
    let d = a.clone();
    assert_eq!(d.id, "u1");
    assert_eq!(d.name, "A");
    assert_eq!(d.role, UserRole::Participant);
}

#[test]
fn constructors_set_role_and_keep_a_supplied_name() {
    let p = User::new_participant("u1".to_string(), Some("Ann".to_string()));
    assert_eq!(p.id, "u1");
    assert_eq!(p.name, "Ann");
    assert_eq!(p.role, UserRole::Participant);
    let o = User::new_observer("u2".to_string(), Some("Bob".to_string()));
    assert_eq!(o.id, "u2");
    assert_eq!(o.name, "Bob");
    assert_eq!(o.role, UserRole::Observer);
}

#[test]
fn generated_names_are_four_upper_case_letters() {
    for _ in 0..200 {
        let u = User::new_participant("u".to_string(), None);
        assert_eq!(u.name.chars().count(), 4);
        assert!(u.name.chars().all(|c| c.is_ascii_uppercase()));
        let name = User::generate_random_name();
        assert_eq!(name.len(), 4);
        assert!(name.bytes().all(|b| (b'A'..=b'Z').contains(&b)));
    }
}

#[test]
fn generated_names_vary() {
    let first = User::generate_random_name();
    let mut differs = false;
    for _ in 0..200 {
        if User::generate_random_name() != first {
            differs = true;
        }
    }
    assert!(differs);
}

#[test]
fn role_labels_capacities_and_default() {
    assert_eq!(UserRole::Participant.label(), "Participant");
    assert_eq!(UserRole::Observer.label(), "Observer");
    assert_eq!(UserRole::Participant.capacity(), 2);
    assert_eq!(UserRole::Observer.capacity(), 8);
    assert_eq!(UserRole::default(), UserRole::Participant);
}

#[test]
fn decimal_strings() {
    assert_eq!(decimal_string(0), "0");
    assert_eq!(decimal_string(7), "7");
    assert_eq!(decimal_string(10), "10");
    assert_eq!(decimal_string(409), "409");
    assert_eq!(decimal_string(usize::MAX), usize::MAX.to_string());
}

#[test]
fn letters_are_spelled_from_the_bytes_in_order() {
    assert_eq!(letters_of(&vec![]), "");
    assert_eq!(letters_of(&vec![b'Q', b'A', b'Z', b'M']), "QAZM");
    assert_eq!(letters_of(&vec![b'a', b'0', b'Z', b'9', b'k', b'K', b'5', b'b']), "a0Z9kK5b");
    assert_eq!(letters_of(&vec![0xe9]), "\u{e9}");
    assert_eq!(letters_of(&vec![b'A', b'A', b'A', b'A']), "AAAA");
}

#[test]
fn drawn_name_letters_are_four_upper_case_codes() {
    let mut seen = std::collections::BTreeSet::new();
    for _ in 0..200 {
        let draws = User::draw_name_letters();
        assert_eq!(draws.len(), 4);
        assert!(draws.iter().all(|b| (b'A'..=b'Z').contains(b)));
        let name = letters_of(&draws);
        assert_eq!(name.as_bytes(), &draws[..]);
        seen.extend(draws);
    }
    assert!(seen.len() > 1);
}

#[test]
fn drawn_version_letters_are_eight_alphanumeric_codes() {
    let mut seen = std::collections::BTreeSet::new();
    for _ in 0..200 {
        let draws = draw_version_letters();
        assert_eq!(draws.len(), 8);
        assert!(draws.iter().all(|b| b.is_ascii_alphanumeric()));
        seen.extend(draws);
        let v = generate_version();
        assert_eq!(v.len(), 8);
        assert!(v.bytes().all(|b| b.is_ascii_alphanumeric()));
    }
    assert!(seen.len() > 1);
}
