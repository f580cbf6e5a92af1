use room_registry::room::{JoinError, Room};
use room_registry::room_repository::{
    add_guarded, add_under_lock, copy_guarded, name_under_lock, new_room_handle, read_room_name,
    save_to, RoomRepository, RoomRepositoryImpl,
};
use room_registry::user::User;
use std::sync::{Arc, Mutex};

#[test]
fn test_add_user_to_room_success() {
    let repo = RoomRepositoryImpl::new();
    let room_code = "TestRoom";
    let room = repo.create_room(room_code);
    let user = User::new_participant("user1".to_string(), None);

    assert!(repo.save(&room, &user).is_ok());

    let room = repo.get_room(room_code).unwrap();
    let locked_room = room.lock().unwrap();
    assert_eq!(locked_room.participant_count(), 1);
}

#[test]
fn test_add_existing_user_to_room() {
    let repo = RoomRepositoryImpl::new();
    let room_code = "TestRoom";
    let room = repo.create_room(room_code);
    let user = User::new_participant("user1".to_string(), None);

    assert!(repo.save(&room, &user).is_ok());

    assert!(repo.save(&room, &user).is_err());
}

#[test]
fn test_add_user_exceeding_role_limit() {
    let repo = RoomRepositoryImpl::new();
    let room_code = "TestRoom";
    let room = repo.create_room(room_code);

    let user1 = User::new_participant("user1".to_string(), None);
    let user2 = User::new_participant("user2".to_string(), None);
    assert!(repo.save(&room, &user1).is_ok());
    assert!(repo.save(&room, &user2).is_ok());

    let user3 = User::new_participant("user3".to_string(), None);
    assert!(repo.save(&room, &user3).is_err());
}

#[test]
fn test_save_room_not_found() {
    let repo = RoomRepositoryImpl::new();
    let room_code = "NonExistentRoom";
    let room = Arc::new(Mutex::new(Room {
        room_name: room_code.to_string(),
        participants: Vec::new(),
    }));

    let user = User::new_participant("user1".to_string(), None);

    assert!(repo.save(&room, &user).is_err());
}

#[test]
fn test_get_all_repository() {
    let repo = RoomRepositoryImpl::new();
    let room_code = "TestRoom1";
    let room1 = repo.create_room(room_code);
    let user1 = User::new_participant("user1".to_string(), None);
    repo.save(&room1, &user1).unwrap();

    let room_code2 = "TestRoom2";
    let room2 = repo.create_room(room_code2);
    let user2 = User::new_participant("user2".to_string(), None);
    repo.save(&room2, &user2).unwrap();

    let rooms = repo.get_all_repository();
    assert_eq!(rooms.len(), 2);
}

#[test]
fn test_add_observer_to_room() {
    let repo = RoomRepositoryImpl::new();
    let room_code = "TestRoom";
    let room = repo.create_room(room_code);

    let user1 = User::new_participant("user1".to_string(), None);
    let user2 = User::new_participant("user2".to_string(), None);
    assert!(repo.save(&room, &user1).is_ok());
    assert!(repo.save(&room, &user2).is_ok());

    let observer = User::new_observer("observer1".to_string(), None);
    assert!(repo.save(&room, &observer).is_ok());

    let room = repo.get_room(room_code).unwrap();
    let locked_room = room.lock().unwrap();
    assert_eq!(locked_room.participant_count(), 3);
}

#[test]
fn save_reports_each_error_by_kind() {
    let repo = RoomRepositoryImpl::new();
    let room = repo.create_room("Kinds");
    let u1 = User::new_participant("u1".to_string(), None);
    let u2 = User::new_participant("u2".to_string(), None);
    let u3 = User::new_participant("u3".to_string(), None);
    assert_eq!(repo.save(&room, &u1), Ok(()));
    assert_eq!(repo.save(&room, &u1), Err(JoinError::DuplicateMember));
    assert_eq!(repo.save(&room, &u2), Ok(()));
    assert_eq!(
        repo.save(&room, &u3),
        Err(JoinError::RoleCapacityExceeded(room_registry::user::UserRole::Participant))
    );
    let stray = Arc::new(Mutex::new(Room::new("Elsewhere".to_string())));
    assert_eq!(repo.save(&stray, &u1), Err(JoinError::RoomNotFound));
}

#[test]
fn get_or_create_returns_the_same_room_every_time() {
    let repo = RoomRepositoryImpl::new();
    let first = repo.get_or_create("R");
    for _ in 0..50 {
        let again = repo.get_or_create("R");
        assert!(Arc::ptr_eq(&first, &again));
    }
    assert_eq!(repo.all().len(), 1);
    let shared = repo.clone();
    assert!(Arc::ptr_eq(&first, &shared.get_or_create("R")));
    assert_eq!(repo.all().len(), 1);
}

#[test]
fn get_does_not_create() {
    let repo = RoomRepositoryImpl::new();
    assert!(repo.get("Nowhere").is_none());
    assert!(repo.get_room("Nowhere").is_none());
    assert_eq!(repo.all().len(), 0);
    let made = repo.get_or_create("Somewhere");
    let found = repo.get("Somewhere").unwrap();
    assert!(Arc::ptr_eq(&made, &found));
    assert_eq!(found.lock().unwrap().room_name, "Somewhere");
    assert_eq!(found.lock().unwrap().participant_count(), 0);
}

#[test]
fn all_lists_each_room_under_its_name() {
    let repo = RoomRepositoryImpl::new();
    repo.get_or_create("A");
    repo.get_or_create("B");
    repo.get_or_create("A");
    let mut names: Vec<String> = repo.all().into_iter().map(|(name, _)| name).collect();
    names.sort();
    assert_eq!(names, vec!["A".to_string(), "B".to_string()]);
    for (name, handle) in repo.all() {
        assert_eq!(handle.lock().unwrap().room_name, name);
    }
}

#[test]
fn version_is_eight_alphanumerics_and_stays() {
    let repo = RoomRepositoryImpl::new();
    let v = repo.version();
    assert_eq!(v.chars().count(), 8);
    assert!(v.chars().all(|c| c.is_ascii_alphanumeric()));
    repo.get_or_create("A");
    assert_eq!(repo.version(), v);
    assert_eq!(repo.get_version(), v);
    assert_eq!(repo.clone().get_version(), v);
}

#[test]
fn new_handle_holds_an_empty_room_of_that_name() {
    let handle = new_room_handle("Fresh");
    {
        let room = handle.lock().unwrap();
        assert_eq!(room.room_name, "Fresh");
        assert_eq!(room.participant_count(), 0);
        assert_eq!(room.list_participants(), "No participants in this room.");
    }
    let other = new_room_handle("Fresh");
    assert!(!Arc::ptr_eq(&handle, &other));
    let unnamed = new_room_handle("");
    assert_eq!(unnamed.lock().unwrap().room_name, "");
}

#[test]
fn listing_has_no_name_twice() {
    let repo = RoomRepositoryImpl::new();
    for round in 0..3 {
        for i in 0..40 {
            repo.get_or_create(&format!("room{}", i));
            let _ = round;
        }
    }
    let entries = repo.all();
    assert_eq!(entries.len(), 40);
    let mut names: Vec<String> = entries.into_iter().map(|(name, _)| name).collect();
    names.sort();
    names.dedup();
    assert_eq!(names.len(), 40);
    assert_eq!(repo.get_all_repository().len(), 40);
}

#[test]
fn saving_to_a_lookup_goes_by_what_was_found() {
    let u1 = User::new_participant("u1".to_string(), Some("Ann".to_string()));
    assert_eq!(save_to(None, &u1), Err(JoinError::RoomNotFound));
    let handle = new_room_handle("Found");
    assert_eq!(save_to(Some(handle.clone()), &u1), Ok(()));
    assert_eq!(save_to(Some(handle.clone()), &u1), Err(JoinError::DuplicateMember));
    assert_eq!(handle.lock().unwrap().list_participants(), "Found has 1 participant(s): Ann");
}

#[test]
fn adding_under_a_lock_changes_the_guarded_room() {
    let handle = new_room_handle("Held");
    let u1 = User::new_observer("u1".to_string(), Some("Ann".to_string()));
    let u2 = User::new_observer("u2".to_string(), Some("Bob".to_string()));
    assert_eq!(add_under_lock(handle.lock(), &u1), Ok(()));
    assert_eq!(add_under_lock(handle.lock(), &u1), Err(JoinError::DuplicateMember));
    {
        let mut guard = handle.lock().unwrap();
        let before = copy_guarded(&mut guard);
        assert_eq!(before.participant_count(), 1);
        assert_eq!(add_guarded(&mut guard, &u2), Ok(()));
        assert_eq!(add_guarded(&mut guard, &u2), Err(JoinError::DuplicateMember));
        let after = copy_guarded(&mut guard);
        assert_eq!(after.room_name, "Held");
        assert_eq!(after.list_participants(), "Held has 2 participant(s): Ann, Bob");
        assert_eq!(before.participant_count(), 1);
    }
    for i in 0..6 {
        let o = User::new_observer(format!("o{}", i), None);
        assert_eq!(add_under_lock(handle.lock(), &o), Ok(()));
    }
    let late = User::new_observer("late".to_string(), None);
    assert_eq!(
        add_under_lock(handle.lock(), &late),
        Err(JoinError::RoleCapacityExceeded(room_registry::user::UserRole::Observer))
    );
    assert_eq!(handle.lock().unwrap().participant_count(), 8);
}

#[test]
fn names_are_read_under_the_lock() {
    let handle = new_room_handle("Named");
    assert_eq!(name_under_lock(handle.lock()), Some("Named".to_string()));
    assert_eq!(read_room_name(&handle), Some("Named".to_string()));
    handle.lock().unwrap().room_name = "Renamed".to_string();
    assert_eq!(read_room_name(&handle), Some("Renamed".to_string()));
}

#[test]
fn lookups_and_listings_give_the_registered_handle() {
    let repo = RoomRepositoryImpl::new();
    let shared = repo.clone();
    let a = repo.create_room("A");
    let b = shared.get_or_create("B");
    assert!(!Arc::ptr_eq(&a, &b));
    assert!(Arc::ptr_eq(&a, &repo.create_room("A")));
    assert!(Arc::ptr_eq(&a, &shared.create_room("A")));
    assert!(Arc::ptr_eq(&a, &repo.get_room("A").unwrap()));
    assert!(Arc::ptr_eq(&a, &shared.get("A").unwrap()));
    assert!(Arc::ptr_eq(&b, &repo.get("B").unwrap()));
    let entries = repo.all();
    assert_eq!(entries.len(), 2);
    for (name, handle) in entries {
        assert!(Arc::ptr_eq(&handle, &shared.get(&name).unwrap()));
        assert!(Arc::ptr_eq(&handle, &repo.get_or_create(&name)));
    }
    assert_eq!(repo.all().len(), 2);
    assert_eq!(shared.get_version(), repo.get_version());
    let u = User::new_participant("u1".to_string(), None);
    repo.save(&a, &u).unwrap();
    assert_eq!(shared.get("A").unwrap().lock().unwrap().participant_count(), 1);
}

#[test]
fn a_created_room_is_empty_and_bears_its_name() {
    let repo = RoomRepositoryImpl::new();
    for name in ["Lobby", "", "two words", "\u{e9}t\u{e9}"] {
        let handle = repo.create_room(name);
        let room = handle.lock().unwrap();
        assert_eq!(room.room_name, name);
        assert_eq!(room.participant_count(), 0);
    }
    assert_eq!(repo.all().len(), 4);
}

#[test]
fn saving_by_the_name_read_goes_by_that_name() {
    let repo = RoomRepositoryImpl::new();
    let handle = repo.create_room("Named");
    let u1 = User::new_participant("u1".to_string(), Some("Ann".to_string()));
    assert_eq!(repo.save_named(None, &u1), Err(JoinError::InternalError));
    assert_eq!(handle.lock().unwrap().participant_count(), 0);
    assert_eq!(repo.all().len(), 1);
    assert_eq!(
        repo.save_named(Some("Missing".to_string()), &u1),
        Err(JoinError::RoomNotFound)
    );
    assert_eq!(repo.all().len(), 1);
    assert_eq!(repo.save_named(Some("Named".to_string()), &u1), Ok(()));
    assert_eq!(
        repo.save_named(Some("Named".to_string()), &u1),
        Err(JoinError::DuplicateMember)
    );
    assert_eq!(handle.lock().unwrap().list_participants(), "Named has 1 participant(s): Ann");
}

#[test]
fn the_listing_holds_one_room_for_each_registered_name() {
    let repo = RoomRepositoryImpl::new();
    for name in ["A", "B", "C", "A", "B"] {
        repo.create_room(name);
    }
    let u = User::new_participant("u1".to_string(), Some("Ann".to_string()));
    repo.save(&repo.get("B").unwrap(), &u).unwrap();
    let mut seen: Vec<(String, usize)> = repo
        .get_all_repository()
        .iter()
        .map(|room| (room.room_name.clone(), room.participant_count()))
        .collect();
    seen.sort();
    assert_eq!(
        seen,
        vec![("A".to_string(), 0), ("B".to_string(), 1), ("C".to_string(), 0)]
    );
}
