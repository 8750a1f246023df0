use roomchat::handlers::{newuser_handler, NewuserResponse};
use roomchat::message::Message;
use roomchat::state::State;
use roomchat::user::ConnectionState;

fn joined_id(state: &mut State, key: &str, now: u64) -> u32 {
    match newuser_handler(state, key, now) {
        NewuserResponse::SeeOther(location) => {
            let prefix = format!("/room/{}/", key);
            location.strip_prefix(prefix.as_str()).unwrap().parse().unwrap()
        }
        other => panic!("unexpected answer {:?}", other),
    }
}

#[test]
fn a_new_registry_has_no_rooms() {
    let state = State::new();
    assert_eq!(state.room_count(), 0);
    assert!(state.find_room("abcde").is_none());
}

#[test]
fn asking_for_a_room_again_gives_the_same_room() {
    let mut state = State::new();
    assert!(state.get_room("abcde").insert_user(1, 0));
    state.get_room("abcde").append_message(Message {
        content: "first".to_string(),
        user_id: 1,
        user_name: None,
    });
    for _ in 0..50 {
        let room = state.get_room("abcde");
        assert_eq!(room.message_count(), 1);
        assert_eq!(room.user_ids(), vec![1]);
    }
    assert_eq!(state.room_count(), 1);
}

#[test]
fn rooms_under_different_keys_are_different_rooms() {
    let mut state = State::new();
    assert!(state.get_room("abcde").insert_user(1, 0));
    assert!(state.get_room("fghij").insert_user(2, 0));
    assert_eq!(state.room_count(), 2);
    assert_eq!(state.find_room("abcde").unwrap().user_ids(), vec![1]);
    assert_eq!(state.find_room("fghij").unwrap().user_ids(), vec![2]);
    assert!(state.find_room("klmno").is_none());
    assert_eq!(state.room_count(), 2);
}

#[test]
fn looking_up_creates_nothing() {
    let mut state = State::new();
    assert!(state.find_room("abcde").is_none());
    assert!(state.find_room_mut("abcde").is_none());
    assert_eq!(state.room_count(), 0);
}

#[test]
fn a_room_lent_out_keeps_what_the_borrower_did() {
    let mut state = State::new();
    assert!(state.get_room("abcde").insert_user(1, 0));
    let room = state.find_room_mut("abcde").unwrap();
    assert!(room.rename_user(1, "Ann".to_string()));
    assert_eq!(
        state.find_room("abcde").unwrap().get_user(1).unwrap().name.as_deref(),
        Some("Ann")
    );
}

#[test]
fn joining_twice_makes_one_room_and_keeps_its_log() {
    let mut state = State::new();
    let first = joined_id(&mut state, "abcde", 0);
    state.find_room_mut("abcde").unwrap().append_message(Message {
        content: "kept".to_string(),
        user_id: first,
        user_name: None,
    });
    let second = joined_id(&mut state, "abcde", 1);
    assert_ne!(first, second);
    assert_eq!(state.room_count(), 1);
    let room = state.find_room("abcde").unwrap();
    assert_eq!(room.message_count(), 1);
    assert_eq!(room.read_from(0)[0].content, "kept");
    let mut ids = room.user_ids();
    ids.sort();
    let mut expected = vec![first, second];
    expected.sort();
    assert_eq!(ids, expected);
}

#[test]
fn a_sweep_evicts_the_stale_user_and_then_the_empty_room() {
    let mut state = State::new();
    assert!(state.get_room("abcde").insert_user(1, 1_000));
    state.clear(31_000);
    assert_eq!(state.room_count(), 1);
    assert!(state.find_room("abcde").unwrap().get_user(1).is_some());
    state.clear(31_001);
    assert_eq!(state.room_count(), 0);
    assert!(state.find_room("abcde").is_none());
}

#[test]
fn a_sweep_never_evicts_a_connected_user() {
    let mut state = State::new();
    let room = state.get_room("abcde");
    assert!(room.insert_user(1, 0));
    assert!(room.set_connection_state(1, ConnectionState::Connected));
    assert!(room.insert_user(2, 0));
    state.clear(u64::MAX);
    assert_eq!(state.room_count(), 1);
    let room = state.find_room("abcde").unwrap();
    assert_eq!(room.user_ids(), vec![1]);
    assert_eq!(room.get_user(1).unwrap().connection_state, ConnectionState::Connected);
}

#[test]
fn a_sweep_keeps_the_room_that_keeps_a_user_and_its_log() {
    let mut state = State::new();
    let room = state.get_room("abcde");
    assert!(room.insert_user(1, 0));
    assert!(room.insert_user(2, 50_000));
    room.append_message(Message { content: "still here".to_string(), user_id: 1, user_name: None });
    assert!(state.get_room("fghij").insert_user(9, 0));
    assert!(state.get_room("klmno").insert_user(9, 60_000));
    state.clear(60_000);
    assert_eq!(state.room_count(), 2);
    let room = state.find_room("abcde").unwrap();
    assert_eq!(room.user_ids(), vec![2]);
    assert_eq!(room.read_from(0)[0].content, "still here");
    assert!(state.find_room("fghij").is_none());
    assert_eq!(state.find_room("klmno").unwrap().user_ids(), vec![9]);
}

#[test]
fn a_sweep_drops_a_room_that_never_had_a_user() {
    let mut state = State::new();
    state.get_room("abcde");
    assert_eq!(state.room_count(), 1);
    state.clear(0);
    assert_eq!(state.room_count(), 0);
}

#[test]
fn a_sweep_of_many_rooms_keeps_exactly_the_live_ones() {
    let mut state = State::new();
    let keys = ["aaaaa", "bbbbb", "ccccc", "ddddd", "eeeee", "fffff", "ggggg"];
    for (i, key) in keys.iter().enumerate() {
        let room = state.get_room(key);
        assert!(room.insert_user(1, 0));
        if i % 2 == 0 {
            assert!(room.set_connection_state(1, ConnectionState::Connected));
        }
    }
    state.clear(1_000_000);
    assert_eq!(state.room_count(), 4);
    for (i, key) in keys.iter().enumerate() {
        assert_eq!(state.find_room(key).is_some(), i % 2 == 0);
    }
    // a second sweep at the same time changes nothing
    state.clear(1_000_000);
    assert_eq!(state.room_count(), 4);
}

#[test]
fn a_room_evicted_and_asked_for_again_starts_empty() {
    let mut state = State::new();
    let room = state.get_room("abcde");
    assert!(room.insert_user(1, 0));
    room.append_message(Message { content: "gone".to_string(), user_id: 1, user_name: None });
    state.clear(40_000);
    assert!(state.find_room("abcde").is_none());
    let room = state.get_room("abcde");
    assert!(room.is_empty());
    assert_eq!(room.message_count(), 0);
}

#[test]
fn rooms_come_and_go_without_disturbing_each_other() {
    let mut state = State::new();
    let keys: Vec<String> = (0..60u32)
        .map(|n| {
            let a = (b'a' + (n % 26) as u8) as char;
            let b = (b'a' + (n / 26) as u8) as char;
            format!("{}{}xyz", a, b)
        })
        .collect();
    for (n, key) in keys.iter().enumerate() {
        let room = state.get_room(key.as_str());
        assert!(room.insert_user(n as u32, (n as u64) * 1_000));
        room.append_message(Message { content: key.clone(), user_id: n as u32, user_name: None });
    }
    assert_eq!(state.room_count(), 60);
    // at 50_000 the users created up to 19_000 are stale
    state.clear(50_000);
    assert_eq!(state.room_count(), 40);
    for (n, key) in keys.iter().enumerate() {
        match state.find_room(key.as_str()) {
            Some(room) => {
                assert!(n >= 20);
                assert_eq!(room.user_ids(), vec![n as u32]);
                assert_eq!(room.read_from(0)[0].content, *key);
            }
            None => assert!(n < 20),
        }
    }
    // the evicted keys can be taken again, and start empty
    for key in keys.iter().take(20) {
        let room = state.get_room(key.as_str());
        assert!(room.is_empty());
        assert_eq!(room.message_count(), 0);
        assert!(room.insert_user(1, 50_000));
    }
    assert_eq!(state.room_count(), 60);
    state.clear(80_000);
    // created at 50_000: exactly at the limit, so kept; the others up to 49_000 go
    assert_eq!(state.room_count(), 30);
    for (n, key) in keys.iter().enumerate() {
        assert_eq!(state.find_room(key.as_str()).is_some(), n < 20 || n >= 50);
    }
}
