use memory_pairs::cards::Card;
use memory_pairs::dispatch::Actions;
use memory_pairs::game::GameStatus;
use memory_pairs::messages::{ClientMessage, ServerMessage};
use memory_pairs::registry::{JoinError, LeaveOutcome, Registry};
use memory_pairs::room::{FlipOutcome, StartOutcome, TickOutcome};

fn assert_silent(a: &Actions) {
    assert!(a.reply.is_none());
    assert!(a.broadcast.is_none());
    assert!(a.room.is_none());
    assert!(!a.register_output);
    assert!(a.start_timer.is_none());
    assert!(a.schedule_unflip.is_none());
    assert!(!a.stop_timer);
}

#[test]
fn created_room_holds_a_full_fresh_deck() {
    let mut reg = Registry::new();
    let rid = reg.create_room(&"A".to_string());
    assert_eq!(rid.len(), 8);
    assert_eq!(reg.rooms.len(), 1);
    let room = &reg.rooms[0];
    assert_eq!(room.id, rid);
    assert_eq!(room.creator_id, "A");
    let cards = &room.state.cards;
    assert_eq!(cards.len(), 16);
    // eight values, two cards of each, all face down and unmatched
    let mut per_value = [0usize; 8];
    let mut seen_ids = [false; 16];
    for c in cards.iter() {
        assert!(!c.flipped && !c.matched);
        assert!(c.value < 8 && (c.id as usize) < 16);
        per_value[c.value as usize] += 1;
        assert!(!seen_ids[c.id as usize], "ids must be unique");
        seen_ids[c.id as usize] = true;
    }
    assert_eq!(per_value, [2; 8]);
    assert_eq!(room.state.status, GameStatus::Waiting);
    assert_eq!(room.state.players.0.id, "A");
    assert!(room.state.players.1.is_none());
    assert_eq!(room.state.current_turn, "A");
    assert_eq!(room.state.scores, (0, 0));
    assert_eq!(room.state.timer, 60);
    assert!(room.state.winner.is_none());
}

#[test]
fn join_unknown_room_reports_not_found() {
    let mut reg = Registry::new();
    let res = reg.join_room(&"NOWHERE0".to_string(), &"B".to_string());
    assert_eq!(res.unwrap_err(), JoinError::RoomNotFound);
    assert_eq!(reg.rooms.len(), 0);
}

#[test]
fn join_full_room_reports_full_and_mutates_nothing() {
    let mut reg = Registry::new();
    let rid = reg.create_room(&"A".to_string());
    assert!(reg.join_room(&rid, &"B".to_string()).is_ok());
    let res = reg.join_room(&rid, &"C".to_string());
    assert_eq!(res.unwrap_err(), JoinError::RoomFull);
    assert_eq!(reg.rooms[0].state.players.1.as_ref().unwrap().id, "B");
}

#[test]
fn start_without_second_player_is_refused() {
    let mut reg = Registry::new();
    let rid = reg.create_room(&"A".to_string());
    assert_eq!(reg.start_game(&rid, &"A".to_string()), StartOutcome::NotEnoughPlayers);
    assert_eq!(reg.rooms[0].state.status, GameStatus::Waiting);
}

#[test]
fn timer_tick_on_a_removed_room_stops() {
    let mut reg = Registry::new();
    assert!(matches!(reg.timer_tick(&"NOWHERE0".to_string()), TickOutcome::Stopped));
}

#[test]
fn resolve_mismatch_on_a_removed_room_does_nothing() {
    let mut reg = Registry::new();
    assert!(reg.resolve_mismatch(&"NOWHERE0".to_string(), 0, 2).is_none());
}

#[test]
fn flip_on_unknown_room_is_ignored() {
    let mut reg = Registry::new();
    let out = reg.flip_card(&"NOWHERE0".to_string(), &"A".to_string(), 0);
    assert!(matches!(out, FlipOutcome::Ignored));
}

#[test]
fn creator_leaving_removes_the_room() {
    let mut reg = Registry::new();
    let rid = reg.create_room(&"A".to_string());
    let _ = reg.create_room(&"X".to_string());
    assert_eq!(reg.rooms.len(), 2);
    assert_eq!(reg.leave(&rid, &"A".to_string()), LeaveOutcome::Removed);
    assert_eq!(reg.rooms.len(), 1);
    assert_eq!(reg.rooms[0].creator_id, "X");
}

#[test]
fn non_creator_leaving_keeps_the_room() {
    let mut reg = Registry::new();
    let rid = reg.create_room(&"A".to_string());
    assert!(reg.join_room(&rid, &"B".to_string()).is_ok());
    assert_eq!(reg.leave(&rid, &"B".to_string()), LeaveOutcome::Kept);
    assert_eq!(reg.rooms.len(), 1);
}

/// A deck arranged so the cards with ids 0 and 1 share value 3.
fn deck_with_value_three_up_front() -> Vec<Card> {
    let values = [3u8, 3, 0, 0, 1, 1, 2, 2, 4, 4, 5, 5, 6, 6, 7, 7];
    (0u8..16)
        .map(|id| Card { id, value: values[id as usize], flipped: false, matched: false })
        .collect()
}

#[test]
fn full_session_create_join_start_and_match() {
    let mut reg = Registry::new();
    let a = "A".to_string();
    let b = "B".to_string();
    let mut a_room: Option<String> = None;
    let mut b_room: Option<String> = None;

    // A creates a room
    let created = reg.handle_client_message(ClientMessage::CreateGame, &a, &mut a_room);
    let rid = match created.reply {
        Some(ServerMessage::GameCreated { room_id, player_id }) => {
            assert_eq!(player_id, "A");
            room_id
        },
        _ => panic!("creating a game must answer GameCreated"),
    };
    assert!(created.register_output);
    assert_eq!(created.room.as_deref(), Some(rid.as_str()));
    assert_eq!(a_room.as_deref(), Some(rid.as_str()));

    // lay the deck out so cards 0 and 1 share value 3
    reg.rooms[0].state.cards = deck_with_value_three_up_front();

    // B joins: B is answered GameJoined, the room is broadcast the state
    let joined = reg.handle_client_message(
        ClientMessage::JoinGame { room_id: rid.clone() },
        &b,
        &mut b_room,
    );
    match joined.reply {
        Some(ServerMessage::GameJoined { ref state }) => {
            assert_eq!(state.players.1.as_ref().unwrap().id, "B");
        },
        _ => panic!("joining must answer GameJoined"),
    }
    match joined.broadcast {
        Some(ServerMessage::GameStateUpdate { ref state }) => {
            assert_eq!(state.players.1.as_ref().unwrap().id, "B");
            assert_eq!(state.players.0.id, "A");
        },
        _ => panic!("joining must broadcast the updated state"),
    }
    assert!(joined.register_output);
    assert_eq!(b_room.as_deref(), Some(rid.as_str()));

    // A starts the game: sixty seconds on the clock
    let started = reg.handle_client_message(
        ClientMessage::StartGame { room_id: rid.clone() },
        &a,
        &mut a_room,
    );
    assert_eq!(reg.rooms[0].state.status, GameStatus::Playing);
    assert_eq!(reg.rooms[0].state.timer, 60);
    assert_eq!(started.start_timer, Some(60));
    match started.broadcast {
        Some(ServerMessage::GameStarted { timer }) => assert_eq!(timer, 60),
        _ => panic!("starting must broadcast GameStarted"),
    }

    // A flips cards 0 and 1, which share value 3: a match, a point, the turn stays
    let first = reg.handle_client_message(ClientMessage::FlipCard { card_id: 0 }, &a, &mut a_room);
    match first.broadcast {
        Some(ServerMessage::GameStateUpdate { ref state }) => {
            assert!(state.cards[0].flipped && !state.cards[0].matched);
        },
        _ => panic!("a valid flip must broadcast the updated state"),
    }
    let second = reg.handle_client_message(ClientMessage::FlipCard { card_id: 1 }, &a, &mut a_room);
    match second.broadcast {
        Some(ServerMessage::GameStateUpdate { ref state }) => {
            assert!(state.cards[0].matched && state.cards[1].matched);
            assert_eq!(state.scores, (1, 0));
        },
        _ => panic!("a matching flip must broadcast the updated state"),
    }
    assert!(second.schedule_unflip.is_none());
    assert_eq!(reg.rooms[0].state.scores, (1, 0));
    assert_eq!(reg.rooms[0].state.current_turn, "A");
}

#[test]
fn flip_without_a_room_is_silent() {
    let mut reg = Registry::new();
    let mut session: Option<String> = None;
    let a = reg.handle_client_message(
        ClientMessage::FlipCard { card_id: 0 },
        &"A".to_string(),
        &mut session,
    );
    assert_silent(&a);
}

#[test]
fn mismatch_through_the_dispatcher_schedules_the_unflip() {
    let mut reg = Registry::new();
    let a = "A".to_string();
    let b = "B".to_string();
    let mut a_room: Option<String> = None;
    let mut b_room: Option<String> = None;
    let created = reg.handle_client_message(ClientMessage::CreateGame, &a, &mut a_room);
    let rid = match created.reply {
        Some(ServerMessage::GameCreated { room_id, .. }) => room_id,
        _ => panic!("creating a game must answer GameCreated"),
    };
    reg.rooms[0].state.cards = deck_with_value_three_up_front();
    let _ = reg.handle_client_message(
        ClientMessage::JoinGame { room_id: rid.clone() },
        &b,
        &mut b_room,
    );
    let _ = reg.handle_client_message(
        ClientMessage::StartGame { room_id: rid.clone() },
        &a,
        &mut a_room,
    );
    // cards 0 and 2 carry values 3 and 0: a mismatch
    let _ = reg.handle_client_message(ClientMessage::FlipCard { card_id: 0 }, &a, &mut a_room);
    let out = reg.handle_client_message(ClientMessage::FlipCard { card_id: 2 }, &a, &mut a_room);
    assert_eq!(out.schedule_unflip, Some((2, 0)));
    assert_eq!(reg.rooms[0].state.current_turn, "B");
    // the delayed task resolves against the shared state
    let resolved = reg.resolve_mismatch(&rid, 2, 0).expect("the room is still playing");
    assert!(!resolved.cards[0].flipped && !resolved.cards[2].flipped);
    assert_eq!(resolved.scores, (0, 0));
}

#[test]
fn wrong_turn_through_the_dispatcher_is_silent() {
    let mut reg = Registry::new();
    let a = "A".to_string();
    let b = "B".to_string();
    let mut a_room: Option<String> = None;
    let mut b_room: Option<String> = None;
    let created = reg.handle_client_message(ClientMessage::CreateGame, &a, &mut a_room);
    let rid = match created.reply {
        Some(ServerMessage::GameCreated { room_id, .. }) => room_id,
        _ => panic!("creating a game must answer GameCreated"),
    };
    let _ = reg.handle_client_message(
        ClientMessage::JoinGame { room_id: rid.clone() },
        &b,
        &mut b_room,
    );
    let _ = reg.handle_client_message(
        ClientMessage::StartGame { room_id: rid.clone() },
        &a,
        &mut a_room,
    );
    // the turn is A's; B's flip changes nothing and answers nothing
    let out = reg.handle_client_message(ClientMessage::FlipCard { card_id: 0 }, &b, &mut b_room);
    assert_silent(&out);
    assert!(reg.rooms[0].state.cards.iter().all(|c| !c.flipped));
}

#[test]
fn dispatcher_reports_the_error_messages() {
    let mut reg = Registry::new();
    let a = "A".to_string();
    let mut session: Option<String> = None;
    let out = reg.handle_client_message(
        ClientMessage::JoinGame { room_id: "NOWHERE0".to_string() },
        &a,
        &mut session,
    );
    match out.reply {
        Some(ServerMessage::Error { ref message }) => assert_eq!(message, "Room not found"),
        _ => panic!("joining an unknown room must answer an error"),
    }
    let created = reg.handle_client_message(ClientMessage::CreateGame, &a, &mut session);
    let rid = match created.reply {
        Some(ServerMessage::GameCreated { room_id, .. }) => room_id,
        _ => panic!("creating a game must answer GameCreated"),
    };
    let out = reg.handle_client_message(
        ClientMessage::StartGame { room_id: rid.clone() },
        &a,
        &mut session,
    );
    match out.reply {
        Some(ServerMessage::Error { ref message }) => assert_eq!(message, "Not enough players"),
        _ => panic!("starting alone must answer an error"),
    }
    let mut b_room: Option<String> = None;
    let _ = reg.handle_client_message(
        ClientMessage::JoinGame { room_id: rid.clone() },
        &"B".to_string(),
        &mut b_room,
    );
    let out = reg.handle_client_message(
        ClientMessage::JoinGame { room_id: rid },
        &"C".to_string(),
        &mut session,
    );
    match out.reply {
        Some(ServerMessage::Error { ref message }) => assert_eq!(message, "Room is full"),
        _ => panic!("joining a full room must answer an error"),
    }
}
