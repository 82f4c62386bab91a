use memory_pairs::cards::Card;
use memory_pairs::game::{GameState, GameStatus, Player};
use memory_pairs::room::{FlipOutcome, Room, StartOutcome, TickOutcome};
use memory_pairs::{all_cards_matched, determine_winner};

fn player(id: &str, name: &str) -> Player {
    Player { id: id.to_string(), name: name.to_string() }
}

fn ordered_deck() -> Vec<Card> {
    (0u8..16).map(|id| Card { id, value: id / 2, flipped: false, matched: false }).collect()
}

fn playing_room() -> Room {
    Room {
        id: "ROOMID00".to_string(),
        creator_id: "A".to_string(),
        state: GameState {
            cards: ordered_deck(),
            players: (player("A", "Player 1"), Some(player("B", "Player 2"))),
            current_turn: "A".to_string(),
            scores: (0, 0),
            timer: 60,
            status: GameStatus::Playing,
            winner: None,
        },
    }
}

#[test]
fn join_fills_second_slot() {
    let mut room = playing_room();
    room.state.status = GameStatus::Waiting;
    room.state.players.1 = None;
    let joined = room.join(&"B".to_string());
    let state = joined.expect("join on a free slot succeeds");
    assert_eq!(state.players.1.as_ref().unwrap().id, "B");
    assert_eq!(state.players.1.as_ref().unwrap().name, "Player 2");
    assert_eq!(room.state.players.1.as_ref().unwrap().id, "B");
}

#[test]
fn join_full_room_is_rejected_without_mutation() {
    let mut room = playing_room();
    let before_turn = room.state.current_turn.clone();
    let res = room.join(&"C".to_string());
    assert!(res.is_none());
    assert_eq!(room.state.players.1.as_ref().unwrap().id, "B");
    assert_eq!(room.state.current_turn, before_turn);
}

#[test]
fn start_requires_second_player() {
    let mut room = playing_room();
    room.state.status = GameStatus::Waiting;
    room.state.players.1 = None;
    assert_eq!(room.start(), StartOutcome::NotEnoughPlayers);
    assert_eq!(room.state.status, GameStatus::Waiting);
}

#[test]
fn start_moves_waiting_room_into_play() {
    let mut room = playing_room();
    room.state.status = GameStatus::Waiting;
    assert_eq!(room.start(), StartOutcome::Started { timer: 60 });
    assert_eq!(room.state.status, GameStatus::Playing);
}

#[test]
fn start_does_not_spawn_a_second_timer() {
    let mut room = playing_room();
    assert_eq!(room.start(), StartOutcome::AlreadyRunning);
    assert_eq!(room.state.status, GameStatus::Playing);
}

#[test]
fn flip_by_wrong_player_is_a_no_op() {
    let mut room = playing_room();
    let out = room.flip(&"B".to_string(), 0);
    assert!(matches!(out, FlipOutcome::Ignored));
    assert!(room.state.cards.iter().all(|c| !c.flipped && !c.matched));
    assert_eq!(room.state.current_turn, "A");
    assert_eq!(room.state.scores, (0, 0));
}

#[test]
fn flip_when_finished_is_a_no_op() {
    let mut room = playing_room();
    room.state.status = GameStatus::Finished;
    room.state.winner = Some("draw".to_string());
    let out = room.flip(&"A".to_string(), 0);
    assert!(matches!(out, FlipOutcome::Ignored));
    assert!(room.state.cards.iter().all(|c| !c.flipped));
}

#[test]
fn flip_already_flipped_card_is_a_no_op() {
    let mut room = playing_room();
    let first = room.flip(&"A".to_string(), 5);
    assert!(matches!(first, FlipOutcome::Updated { .. }));
    let second = room.flip(&"A".to_string(), 5);
    assert!(matches!(second, FlipOutcome::Ignored));
}

#[test]
fn matching_pair_scores_and_keeps_turn() {
    let mut room = playing_room();
    let first = room.flip(&"A".to_string(), 0);
    match first {
        FlipOutcome::Updated { ref state, unflip } => {
            assert!(unflip.is_none());
            assert!(state.cards[0].flipped && !state.cards[0].matched);
        },
        _ => panic!("first flip should update the board"),
    }
    let second = room.flip(&"A".to_string(), 1);
    match second {
        FlipOutcome::Updated { ref state, unflip } => {
            assert!(unflip.is_none());
            assert!(state.cards[0].matched && state.cards[1].matched);
        },
        _ => panic!("second flip should update the board"),
    }
    assert_eq!(room.state.scores, (1, 0));
    assert_eq!(room.state.current_turn, "A");
    assert_eq!(room.state.status, GameStatus::Playing);
}

#[test]
fn mismatch_passes_turn_and_schedules_unflip() {
    let mut room = playing_room();
    let _ = room.flip(&"A".to_string(), 0);
    let second = room.flip(&"A".to_string(), 2);
    match second {
        FlipOutcome::Updated { ref state, unflip } => {
            // the mismatch stays visible until the delayed task fires
            assert!(state.cards[0].flipped && state.cards[2].flipped);
            assert_eq!(unflip, Some((2, 0)));
        },
        _ => panic!("mismatch should update the board"),
    }
    assert_eq!(room.state.current_turn, "B");
    assert_eq!(room.state.scores, (0, 0));
    let resolved = room.unflip_pair(2, 0).expect("a playing room resolves the mismatch");
    assert!(!resolved.cards[0].flipped && !resolved.cards[2].flipped);
    assert!(!room.state.cards[0].flipped && !room.state.cards[2].flipped);
    assert_eq!(room.state.scores, (0, 0));
}

#[test]
fn unflip_is_cancelled_once_finished() {
    let mut room = playing_room();
    let _ = room.flip(&"A".to_string(), 0);
    let _ = room.flip(&"A".to_string(), 2);
    room.state.status = GameStatus::Finished;
    room.state.winner = Some("draw".to_string());
    assert!(room.unflip_pair(2, 0).is_none());
    assert!(room.state.cards[0].flipped && room.state.cards[2].flipped);
}

fn nearly_done_room(scores: (u8, u8), turn: &str) -> Room {
    let mut room = playing_room();
    for c in room.state.cards.iter_mut() {
        if c.id >= 2 {
            c.flipped = true;
            c.matched = true;
        }
    }
    room.state.scores = scores;
    room.state.current_turn = turn.to_string();
    room
}

#[test]
fn completing_the_last_pair_finishes_with_higher_score_winning() {
    // 14 cards matched, 7 points awarded so far
    let mut room = nearly_done_room((4, 3), "A");
    let _ = room.flip(&"A".to_string(), 0);
    let out = room.flip(&"A".to_string(), 1);
    match out {
        FlipOutcome::Finished { ref state, ref winner, scores } => {
            assert_eq!(state.status, GameStatus::Finished);
            assert_eq!(winner, "A");
            assert_eq!(scores, (5, 3));
        },
        _ => panic!("the last pair should finish the game"),
    }
    assert_eq!(room.state.status, GameStatus::Finished);
    assert_eq!(room.state.winner.as_deref(), Some("A"));
}

#[test]
fn completing_the_last_pair_with_equal_scores_is_a_draw() {
    let mut room = nearly_done_room((3, 4), "A");
    let _ = room.flip(&"A".to_string(), 0);
    let out = room.flip(&"A".to_string(), 1);
    match out {
        FlipOutcome::Finished { winner, scores, .. } => {
            assert_eq!(winner, "draw");
            assert_eq!(scores, (4, 4));
        },
        _ => panic!("the last pair should finish the game"),
    }
}

#[test]
fn tick_decrements_and_broadcasts_running_state() {
    let mut room = playing_room();
    let out = room.tick();
    match out {
        TickOutcome::Running { state } => {
            assert_eq!(state.timer, 59);
            assert_eq!(state.status, GameStatus::Playing);
        },
        _ => panic!("a fresh game keeps running after one tick"),
    }
    assert_eq!(room.state.timer, 59);
}

#[test]
fn countdown_reaching_zero_finishes_with_the_same_winner_rule() {
    let mut room = playing_room();
    room.state.timer = 1;
    for c in room.state.cards.iter_mut() {
        if c.id < 6 {
            c.flipped = true;
            c.matched = true;
        }
    }
    room.state.scores = (2, 1);
    let out = room.tick();
    match out {
        TickOutcome::Over { ref state, ref winner, scores } => {
            assert_eq!(state.status, GameStatus::Finished);
            assert_eq!(state.timer, 0);
            assert_eq!(winner, "A");
            assert_eq!(scores, (2, 1));
        },
        _ => panic!("the countdown reaching zero ends the game"),
    }
    assert_eq!(room.state.status, GameStatus::Finished);
}

#[test]
fn countdown_with_equal_scores_is_a_draw() {
    let mut room = playing_room();
    room.state.timer = 1;
    let out = room.tick();
    match out {
        TickOutcome::Over { winner, scores, .. } => {
            assert_eq!(winner, "draw");
            assert_eq!(scores, (0, 0));
        },
        _ => panic!("the countdown reaching zero ends the game"),
    }
}

#[test]
fn tick_stops_once_the_room_is_finished() {
    let mut room = playing_room();
    room.state.status = GameStatus::Finished;
    room.state.winner = Some("draw".to_string());
    assert!(matches!(room.tick(), TickOutcome::Stopped));
    assert_eq!(room.state.timer, 60);
}

#[test]
fn determine_winner_compares_scores_strictly() {
    let mut room = playing_room();
    room.state.scores = (3, 1);
    assert_eq!(determine_winner(&room.state), "A");
    room.state.scores = (1, 3);
    assert_eq!(determine_winner(&room.state), "B");
    room.state.scores = (2, 2);
    assert_eq!(determine_winner(&room.state), "draw");
}

#[test]
fn all_cards_matched_reports_the_board() {
    let mut deck = ordered_deck();
    assert!(!all_cards_matched(&deck));
    for c in deck.iter_mut() {
        c.matched = true;
    }
    assert!(all_cards_matched(&deck));
    deck[7].matched = false;
    assert!(!all_cards_matched(&deck));
    assert!(all_cards_matched(&[]));
}
