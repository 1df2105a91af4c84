use solana_poker::error::SolanaPokerError;
use solana_poker::hand::{GameState, Hand, HandState};
use solana_poker::player::{PlayerStatus, PokerPlayer};
use solana_poker::pubkey::Pubkey;
use solana_poker::room::Room;

fn key(b: u8) -> Pubkey {
    Pubkey::new_from_array([b; 32])
}

fn addresses(players: &[PokerPlayer]) -> Vec<Pubkey> {
    players.iter().map(|p| p.address).collect()
}

fn set_playing(room: &mut Room, b: u8) {
    for p in room.players.iter_mut() {
        if p.address == key(b) {
            p.status = PlayerStatus::Playing;
        }
    }
}

fn room_with(seats: &[u8], max_players: u8) -> Room {
    let mut room = Room::create(&key(99), 100, max_players);
    for s in seats {
        room.join(key(*s)).unwrap();
    }
    room
}

#[test]
fn create_sets_blinds_and_empty_table() {
    let room = Room::create(&key(7), 101, 6);
    assert_eq!(room.creator, key(7));
    assert_eq!(room.big_blind, 101);
    assert_eq!(room.small_blind, 50);
    assert_eq!(room.max_players, 6);
    assert!(room.players.is_empty());
    assert_eq!(room.big_blind_position, 0);
    assert_eq!(room.big_blind_address, Pubkey::zero());
    assert_eq!(room.game_state, GameState::Ready);
    assert_eq!(room.current_hand, Hand::default());
    assert_eq!(Room::new(key(7), 101, 6), room);
}

#[test]
fn defaults() {
    assert_eq!(PlayerStatus::default(), PlayerStatus::Out);
    assert_eq!(HandState::default(), HandState::WaitingBigBlind);
    assert_eq!(GameState::default(), GameState::Ready);
    let p = PokerPlayer::default();
    assert_eq!(p.address, Pubkey::default());
    assert_eq!(p.status, PlayerStatus::Out);
    assert_eq!(p.last_activity, 0);
    let r = Room::default();
    assert_eq!(r.big_blind, 0);
    assert_eq!(r.max_players, 0);
    assert!(r.players.is_empty());
    assert_eq!(r.creator, Pubkey::zero());
    assert_eq!(r.game_state, GameState::Ready);
    assert_eq!(r.current_hand, Hand::default());
    let h = Hand::default();
    assert!(h.players.is_empty());
    assert_eq!(h.pot, 0);
    assert_eq!(h.hand_state, HandState::WaitingBigBlind);
}

#[test]
fn pubkey_bytes_and_equality() {
    let mut bytes = [3u8; 32];
    bytes[31] = 4;
    let k = Pubkey::new_from_array(bytes);
    assert_eq!(k.to_bytes(), bytes);
    assert!(k.key_eq(&Pubkey::new_from_array(bytes)));
    assert!(!k.key_eq(&key(3)));
    assert_eq!(Pubkey::zero().to_bytes(), [0u8; 32]);
}

#[test]
fn join_seats_a_new_player_out() {
    let mut room = Room::create(&key(1), 10, 2);
    assert_eq!(room.join(key(1)), Ok(()));
    assert_eq!(room.players.len(), 1);
    assert_eq!(room.players[0], PokerPlayer::new(key(1)));
    assert_eq!(room.players[0].status, PlayerStatus::Out);
}

#[test]
fn join_refuses_a_full_room() {
    let mut room = room_with(&[1, 2], 2);
    let before = room.clone();
    assert_eq!(room.join(key(3)), Err(SolanaPokerError::RoomFull));
    assert_eq!(room, before);
}

#[test]
fn join_refuses_a_room_without_seats() {
    let mut room = Room::create(&key(1), 10, 0);
    assert_eq!(room.join(key(1)), Err(SolanaPokerError::RoomFull));
    assert!(room.players.is_empty());
}

#[test]
fn leave_removes_every_seat_of_the_player() {
    let mut room = room_with(&[1, 2, 1, 3], 5);
    assert_eq!(room.leave(key(1)), Ok(()));
    assert_eq!(addresses(&room.players), vec![key(2), key(3)]);
}

#[test]
fn leave_of_an_absent_player_changes_nothing() {
    let mut room = room_with(&[1, 2], 5);
    let before = room.clone();
    assert_eq!(room.leave(key(9)), Ok(()));
    assert_eq!(room, before);
}

#[test]
fn leave_undoes_join() {
    let mut room = room_with(&[1, 2], 5);
    let before = room.clone();
    room.join(key(3)).unwrap();
    room.leave(key(3)).unwrap();
    assert_eq!(room, before);
}

#[test]
fn available_and_disabled_return_for_a_player_without_a_seat() {
    let mut room = room_with(&[1, 2], 5);
    set_playing(&mut room, 2);
    let before = room.clone();
    assert_eq!(room.available(key(3)), Ok(()));
    assert_eq!(room, before);
    assert_eq!(room.disabled(key(3)), Ok(()));
    assert_eq!(room, before);
}

#[test]
fn start_hand_needs_two_playing_players() {
    let mut room = room_with(&[1, 2, 3], 5);
    set_playing(&mut room, 2);
    let before = room.clone();
    assert_eq!(room.startHand(), Err(SolanaPokerError::RoomFull));
    assert_eq!(room, before);
}

#[test]
fn first_hand_starts_with_the_first_players() {
    let mut room = room_with(&[1, 2, 3], 5);
    set_playing(&mut room, 1);
    set_playing(&mut room, 2);
    set_playing(&mut room, 3);
    assert_eq!(room.startHand(), Ok(()));
    let hand = &room.current_hand;
    assert_eq!(addresses(&hand.players), vec![key(1), key(2), key(3)]);
    assert_eq!(hand.big_blind_position, 0);
    assert_eq!(hand.big_blind_address, key(1));
    assert_eq!(hand.small_blind_position, 1);
    assert_eq!(hand.small_blind_address, key(2));
    assert_eq!(hand.turn_index, 0);
    assert_eq!(hand.pot, 0);
    assert_eq!(hand.hand_state, HandState::WaitingBigBlind);
}

#[test]
fn only_playing_players_are_dealt_in() {
    let mut room = room_with(&[1, 2, 3, 4], 5);
    set_playing(&mut room, 2);
    set_playing(&mut room, 4);
    assert_eq!(room.startHand(), Ok(()));
    assert_eq!(addresses(&room.current_hand.players), vec![key(2), key(4)]);
    assert_eq!(room.current_hand.big_blind_address, key(2));
    assert_eq!(room.current_hand.small_blind_address, key(4));
}

#[test]
fn big_blind_moves_one_seat_on() {
    let mut room = room_with(&[1, 2, 3], 5);
    for k in [1, 2, 3] {
        set_playing(&mut room, k);
    }
    room.big_blind_address = key(1);
    assert_eq!(room.startHand(), Ok(()));
    assert_eq!(room.current_hand.big_blind_position, 1);
    assert_eq!(room.current_hand.big_blind_address, key(2));
    assert_eq!(room.current_hand.small_blind_position, 2);
    assert_eq!(room.current_hand.small_blind_address, key(3));
}

#[test]
fn big_blind_returns_to_the_first_player_past_the_dealt_ones() {
    let mut room = room_with(&[1, 2, 3, 4], 5);
    set_playing(&mut room, 1);
    set_playing(&mut room, 2);
    room.big_blind_address = key(4);
    assert_eq!(room.startHand(), Ok(()));
    assert_eq!(addresses(&room.current_hand.players), vec![key(1), key(2)]);
    assert_eq!(room.current_hand.big_blind_position, 0);
    assert_eq!(room.current_hand.big_blind_address, key(1));
    assert_eq!(room.current_hand.small_blind_position, 1);
    assert_eq!(room.current_hand.small_blind_address, key(2));
}

#[test]
fn big_blind_position_counts_all_seats() {
    let mut room = room_with(&[1, 2, 3, 4], 5);
    set_playing(&mut room, 2);
    set_playing(&mut room, 3);
    set_playing(&mut room, 4);
    room.big_blind_address = key(1);
    assert_eq!(room.startHand(), Ok(()));
    assert_eq!(room.current_hand.big_blind_position, 1);
    assert_eq!(room.current_hand.big_blind_address, key(3));
    assert_eq!(room.current_hand.small_blind_position, 2);
    assert_eq!(room.current_hand.small_blind_address, key(4));
}

#[test]
fn start_hand_leaves_the_seats_alone() {
    let mut room = room_with(&[1, 2], 5);
    set_playing(&mut room, 1);
    set_playing(&mut room, 2);
    let before = room.clone();
    room.startHand().unwrap();
    assert_eq!(room.players, before.players);
    assert_eq!(room.game_state, before.game_state);
    assert_eq!(room.big_blind_address, before.big_blind_address);
}

#[test]
fn call_big_blind_moves_on_after_the_transfer() {
    let mut room = room_with(&[1, 2], 5);
    assert_eq!(room.call_big_blind(true), Ok(()));
    assert_eq!(room.game_state, GameState::WaitingSmallBlind);
}

#[test]
fn call_big_blind_reports_a_failed_transfer() {
    let mut room = room_with(&[1, 2], 5);
    let before = room.clone();
    assert_eq!(room.call_big_blind(false), Err(SolanaPokerError::TokenTransferFailed));
    assert_eq!(room, before);
}
