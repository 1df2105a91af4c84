use solana_poker::hand::GameState;
use solana_poker::processor::{process_command, require_signer, Command, ProgramError};
use solana_poker::program_state::State;
use solana_poker::pubkey::Pubkey;
use solana_poker::room::Room;

#[test]
fn unsigned_transactions_are_refused() {
    assert_eq!(require_signer(false), Err(ProgramError::MissingRequiredSignature));
    assert_eq!(require_signer(true), Ok(()));
}

#[test]
fn create_room_in_an_empty_account() {
    let creator = Pubkey::new_from_array([5; 32]);
    let state = process_command(Command::CreateRoom(200, 9), State::Uninitialized, &creator);
    match state {
        Ok(State::Room(room)) => {
            assert_eq!(room, Room::create(&creator, 200, 9));
            assert_eq!(room.small_blind, 100);
            assert_eq!(room.game_state, GameState::Ready);
        }
        other => panic!("expected a room, got {:?}", other),
    }
}

#[test]
fn create_room_refuses_an_initialized_account() {
    let creator = Pubkey::new_from_array([5; 32]);
    let existing = State::Room(Room::create(&creator, 10, 2));
    assert_eq!(
        process_command(Command::CreateRoom(200, 9), existing, &creator),
        Err(ProgramError::InvalidArgument)
    );
    assert_eq!(
        process_command(
            Command::CreateRoom(200, 9),
            State::Hand(Default::default()),
            &creator
        ),
        Err(ProgramError::InvalidArgument)
    );
}
