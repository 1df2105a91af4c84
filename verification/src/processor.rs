//! How an instruction sent to the program changes the room account.
use vstd::prelude::*;

use crate::error::{error_code, SolanaPokerError};
use crate::program_state::State;
use crate::pubkey::Pubkey;
use crate::room::Room;

verus! {

/// The ways an instruction can fail, as the runtime reports them.
#[derive(Clone, Copy, Debug, PartialEq, Eq, Structural)]
pub enum ProgramError {
    /// An error of the poker program, by its number.
    CustomError(u32),
    /// The instruction does not apply to the account.
    InvalidArgument,
    /// The first account did not sign the transaction.
    MissingRequiredSignature,
}

impl From<SolanaPokerError> for ProgramError {
    fn from(e: SolanaPokerError) -> (r: ProgramError) {
        ProgramError::CustomError(e.code())
    }
}

impl vstd::std_specs::convert::FromSpecImpl<SolanaPokerError> for ProgramError {
    open spec fn obeys_from_spec() -> bool {
        true
    }

    open spec fn from_spec(e: SolanaPokerError) -> ProgramError {
        ProgramError::CustomError(error_code(e))
    }
}

/// The instructions the program takes.
#[derive(Clone, Copy, Debug, PartialEq, Eq, Structural)]
pub enum Command {
    /// Open a room with this big blind and this many seats.
    CreateRoom(u64, u8),
}

/// The first account must have signed the transaction.
pub fn require_signer(is_signer: bool) -> (r: Result<(), ProgramError>)
    ensures
        r is Ok <==> is_signer,
        r matches Err(e) ==> e == ProgramError::MissingRequiredSignature,
{
    if is_signer {
        Ok(())
    } else {
        Err(ProgramError::MissingRequiredSignature)
    }
}

/// Applies `command`, sent by `player`, to the account contents `state`,
/// giving what the account holds afterwards. A room is only opened in an
/// account that holds nothing yet.
pub fn process_command(command: Command, state: State, player: &Pubkey) -> (r: Result<
    State,
    ProgramError,
>)
    ensures
        r is Ok <==> state is Uninitialized,
        r matches Err(e) ==> e == ProgramError::InvalidArgument,
        match command {
            Command::CreateRoom(big_blind, max_players) => r matches Ok(s) ==> s matches State::Room(
                room,
            ) && room.is_new(*player, big_blind, max_players) && room.wf() && room.creator
                == *player && room.big_blind == big_blind && room.small_blind == big_blind / 2
                && room.max_players == max_players && room.players@.len() == 0,
        },
{
    match command {
        Command::CreateRoom(big_blind, max_players) => {
            match state {
                State::Uninitialized => {
                    let room = Room::create(player, big_blind, max_players);
                    Ok(State::Room(room))
                },
                _ => Err(ProgramError::InvalidArgument),
            }
        },
    }
}

} // verus!
