//! A hand being played at a table, and the states of hands and games.
use vstd::prelude::*;

use crate::player::PokerPlayer;
use crate::pubkey::{zero_key, Pubkey};

verus! {

/// Where a hand stands.
#[derive(Clone, Copy, Debug, PartialEq, Eq, Structural)]
pub enum HandState {
    WaitingBigBlind,
    WaitingSmallBlind,
    WaitingPlayer,
    Finished,
}

impl Default for HandState {
    /// A hand starts by waiting for the big blind.
    fn default() -> (s: HandState)
        ensures
            s == HandState::WaitingBigBlind,
    {
        HandState::WaitingBigBlind
    }
}

/// Where the game at a table stands.
#[derive(Clone, Copy, Debug, PartialEq, Eq, Structural)]
pub enum GameState {
    WaitingSmallBlind,
    WaitingBigBlind,
    WaitingPlayerBet,
    Finished,
    Ready,
    Step,
    Started,
}

impl Default for GameState {
    /// A new table is ready for play.
    fn default() -> (s: GameState)
        ensures
            s == GameState::Ready,
    {
        GameState::Ready
    }
}

/// One hand of poker: the players dealt in and who posts the blinds.
/// Positions index `players`.
#[derive(Clone, Debug, PartialEq, Eq)]
pub struct Hand {
    pub players: Vec<PokerPlayer>,
    pub turn_index: u8,
    pub big_blind_position: u8,
    pub big_blind_address: Pubkey,
    pub small_blind_position: u8,
    pub small_blind_address: Pubkey,
    pub hand_state: HandState,
    pub pot: u64,
}

impl Hand {
    /// A hand that has not been dealt: nobody in it, nothing in the pot.
    pub open spec fn is_blank(self) -> bool {
        &&& self.players@.len() == 0
        &&& self.turn_index == 0
        &&& self.big_blind_position == 0
        &&& self.big_blind_address@ == zero_key()
        &&& self.small_blind_position == 0
        &&& self.small_blind_address@ == zero_key()
        &&& self.hand_state == HandState::WaitingBigBlind
        &&& self.pot == 0
    }
}

impl Default for Hand {
    /// The blank hand.
    fn default() -> (h: Hand)
        ensures
            h.is_blank(),
            h.players@.len() == 0,
            h.turn_index == 0,
            h.pot == 0,
            h.hand_state == HandState::WaitingBigBlind,
    {
        Hand {
            players: Vec::new(),
            turn_index: 0,
            big_blind_position: 0,
            big_blind_address: Pubkey::zero(),
            small_blind_position: 0,
            small_blind_address: Pubkey::zero(),
            hand_state: HandState::WaitingBigBlind,
            pot: 0,
        }
    }
}

} // verus!
