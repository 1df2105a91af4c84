//! The players seated at a table.
use vstd::prelude::*;

use crate::pubkey::Pubkey;

verus! {

/// Whether a seated player takes part in the next hand.
#[derive(Clone, Copy, Debug, PartialEq, Eq, Structural)]
pub enum PlayerStatus {
    Playing,
    Out,
}

impl Default for PlayerStatus {
    /// A player who has just sat down is out until they say otherwise.
    fn default() -> (s: PlayerStatus)
        ensures
            s == PlayerStatus::Out,
    {
        PlayerStatus::Out
    }
}

/// A player seated at a table.
#[derive(Clone, Copy, Debug, PartialEq, Eq)]
pub struct PokerPlayer {
    pub address: Pubkey,
    pub status: PlayerStatus,
    pub last_activity: u64,
}

impl PokerPlayer {
    /// A player with the given address who has just sat down: out, with no
    /// activity recorded.
    pub open spec fn seated(address: Pubkey) -> PokerPlayer {
        PokerPlayer { address, status: PlayerStatus::Out, last_activity: 0 }
    }

    /// A newly seated player with the given address.
    pub fn new(address: Pubkey) -> (p: PokerPlayer)
        ensures
            p == PokerPlayer::seated(address),
            p.address == address,
            p.status == PlayerStatus::Out,
            p.last_activity == 0,
    {
        PokerPlayer { address, status: PlayerStatus::Out, last_activity: 0 }
    }

    /// Whether the player takes part in the next hand.
    pub fn is_playing(&self) -> (b: bool)
        ensures
            b == (self.status == PlayerStatus::Playing),
    {
        match self.status {
            PlayerStatus::Playing => true,
            PlayerStatus::Out => false,
        }
    }
}

impl Default for PokerPlayer {
    /// A seated player at the all-zero address.
    fn default() -> (p: PokerPlayer)
        ensures
            p.address@ == crate::pubkey::zero_key(),
            p.status == PlayerStatus::Out,
            p.last_activity == 0,
    {
        PokerPlayer::new(Pubkey::zero())
    }
}

} // verus!
