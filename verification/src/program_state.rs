//! What a program account holds.
use vstd::prelude::*;

use crate::hand::Hand;
use crate::room::Room;

verus! {

/// The contents of a program account.
#[derive(Clone, Debug, PartialEq, Eq)]
pub enum State {
    /// The account holds nothing yet.
    Uninitialized,
    /// The account holds a room.
    Room(Room),
    /// The account holds a hand.
    Hand(Hand),
}

} // verus!
