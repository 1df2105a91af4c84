//! Verified game logic of a Solana poker table: seats, blinds and hands.
//!
//! The account plumbing, token transfers and (de)serialization of the
//! on-chain program live outside this crate; everything that decides what
//! happens to a room or a hand is here, with its contract.
pub mod error;
pub mod pubkey;
pub mod player;
pub mod hand;
pub mod room;
pub mod program_state;
pub mod processor;
pub mod token;
