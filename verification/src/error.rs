//! Errors of the poker program and their numeric codes.
use vstd::prelude::*;

verus! {

/// The errors the poker program reports; on chain each is carried as a
/// custom program error whose number is [`SolanaPokerError::code`].
#[derive(Clone, Copy, Debug, PartialEq, Eq, Structural)]
pub enum SolanaPokerError {
    DeserializationFailed,
    RoomFull,
    InvalidTimestamp,
    PlayerNotFound,
    TokenTransferFailed,
}

/// The number of an error. The first three and the last are numbered by
/// their position in the declaration, from zero; a player who is not found
/// is reported as number 5, and number 3 stands for no error.
pub open spec fn error_code(e: SolanaPokerError) -> u32 {
    match e {
        SolanaPokerError::DeserializationFailed => 0,
        SolanaPokerError::RoomFull => 1,
        SolanaPokerError::InvalidTimestamp => 2,
        SolanaPokerError::PlayerNotFound => 5,
        SolanaPokerError::TokenTransferFailed => 4,
    }
}

/// The numbers that stand for an error.
pub open spec fn is_error_code(code: u32) -> bool {
    code <= 2 || code == 4 || code == 5
}

/// The error whose number is `code`, if there is one.
pub open spec fn error_from_code(code: u32) -> Option<SolanaPokerError> {
    if exists|e: SolanaPokerError| error_code(e) == code {
        Some(choose|e: SolanaPokerError| error_code(e) == code)
    } else {
        None
    }
}

/// Decoding by cases: the error of each number, and none for the others.
proof fn lemma_decode(code: u32)
    ensures
        error_from_code(code) == if code == 0 {
            Some(SolanaPokerError::DeserializationFailed)
        } else if code == 1 {
            Some(SolanaPokerError::RoomFull)
        } else if code == 2 {
            Some(SolanaPokerError::InvalidTimestamp)
        } else if code == 4 {
            Some(SolanaPokerError::TokenTransferFailed)
        } else if code == 5 {
            Some(SolanaPokerError::PlayerNotFound)
        } else {
            None::<SolanaPokerError>
        },
{
    if code == 0 {
        assert(error_code(SolanaPokerError::DeserializationFailed) == code);
    } else if code == 1 {
        assert(error_code(SolanaPokerError::RoomFull) == code);
    } else if code == 2 {
        assert(error_code(SolanaPokerError::InvalidTimestamp) == code);
    } else if code == 4 {
        assert(error_code(SolanaPokerError::TokenTransferFailed) == code);
    } else if code == 5 {
        assert(error_code(SolanaPokerError::PlayerNotFound) == code);
    }
}

impl SolanaPokerError {
    /// The custom error number that stands for this error on chain.
    pub fn code(&self) -> (c: u32)
        ensures
            c == error_code(*self),
            is_error_code(c),
    {
        match self {
            SolanaPokerError::DeserializationFailed => 0,
            SolanaPokerError::RoomFull => 1,
            SolanaPokerError::InvalidTimestamp => 2,
            SolanaPokerError::PlayerNotFound => 5,
            SolanaPokerError::TokenTransferFailed => 4,
        }
    }

    /// Decodes a custom error number back into the error, as the runtime
    /// does before printing it; numbers that stand for no error give `None`.
    pub fn from_code(code: u32) -> (e: Option<SolanaPokerError>)
        ensures
            e == error_from_code(code),
            e is Some <==> is_error_code(code),
            e matches Some(err) ==> error_code(err) == code,
    {
        proof {
            lemma_decode(code);
        }
        if code == 0 {
            Some(SolanaPokerError::DeserializationFailed)
        } else if code == 1 {
            Some(SolanaPokerError::RoomFull)
        } else if code == 2 {
            Some(SolanaPokerError::InvalidTimestamp)
        } else if code == 4 {
            Some(SolanaPokerError::TokenTransferFailed)
        } else if code == 5 {
            Some(SolanaPokerError::PlayerNotFound)
        } else {
            None
        }
    }
}

/// What the error says of itself when shown.
pub open spec fn error_description(e: SolanaPokerError) -> Seq<char> {
    match e {
        SolanaPokerError::DeserializationFailed => "deserialization failed"@,
        SolanaPokerError::RoomFull => "room is full"@,
        SolanaPokerError::InvalidTimestamp => "invaid timestamp"@,
        SolanaPokerError::PlayerNotFound => "player not found"@,
        SolanaPokerError::TokenTransferFailed => "Token transfer failed"@,
    }
}

/// The line the program logs when it reports the error.
pub open spec fn error_log_line(e: SolanaPokerError) -> Seq<char> {
    match e {
        SolanaPokerError::DeserializationFailed => "Error: deserialization failed"@,
        SolanaPokerError::RoomFull => "Error: room is full"@,
        SolanaPokerError::InvalidTimestamp => "Error: invalid timestamp"@,
        SolanaPokerError::PlayerNotFound => "Error: player not found"@,
        SolanaPokerError::TokenTransferFailed => "Error: token transfer failed"@,
    }
}

impl SolanaPokerError {
    /// What the error says of itself when shown.
    pub fn to_string(&self) -> (s: String)
        ensures
            s@ == error_description(*self),
    {
        match self {
            SolanaPokerError::DeserializationFailed => "deserialization failed".to_owned(),
            SolanaPokerError::RoomFull => "room is full".to_owned(),
            SolanaPokerError::InvalidTimestamp => "invaid timestamp".to_owned(),
            SolanaPokerError::PlayerNotFound => "player not found".to_owned(),
            SolanaPokerError::TokenTransferFailed => "Token transfer failed".to_owned(),
        }
    }

    /// The line to log when the program reports this error.
    pub fn print_message(&self) -> (s: String)
        ensures
            s@ == error_log_line(*self),
    {
        match self {
            SolanaPokerError::DeserializationFailed => "Error: deserialization failed".to_owned(),
            SolanaPokerError::RoomFull => "Error: room is full".to_owned(),
            SolanaPokerError::InvalidTimestamp => "Error: invalid timestamp".to_owned(),
            SolanaPokerError::PlayerNotFound => "Error: player not found".to_owned(),
            SolanaPokerError::TokenTransferFailed => "Error: token transfer failed".to_owned(),
        }
    }
}

/// Decoding the number of an error gives the error back.
pub proof fn code_round_trip(e: SolanaPokerError)
    ensures
        error_from_code(error_code(e)) == Some(e),
{
    lemma_decode(error_code(e));
}

/// Every number that stands for an error decodes to the error with that number.
pub proof fn decoded_code_round_trip(code: u32)
    ensures
        error_from_code(code) is Some <==> is_error_code(code),
        error_from_code(code) matches Some(e) ==> error_code(e) == code,
{
    lemma_decode(code);
}

/// Different errors have different numbers.
pub proof fn code_injective(a: SolanaPokerError, b: SolanaPokerError)
    ensures
        error_code(a) == error_code(b) <==> a == b,
{
}

} // verus!
