//! Why an action was refused.

use vstd::prelude::*;

verus! {

/// A refused operation. The record it was aimed at is left as it was.
#[derive(Clone, Copy, Debug, PartialEq, Eq, Structural)]
pub enum SessionError {
    /// A game was started while the user was in the middle of one.
    AlreadyInGame,
    /// A word was submitted while no game was waiting for one.
    NotInGame,
    /// The word does not have five lowercase characters.
    InvalidWord,
    /// A dispatch was confirmed that the record had not asked for.
    OutOfTurn,
    /// The configuration names no remote service.
    InvalidRemote,
}

impl SessionError {
    /// The text that describes this error.
    pub open spec fn spec_message(self) -> Seq<char> {
        match self {
            SessionError::AlreadyInGame => "User is already in game"@,
            SessionError::NotInGame => "User is not in game"@,
            SessionError::InvalidWord => "Invalid word"@,
            SessionError::OutOfTurn => "No request is waiting to be confirmed"@,
            SessionError::InvalidRemote => "Invalid remote service address"@,
        }
    }

    /// A short description for the caller.
    pub fn message(&self) -> (text: &'static str)
        ensures
            text@ == self.spec_message(),
    {
        match self {
            SessionError::AlreadyInGame => "User is already in game",
            SessionError::NotInGame => "User is not in game",
            SessionError::InvalidWord => "Invalid word",
            SessionError::OutOfTurn => "No request is waiting to be confirmed",
            SessionError::InvalidRemote => "Invalid remote service address",
        }
    }
}

} // verus!
