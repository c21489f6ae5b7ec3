//! Verdicts: what the remote service says of a round, and what the user is told.

use vstd::prelude::*;
use crate::ident::Identity;
use crate::word::WORD_LENGTH;

verus! {

/// Terminal verdict of a game.
#[derive(Clone, Copy, Debug, PartialEq, Eq, Structural)]
pub enum Outcome {
    Win,
    Lose,
}

/// Verdict of the remote word-checking service for one round.
#[derive(Clone, Debug, PartialEq, Eq)]
pub enum RemoteOutcome {
    /// The service has picked a word for `user`.
    GameStarted { user: Identity },
    /// The service has compared a guess of `user` with the word: the
    /// positions whose letter is right, and the positions whose letter occurs
    /// elsewhere in the word.
    WordChecked { user: Identity, correct_positions: Vec<u8>, contained_in_word: Vec<u8> },
}

/// What a user receives in answer to an action.
#[derive(Clone, Debug, PartialEq, Eq)]
pub enum UserEvent {
    /// The game has started; guesses are now accepted.
    Started,
    /// The guess was compared; the game goes on.
    WordChecked { correct_positions: Vec<u8>, contained_in_word: Vec<u8> },
    /// The game is over.
    Finished(Outcome),
}

/// Every position of the word, in order, and nothing else.
pub open spec fn covers_whole_word(positions: Seq<u8>) -> bool {
    &&& positions.len() == WORD_LENGTH
    &&& forall|i: int| 0 <= i < positions.len() ==> #[trigger] positions[i] == i
}

/// Checks a list of positions against `covers_whole_word`.
pub fn is_whole_word(positions: &Vec<u8>) -> (whole: bool)
    ensures
        whole == covers_whole_word(positions@),
{
    if positions.len() != WORD_LENGTH {
        return false;
    }
    let mut i: usize = 0;
    while i < WORD_LENGTH
        invariant
            i <= WORD_LENGTH,
            positions@.len() == WORD_LENGTH,
            forall|j: int| 0 <= j < i ==> #[trigger] positions@[j] == j,
        decreases WORD_LENGTH - i,
    {
        if positions[i] as usize != i {
            return false;
        }
        i += 1;
    }
    true
}

impl RemoteOutcome {
    /// The user whom this verdict concerns.
    pub open spec fn spec_user(&self) -> Identity {
        match *self {
            RemoteOutcome::GameStarted { user } => user,
            RemoteOutcome::WordChecked { user, .. } => user,
        }
    }

    /// The user whom this verdict concerns.
    #[verifier::when_used_as_spec(spec_user)]
    pub fn user(&self) -> (user: Identity)
        ensures
            user == self.spec_user(),
    {
        match self {
            RemoteOutcome::GameStarted { user } => *user,
            RemoteOutcome::WordChecked { user, .. } => *user,
        }
    }

    /// A guess matches the whole word when every position is reported right.
    pub open spec fn spec_is_full_match(&self) -> bool {
        match *self {
            RemoteOutcome::GameStarted { .. } => false,
            RemoteOutcome::WordChecked { correct_positions, .. } => covers_whole_word(
                correct_positions@,
            ),
        }
    }

    /// Whether the guess matched the whole word.
    #[verifier::when_used_as_spec(spec_is_full_match)]
    pub fn is_full_match(&self) -> (full: bool)
        ensures
            full == self.spec_is_full_match(),
    {
        match self {
            RemoteOutcome::GameStarted { .. } => false,
            RemoteOutcome::WordChecked { correct_positions, .. } => is_whole_word(
                correct_positions,
            ),
        }
    }

    /// The progress report that tells the user of this verdict.
    pub open spec fn progress(self) -> UserEvent {
        match self {
            RemoteOutcome::GameStarted { .. } => UserEvent::Started,
            RemoteOutcome::WordChecked {
                correct_positions,
                contained_in_word,
                ..
            } => UserEvent::WordChecked { correct_positions, contained_in_word },
        }
    }

    /// Turns the verdict into the progress report for the user.
    pub fn into_progress(self) -> (event: UserEvent)
        ensures
            event == self.progress(),
    {
        match self {
            RemoteOutcome::GameStarted { .. } => UserEvent::Started,
            RemoteOutcome::WordChecked {
                correct_positions,
                contained_in_word,
                ..
            } => UserEvent::WordChecked { correct_positions, contained_in_word },
        }
    }
}

} // verus!
