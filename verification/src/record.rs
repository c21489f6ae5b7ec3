//! The session record: the state machine of one user's game.
//!
//! Every transition is given twice: as a pair of `spec` functions, one
//! for the answer and one for the record afterwards, and as an executable
//! method that is proved to compute exactly that pair.

use vstd::prelude::*;
use crate::error::SessionError;
use crate::ident::CorrelationId;
use crate::outcome::{Outcome, RemoteOutcome, UserEvent};
use crate::word::{is_valid_word, valid_word};

verus! {

/// Number of check rounds after which a game is lost.
pub const MAX_ATTEMPTS: u8 = 5;

/// Where a session stands.
#[derive(Clone, Debug, PartialEq, Eq)]
pub enum SessionStatus {
    /// No game has been started yet.
    Init,
    /// A start request is with the remote service.
    AwaitingRemoteStart,
    /// The game waits for the user's next guess.
    AwaitingUserInput,
    /// A guess is with the remote service.
    AwaitingRemoteCheck,
    /// The remote service has answered; the suspended invocation has yet to
    /// pick the answer up.
    ReplyReady(RemoteOutcome),
    /// The game is over.
    Finished(Outcome),
}

impl SessionStatus {
    /// A start request may go out: no game is running, or the last start was
    /// never answered.
    pub open spec fn spec_may_start(&self) -> bool {
        *self is Init || *self is Finished || *self is AwaitingRemoteStart
    }

    /// Whether a start request may go out.
    #[verifier::when_used_as_spec(spec_may_start)]
    pub fn may_start(&self) -> (yes: bool)
        ensures
            yes == self.spec_may_start(),
    {
        match self {
            SessionStatus::Init | SessionStatus::Finished(_) | SessionStatus::AwaitingRemoteStart => true,
            _ => false,
        }
    }

    /// A guess may go out: the game is running and holds no unread answer.
    pub open spec fn spec_may_guess(&self) -> bool {
        *self is AwaitingUserInput || *self is AwaitingRemoteCheck
    }

    /// Whether a guess may go out.
    #[verifier::when_used_as_spec(spec_may_guess)]
    pub fn may_guess(&self) -> (yes: bool)
        ensures
            yes == self.spec_may_guess(),
    {
        match self {
            SessionStatus::AwaitingUserInput | SessionStatus::AwaitingRemoteCheck => true,
            _ => false,
        }
    }

    /// The session expects an answer from the remote service.
    pub open spec fn spec_awaits_remote(&self) -> bool {
        *self is AwaitingRemoteStart || *self is AwaitingRemoteCheck
    }

    /// Whether the session expects an answer from the remote service.
    #[verifier::when_used_as_spec(spec_awaits_remote)]
    pub fn awaits_remote(&self) -> (yes: bool)
        ensures
            yes == self.spec_awaits_remote(),
    {
        match self {
            SessionStatus::AwaitingRemoteStart | SessionStatus::AwaitingRemoteCheck => true,
            _ => false,
        }
    }

    /// The game is over.
    pub open spec fn spec_is_finished(&self) -> bool {
        *self is Finished
    }

    /// Whether the game is over.
    #[verifier::when_used_as_spec(spec_is_finished)]
    pub fn is_finished(&self) -> (yes: bool)
        ensures
            yes == self.spec_is_finished(),
    {
        match self {
            SessionStatus::Finished(_) => true,
            _ => false,
        }
    }
}

impl Default for SessionStatus {
    /// A session begins in `Init`.
    fn default() -> (status: SessionStatus)
        ensures
            status == SessionStatus::Init,
    {
        SessionStatus::Init
    }
}

/// What the caller has to do after a user action was applied to a record.
#[derive(Clone, Debug, PartialEq, Eq)]
pub enum Step {
    /// Answer the user with this event.
    Reply(UserEvent),
    /// Send the request to the remote service, then confirm the dispatch.
    Escalate,
}

/// The state of one user's session.
#[derive(Clone, Debug, PartialEq, Eq)]
pub struct SessionRecord {
    pub status: SessionStatus,
    /// The invocation that began the current game; timeouts are matched
    /// against it.
    pub round_id: CorrelationId,
    /// The suspended invocation that the next remote answer wakes.
    pub pending_request_id: CorrelationId,
    /// The request that the remote service is expected to answer.
    pub outbound_request_id: CorrelationId,
    /// Check rounds consumed in the current game.
    pub attempts: u8,
}

impl SessionRecord {
    /// A record is well formed when its attempts are within the limit, and
    /// below it for as long as the game is not over.
    pub open spec fn wf(self) -> bool {
        &&& self.attempts <= MAX_ATTEMPTS
        &&& self.status !is Finished ==> self.attempts < MAX_ATTEMPTS
    }

    /// The record of a user who has not been heard of.
    pub open spec fn fresh() -> SessionRecord {
        SessionRecord {
            status: SessionStatus::Init,
            round_id: CorrelationId::spec_zero(),
            pending_request_id: CorrelationId::spec_zero(),
            outbound_request_id: CorrelationId::spec_zero(),
            attempts: 0,
        }
    }

    /// A fresh record.
    pub fn new() -> (record: SessionRecord)
        ensures
            record == SessionRecord::fresh(),
            record.wf(),
    {
        SessionRecord {
            status: SessionStatus::Init,
            round_id: CorrelationId::zero(),
            pending_request_id: CorrelationId::zero(),
            outbound_request_id: CorrelationId::zero(),
            attempts: 0,
        }
    }

    /// Whether the record is well formed.
    pub fn is_wf(&self) -> (ok: bool)
        ensures
            ok == self.wf(),
    {
        self.attempts <= MAX_ATTEMPTS && (self.status.is_finished() || self.attempts
            < MAX_ATTEMPTS)
    }

    // ---- StartGame ------------------------------------------------------

    /// The answer to `StartGame`.
    pub open spec fn start_game_step(self) -> Result<Step, SessionError> {
        match self.status {
            SessionStatus::ReplyReady(outcome) => Ok(Step::Reply(outcome.progress())),
            SessionStatus::Init
            | SessionStatus::Finished(_)
            | SessionStatus::AwaitingRemoteStart => Ok(Step::Escalate),
            SessionStatus::AwaitingUserInput
            | SessionStatus::AwaitingRemoteCheck => Err(SessionError::AlreadyInGame),
        }
    }

    /// The record after `StartGame`: a queued answer is handed over, and
    /// nothing else changes.
    pub open spec fn after_start_game(self) -> SessionRecord {
        match self.status {
            SessionStatus::ReplyReady(_) => SessionRecord {
                status: SessionStatus::AwaitingUserInput,
                ..self
            },
            _ => self,
        }
    }

    /// Applies `StartGame`.
    pub fn start_game(&mut self) -> (step: Result<Step, SessionError>)
        ensures
            step == old(self).start_game_step(),
            *final(self) == old(self).after_start_game(),
    {
        if self.status.may_start() {
            Ok(Step::Escalate)
        } else if self.status.may_guess() {
            Err(SessionError::AlreadyInGame)
        } else {
            let mut taken = SessionStatus::AwaitingUserInput;
            core::mem::swap(&mut self.status, &mut taken);
            match taken {
                SessionStatus::ReplyReady(outcome) => Ok(Step::Reply(outcome.into_progress())),
                _ => vstd::pervasive::unreached(),
            }
        }
    }

    // ---- CheckWord ------------------------------------------------------

    /// The answer to `CheckWord`, given whether the submitted word is valid.
    /// The word is looked at only while the game waits for a guess.
    pub open spec fn check_word_step_given(self, word_is_valid: bool) -> Result<
        Step,
        SessionError,
    > {
        match self.status {
            SessionStatus::ReplyReady(outcome) => if outcome.is_full_match() {
                Ok(Step::Reply(UserEvent::Finished(Outcome::Win)))
            } else if self.attempts + 1 == MAX_ATTEMPTS {
                Ok(Step::Reply(UserEvent::Finished(Outcome::Lose)))
            } else {
                Ok(Step::Reply(outcome.progress()))
            },
            SessionStatus::AwaitingUserInput | SessionStatus::AwaitingRemoteCheck => if word_is_valid {
                Ok(Step::Escalate)
            } else {
                Err(SessionError::InvalidWord)
            },
            SessionStatus::Init
            | SessionStatus::AwaitingRemoteStart
            | SessionStatus::Finished(_) => Err(SessionError::NotInGame),
        }
    }

    /// The answer to `CheckWord(word)`.
    pub open spec fn check_word_step(self, word: Seq<char>) -> Result<Step, SessionError> {
        self.check_word_step_given(valid_word(word))
    }

    /// The record after `CheckWord`: a queued answer consumes one attempt and
    /// decides how the game goes on; nothing else changes.
    pub open spec fn after_check_word(self) -> SessionRecord {
        match self.status {
            SessionStatus::ReplyReady(outcome) => SessionRecord {
                status: if outcome.is_full_match() {
                    SessionStatus::Finished(Outcome::Win)
                } else if self.attempts + 1 == MAX_ATTEMPTS {
                    SessionStatus::Finished(Outcome::Lose)
                } else {
                    SessionStatus::AwaitingUserInput
                },
                attempts: (self.attempts + 1) as u8,
                ..self
            },
            _ => self,
        }
    }

    /// Applies `CheckWord` for a word whose validity is known.
    pub fn check_word_given(&mut self, word_is_valid: bool) -> (step: Result<Step, SessionError>)
        requires
            old(self).wf(),
        ensures
            step == old(self).check_word_step_given(word_is_valid),
            *final(self) == old(self).after_check_word(),
    {
        if self.status.may_guess() {
            if word_is_valid {
                Ok(Step::Escalate)
            } else {
                Err(SessionError::InvalidWord)
            }
        } else if self.status.may_start() {
            Err(SessionError::NotInGame)
        } else {
            let mut taken = SessionStatus::AwaitingUserInput;
            core::mem::swap(&mut self.status, &mut taken);
            match taken {
                SessionStatus::ReplyReady(outcome) => {
                    self.attempts = self.attempts + 1;
                    if outcome.is_full_match() {
                        self.status = SessionStatus::Finished(Outcome::Win);
                        Ok(Step::Reply(UserEvent::Finished(Outcome::Win)))
                    } else if self.attempts == MAX_ATTEMPTS {
                        self.status = SessionStatus::Finished(Outcome::Lose);
                        Ok(Step::Reply(UserEvent::Finished(Outcome::Lose)))
                    } else {
                        Ok(Step::Reply(outcome.into_progress()))
                    }
                },
                _ => vstd::pervasive::unreached(),
            }
        }
    }

    /// Applies `CheckWord(word)`. The word is validated only while the game
    /// waits for a guess.
    pub fn check_word(&mut self, word: &str) -> (step: Result<Step, SessionError>)
        requires
            old(self).wf(),
        ensures
            step == old(self).check_word_step(word@),
            *final(self) == old(self).after_check_word(),
    {
        let word_is_valid = !self.status.may_guess() || is_valid_word(word);
        self.check_word_given(word_is_valid)
    }

    // ---- A start request has been sent ------------------------------------

    /// Whether a start request that has gone out can be recorded.
    pub open spec fn confirm_start_result(self) -> Result<(), SessionError> {
        if self.status.may_start() {
            Ok(())
        } else {
            Err(SessionError::OutOfTurn)
        }
    }

    /// The record after a start request has gone out: a new game begins under
    /// the invocation that asked for it.
    pub open spec fn after_confirm_start(
        self,
        invocation: CorrelationId,
        outbound: CorrelationId,
    ) -> SessionRecord {
        if self.status.may_start() {
            SessionRecord {
                status: SessionStatus::AwaitingRemoteStart,
                round_id: invocation,
                pending_request_id: invocation,
                outbound_request_id: outbound,
                attempts: 0,
            }
        } else {
            self
        }
    }

    /// Records that the start request asked for by `invocation` went out as
    /// `outbound`.
    pub fn confirm_start(&mut self, invocation: CorrelationId, outbound: CorrelationId) -> (done:
        Result<(), SessionError>)
        ensures
            done == old(self).confirm_start_result(),
            *final(self) == old(self).after_confirm_start(invocation, outbound),
    {
        if self.status.may_start() {
            self.status = SessionStatus::AwaitingRemoteStart;
            self.round_id = invocation;
            self.pending_request_id = invocation;
            self.outbound_request_id = outbound;
            self.attempts = 0;
            Ok(())
        } else {
            Err(SessionError::OutOfTurn)
        }
    }

    // ---- A guess has been sent ------------------------------------------

    /// Whether a guess that has gone out can be recorded.
    pub open spec fn confirm_check_result(self) -> Result<(), SessionError> {
        if self.status.may_guess() {
            Ok(())
        } else {
            Err(SessionError::OutOfTurn)
        }
    }

    /// The record after a guess has gone out. The round and the attempts stay.
    pub open spec fn after_confirm_check(
        self,
        invocation: CorrelationId,
        outbound: CorrelationId,
    ) -> SessionRecord {
        if self.status.may_guess() {
            SessionRecord {
                status: SessionStatus::AwaitingRemoteCheck,
                pending_request_id: invocation,
                outbound_request_id: outbound,
                ..self
            }
        } else {
            self
        }
    }

    /// Records that the guess submitted by `invocation` went out as
    /// `outbound`.
    pub fn confirm_check(&mut self, invocation: CorrelationId, outbound: CorrelationId) -> (done:
        Result<(), SessionError>)
        ensures
            done == old(self).confirm_check_result(),
            *final(self) == old(self).after_confirm_check(invocation, outbound),
    {
        if self.status.may_guess() {
            self.status = SessionStatus::AwaitingRemoteCheck;
            self.pending_request_id = invocation;
            self.outbound_request_id = outbound;
            Ok(())
        } else {
            Err(SessionError::OutOfTurn)
        }
    }

    // ---- Timeout --------------------------------------------------------

    /// A timeout takes effect when it was scheduled for the current round and
    /// the game is not over.
    pub open spec fn timeout_fires(self, round_id: CorrelationId) -> bool {
        round_id == self.round_id && self.status !is Finished
    }

    /// The record after a timeout for `round_id`: lost if it fires, untouched
    /// if it does not.
    pub open spec fn after_timeout(self, round_id: CorrelationId) -> SessionRecord {
        if self.timeout_fires(round_id) {
            SessionRecord { status: SessionStatus::Finished(Outcome::Lose), ..self }
        } else {
            self
        }
    }

    /// Applies a timeout scheduled for `round_id`. Returns whether the user
    /// has to be told of the loss.
    pub fn timeout(&mut self, round_id: CorrelationId) -> (fired: bool)
        ensures
            fired == old(self).timeout_fires(round_id),
            *final(self) == old(self).after_timeout(round_id),
    {
        if round_id == self.round_id && !self.status.is_finished() {
            self.status = SessionStatus::Finished(Outcome::Lose);
            true
        } else {
            false
        }
    }

    // ---- Remote reply ---------------------------------------------------

    /// A reply is accepted when it answers the request on record and the
    /// session is waiting for the remote service.
    pub open spec fn accepts_reply(self, reply_to: CorrelationId) -> bool {
        reply_to == self.outbound_request_id && self.status.awaits_remote()
    }

    /// The record after a reply: an accepted verdict is queued, any other is
    /// dropped.
    pub open spec fn after_remote_reply(
        self,
        reply_to: CorrelationId,
        outcome: RemoteOutcome,
    ) -> SessionRecord {
        if self.accepts_reply(reply_to) {
            SessionRecord { status: SessionStatus::ReplyReady(outcome), ..self }
        } else {
            self
        }
    }

    /// The invocation to wake after a reply, if the reply is accepted.
    pub open spec fn remote_reply_wakes(self, reply_to: CorrelationId) -> Option<CorrelationId> {
        if self.accepts_reply(reply_to) {
            Some(self.pending_request_id)
        } else {
            None
        }
    }

    /// Applies a reply of the remote service to the request `reply_to`.
    /// Returns the suspended invocation that has to be woken, if any.
    pub fn remote_reply(&mut self, reply_to: CorrelationId, outcome: RemoteOutcome) -> (wake:
        Option<CorrelationId>)
        ensures
            wake == old(self).remote_reply_wakes(reply_to),
            *final(self) == old(self).after_remote_reply(reply_to, outcome),
    {
        if reply_to == self.outbound_request_id && self.status.awaits_remote() {
            self.status = SessionStatus::ReplyReady(outcome);
            Some(self.pending_request_id)
        } else {
            None
        }
    }
}

impl Default for SessionRecord {
    /// A fresh record.
    fn default() -> (record: SessionRecord)
        ensures
            record == SessionRecord::fresh(),
    {
        SessionRecord::new()
    }
}

} // verus!
