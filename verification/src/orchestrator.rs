//! The orchestrator: applies user actions, timeout signals and remote replies
//! to the session table, and tells the caller what to do next.
//!
//! The orchestrator performs no I/O. A caller that owns the transport feeds it
//! one event at a time and carries out the effect that comes back:
//!
//! * `handle_action` takes a user action or a timeout signal. When the answer
//!   is `Effect::Escalate`, nothing has been recorded yet: the caller sends
//!   the request to the remote service, schedules the timeout if one is asked
//!   for, and passes the identifier of the request to `confirm_dispatch`,
//!   which records the transition. Then the caller suspends the invocation.
//!   A send that fails before the confirmation leaves every session as it was.
//! * `handle_reply` takes a reply of the remote service and names the
//!   suspended invocation to wake, if the reply is accepted.
//!
//! A woken invocation runs `handle_action` again with the action it started
//! with; the record then holds the queued verdict and the action completes.

use vstd::prelude::*;
use crate::error::SessionError;
use crate::ident::{CorrelationId, Identity};
use crate::outcome::{Outcome, RemoteOutcome, UserEvent};
use crate::record::{SessionRecord, Step};
use crate::table::{record_in, SessionTable};

verus! {

/// What the runtime knows of the invocation that is being handled.
#[derive(Clone, Copy, Debug, PartialEq, Eq)]
pub struct Invocation {
    /// Who sent the message.
    pub sender: Identity,
    /// The identifier of the message.
    pub id: CorrelationId,
    /// The identity of this process.
    pub host: Identity,
}

/// The payload of the delayed signal that this process sends to itself when a
/// game starts.
#[derive(Clone, Copy, Debug, PartialEq, Eq)]
pub struct TimeoutSignal {
    /// The user whose game is to be checked.
    pub user: Identity,
    /// The round that was current when the signal was scheduled.
    pub round_id: CorrelationId,
}

/// An inbound action.
#[derive(Clone, Debug, PartialEq, Eq)]
pub enum Action {
    /// The sender wants to start a game.
    StartGame,
    /// The sender submits a guess.
    CheckWord { word: String },
    /// A timeout scheduled earlier has come due.
    Timeout(TimeoutSignal),
}

/// A request to the remote word-checking service.
#[derive(Clone, Debug, PartialEq, Eq)]
pub enum RemoteRequest {
    /// Pick a word for `user`.
    StartGame { user: Identity },
    /// Compare `word` with the word picked for `user`.
    CheckWord { user: Identity, word: String },
}

impl RemoteRequest {
    /// The user on whose behalf the request is made.
    pub open spec fn spec_user(&self) -> Identity {
        match *self {
            RemoteRequest::StartGame { user } => user,
            RemoteRequest::CheckWord { user, .. } => user,
        }
    }

    /// The user on whose behalf the request is made.
    #[verifier::when_used_as_spec(spec_user)]
    pub fn user(&self) -> (user: Identity)
        ensures
            user == self.spec_user(),
    {
        match self {
            RemoteRequest::StartGame { user } => *user,
            RemoteRequest::CheckWord { user, .. } => *user,
        }
    }
}

/// What the caller has to do after an action was handled.
#[derive(Clone, Debug, PartialEq, Eq)]
pub enum Effect {
    /// Answer the sender of the invocation with this event.
    Reply(UserEvent),
    /// Send `request` to the remote service and, if `timer` holds a signal,
    /// schedule that signal to this process itself; then confirm the dispatch
    /// and suspend the invocation.
    Escalate { request: RemoteRequest, timer: Option<TimeoutSignal> },
    /// Send this event to `user`, who is not the sender of the invocation.
    Notify { user: Identity, event: UserEvent },
    /// Do nothing.
    Nothing,
}

/// Every record is well formed.
pub open spec fn all_wf(sessions: Map<Identity, SessionRecord>) -> bool {
    forall|user: Identity| sessions.contains_key(user) ==> (#[trigger] sessions[user]).wf()
}

/// A timeout signal is honoured when this process sent it to itself, the user
/// has a record, and the record lets it fire.
pub open spec fn timeout_applies(
    sessions: Map<Identity, SessionRecord>,
    invocation: Invocation,
    signal: TimeoutSignal,
) -> bool {
    &&& invocation.sender == invocation.host
    &&& sessions.contains_key(signal.user)
    &&& sessions[signal.user].timeout_fires(signal.round_id)
}

/// The effect of an action, given the sessions before it.
pub open spec fn action_effect(
    sessions: Map<Identity, SessionRecord>,
    invocation: Invocation,
    action: Action,
) -> Result<Effect, SessionError> {
    match action {
        Action::StartGame => match record_in(sessions, invocation.sender).start_game_step() {
            Ok(Step::Reply(event)) => Ok(Effect::Reply(event)),
            Ok(Step::Escalate) => Ok(
                Effect::Escalate {
                    request: RemoteRequest::StartGame { user: invocation.sender },
                    timer: Some(
                        TimeoutSignal { user: invocation.sender, round_id: invocation.id },
                    ),
                },
            ),
            Err(error) => Err(error),
        },
        Action::CheckWord { word } => match record_in(sessions, invocation.sender).check_word_step(
            word@,
        ) {
            Ok(Step::Reply(event)) => Ok(Effect::Reply(event)),
            Ok(Step::Escalate) => Ok(
                Effect::Escalate {
                    request: RemoteRequest::CheckWord { user: invocation.sender, word },
                    timer: None,
                },
            ),
            Err(error) => Err(error),
        },
        Action::Timeout(signal) => if timeout_applies(sessions, invocation, signal) {
            Ok(Effect::Notify { user: signal.user, event: UserEvent::Finished(Outcome::Lose) })
        } else {
            Ok(Effect::Nothing)
        },
    }
}

/// The sessions after an action. Only the record of a user who has one can
/// change; a user without a record gets none from an action alone.
pub open spec fn after_action(
    sessions: Map<Identity, SessionRecord>,
    invocation: Invocation,
    action: Action,
) -> Map<Identity, SessionRecord> {
    match action {
        Action::StartGame => if sessions.contains_key(invocation.sender) {
            sessions.insert(invocation.sender, sessions[invocation.sender].after_start_game())
        } else {
            sessions
        },
        Action::CheckWord { .. } => if sessions.contains_key(invocation.sender) {
            sessions.insert(invocation.sender, sessions[invocation.sender].after_check_word())
        } else {
            sessions
        },
        Action::Timeout(signal) => if timeout_applies(sessions, invocation, signal) {
            sessions.insert(signal.user, sessions[signal.user].after_timeout(signal.round_id))
        } else {
            sessions
        },
    }
}

/// Whether a dispatch can be confirmed: the record of the user must be where
/// the request was asked for.
pub open spec fn confirm_result(
    sessions: Map<Identity, SessionRecord>,
    request: RemoteRequest,
) -> Result<(), SessionError> {
    match request {
        RemoteRequest::StartGame { user } => record_in(sessions, user).confirm_start_result(),
        RemoteRequest::CheckWord { user, .. } => record_in(sessions, user).confirm_check_result(),
    }
}

/// The sessions after a dispatch was confirmed. A user's first start request
/// is what gives the user a record.
pub open spec fn after_confirm(
    sessions: Map<Identity, SessionRecord>,
    invocation: Invocation,
    request: RemoteRequest,
    outbound: CorrelationId,
) -> Map<Identity, SessionRecord> {
    match request {
        RemoteRequest::StartGame { user } => if record_in(sessions, user).status.may_start() {
            sessions.insert(
                user,
                record_in(sessions, user).after_confirm_start(invocation.id, outbound),
            )
        } else {
            sessions
        },
        RemoteRequest::CheckWord { user, .. } => if sessions.contains_key(user) {
            sessions.insert(user, sessions[user].after_confirm_check(invocation.id, outbound))
        } else {
            sessions
        },
    }
}

/// The invocation to wake after a reply of the remote service, if any.
pub open spec fn reply_wakes(
    sessions: Map<Identity, SessionRecord>,
    reply_to: CorrelationId,
    outcome: RemoteOutcome,
) -> Option<CorrelationId> {
    if sessions.contains_key(outcome.user()) {
        sessions[outcome.user()].remote_reply_wakes(reply_to)
    } else {
        None
    }
}

/// The sessions after a reply of the remote service.
pub open spec fn after_reply(
    sessions: Map<Identity, SessionRecord>,
    reply_to: CorrelationId,
    outcome: RemoteOutcome,
) -> Map<Identity, SessionRecord> {
    if sessions.contains_key(outcome.user()) {
        sessions.insert(
            outcome.user(),
            sessions[outcome.user()].after_remote_reply(reply_to, outcome),
        )
    } else {
        sessions
    }
}

/// Applies `StartGame` from `user` to the table.
fn start_game_in(sessions: &mut SessionTable, user: Identity) -> (step: Result<Step, SessionError>)
    ensures
        step == record_in(old(sessions)@, user).start_game_step(),
        final(sessions)@ == if old(sessions)@.contains_key(user) {
            old(sessions)@.insert(user, old(sessions)@[user].after_start_game())
        } else {
            old(sessions)@
        },
{
    match sessions.get_mut(user) {
        Some(record) => record.start_game(),
        None => {
            let mut record = SessionRecord::new();
            record.start_game()
        },
    }
}

/// Applies `CheckWord(word)` from `user` to the table.
fn check_word_in(sessions: &mut SessionTable, user: Identity, word: &str) -> (step: Result<
    Step,
    SessionError,
>)
    requires
        all_wf(old(sessions)@),
    ensures
        step == record_in(old(sessions)@, user).check_word_step(word@),
        final(sessions)@ == if old(sessions)@.contains_key(user) {
            old(sessions)@.insert(user, old(sessions)@[user].after_check_word())
        } else {
            old(sessions)@
        },
{
    match sessions.get_mut(user) {
        Some(record) => record.check_word(word),
        None => {
            let mut record = SessionRecord::new();
            record.check_word(word)
        },
    }
}

/// Applies a timeout signal to the table.
fn timeout_in(sessions: &mut SessionTable, invocation: &Invocation, signal: TimeoutSignal) -> (fired:
    bool)
    ensures
        fired == timeout_applies(old(sessions)@, *invocation, signal),
        final(sessions)@ == if fired {
            old(sessions)@.insert(
                signal.user,
                old(sessions)@[signal.user].after_timeout(signal.round_id),
            )
        } else {
            old(sessions)@
        },
{
    if invocation.sender != invocation.host {
        return false;
    }
    match sessions.get_mut(signal.user) {
        Some(record) => record.timeout(signal.round_id),
        None => false,
    }
}

/// Records in the table that `request`, asked for by `invocation`, went out as
/// `outbound`.
fn confirm_in(
    sessions: &mut SessionTable,
    invocation: &Invocation,
    request: &RemoteRequest,
    outbound: CorrelationId,
) -> (done: Result<(), SessionError>)
    ensures
        done == confirm_result(old(sessions)@, *request),
        final(sessions)@ == after_confirm(old(sessions)@, *invocation, *request, outbound),
{
    match request {
        RemoteRequest::StartGame { user } => {
            let record = sessions.get_or_create(*user);
            record.confirm_start(invocation.id, outbound)
        },
        RemoteRequest::CheckWord { user, .. } => match sessions.get_mut(*user) {
            Some(record) => record.confirm_check(invocation.id, outbound),
            None => Err(SessionError::OutOfTurn),
        },
    }
}

/// Applies a reply of the remote service to the table.
fn reply_in(sessions: &mut SessionTable, reply_to: CorrelationId, outcome: RemoteOutcome) -> (wake:
    Option<CorrelationId>)
    ensures
        wake == reply_wakes(old(sessions)@, reply_to, outcome),
        final(sessions)@ == after_reply(old(sessions)@, reply_to, outcome),
{
    match sessions.get_mut(outcome.user()) {
        Some(record) => record.remote_reply(reply_to, outcome),
        None => None,
    }
}

/// The orchestrator: the address of the remote service and all sessions.
pub struct Orchestrator {
    remote: Identity,
    sessions: SessionTable,
}

impl View for Orchestrator {
    type V = Map<Identity, SessionRecord>;

    /// The record of every user that has one.
    closed spec fn view(&self) -> Map<Identity, SessionRecord> {
        self.sessions@
    }
}

impl Orchestrator {
    #[verifier::type_invariant]
    spec fn inv(self) -> bool {
        all_wf(self.sessions@)
    }

    /// The address of the remote service.
    pub closed spec fn spec_remote(&self) -> Identity {
        self.remote
    }

    /// An orchestrator without sessions that talks to `remote`. The all-zero
    /// identity is no address.
    pub fn new(remote: Identity) -> (made: Result<Orchestrator, SessionError>)
        ensures
            match made {
                Ok(orchestrator) => {
                    &&& !remote.is_zero()
                    &&& orchestrator.spec_remote() == remote
                    &&& orchestrator@ == Map::<Identity, SessionRecord>::empty()
                },
                Err(error) => remote.is_zero() && error == SessionError::InvalidRemote,
            },
    {
        if remote.is_zero() {
            Err(SessionError::InvalidRemote)
        } else {
            Ok(Orchestrator { remote, sessions: SessionTable::new() })
        }
    }

    /// The address of the remote service.
    #[verifier::when_used_as_spec(spec_remote)]
    pub fn remote(&self) -> (remote: Identity)
        ensures
            remote == self.spec_remote(),
    {
        self.remote
    }

    /// Handles a user action or a timeout signal.
    pub fn handle_action(&mut self, invocation: &Invocation, action: Action) -> (effect: Result<
        Effect,
        SessionError,
    >)
        ensures
            effect == action_effect(old(self)@, *invocation, action),
            final(self)@ == after_action(old(self)@, *invocation, action),
            final(self).spec_remote() == old(self).spec_remote(),
    {
        proof {
            use_type_invariant(&*self);
        }
        let mut sessions = SessionTable::new();
        core::mem::swap(&mut self.sessions, &mut sessions);
        let user = invocation.sender;
        let effect = match action {
            Action::StartGame => match start_game_in(&mut sessions, user) {
                Ok(Step::Reply(event)) => Ok(Effect::Reply(event)),
                Ok(Step::Escalate) => Ok(
                    Effect::Escalate {
                        request: RemoteRequest::StartGame { user },
                        timer: Some(TimeoutSignal { user, round_id: invocation.id }),
                    },
                ),
                Err(error) => Err(error),
            },
            Action::CheckWord { word } => match check_word_in(&mut sessions, user, word.as_str()) {
                Ok(Step::Reply(event)) => Ok(Effect::Reply(event)),
                Ok(Step::Escalate) => Ok(
                    Effect::Escalate {
                        request: RemoteRequest::CheckWord { user, word },
                        timer: None,
                    },
                ),
                Err(error) => Err(error),
            },
            Action::Timeout(signal) => if timeout_in(&mut sessions, invocation, signal) {
                Ok(Effect::Notify { user: signal.user, event: UserEvent::Finished(Outcome::Lose) })
            } else {
                Ok(Effect::Nothing)
            },
        };
        core::mem::swap(&mut self.sessions, &mut sessions);
        effect
    }

    /// Records that `request`, which `handle_action` asked for while handling
    /// `invocation`, went out to the remote service as the message `outbound`.
    /// After that the invocation is to be suspended.
    pub fn confirm_dispatch(
        &mut self,
        invocation: &Invocation,
        request: &RemoteRequest,
        outbound: CorrelationId,
    ) -> (done: Result<(), SessionError>)
        ensures
            done == confirm_result(old(self)@, *request),
            final(self)@ == after_confirm(old(self)@, *invocation, *request, outbound),
            final(self).spec_remote() == old(self).spec_remote(),
    {
        proof {
            use_type_invariant(&*self);
        }
        let mut sessions = SessionTable::new();
        core::mem::swap(&mut self.sessions, &mut sessions);
        let done = confirm_in(&mut sessions, invocation, request, outbound);
        core::mem::swap(&mut self.sessions, &mut sessions);
        done
    }

    /// Handles a reply of the remote service to the request `reply_to`.
    /// Returns the suspended invocation to wake; `None` means that the reply
    /// was dropped.
    pub fn handle_reply(&mut self, reply_to: CorrelationId, outcome: RemoteOutcome) -> (wake:
        Option<CorrelationId>)
        ensures
            wake == reply_wakes(old(self)@, reply_to, outcome),
            final(self)@ == after_reply(old(self)@, reply_to, outcome),
            final(self).spec_remote() == old(self).spec_remote(),
    {
        proof {
            use_type_invariant(&*self);
        }
        let mut sessions = SessionTable::new();
        core::mem::swap(&mut self.sessions, &mut sessions);
        let wake = reply_in(&mut sessions, reply_to, outcome);
        core::mem::swap(&mut self.sessions, &mut sessions);
        wake
    }

    /// The record of `user`, if the user has one.
    pub fn session(&self, user: Identity) -> (found: Option<&SessionRecord>)
        ensures
            match found {
                Some(record) => self@.contains_key(user) && *record == self@[user] && record.wf(),
                None => !self@.contains_key(user),
            },
    {
        proof {
            use_type_invariant(self);
        }
        self.sessions.get(user)
    }

    /// All sessions, for inspection.
    pub fn sessions(&self) -> (table: &SessionTable)
        ensures
            table@ == self@,
            all_wf(table@),
    {
        proof {
            use_type_invariant(self);
        }
        &self.sessions
    }
}

} // verus!
