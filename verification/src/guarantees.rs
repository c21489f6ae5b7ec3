//! What holds of the state machine as a whole, proved from the transitions.

use vstd::prelude::*;
use crate::error::SessionError;
use crate::ident::{CorrelationId, Identity};
use crate::orchestrator::{
    action_effect, after_action, after_confirm, after_reply, all_wf, confirm_result, reply_wakes,
    Action, Effect, Invocation, RemoteRequest, TimeoutSignal,
};
use crate::outcome::{Outcome, RemoteOutcome, UserEvent};
use crate::record::{SessionRecord, SessionStatus, Step, MAX_ATTEMPTS};
use crate::table::record_in;
use crate::word::{lowercase, valid_word, WORD_LENGTH};

verus! {

// ---- Well-formedness and the attempt counter ----------------------------

/// Every transition takes a well-formed record to a well-formed record, so
/// the attempts of a session never exceed `MAX_ATTEMPTS`.
pub proof fn lemma_transitions_preserve_wf(
    record: SessionRecord,
    invocation: CorrelationId,
    outbound: CorrelationId,
    round_id: CorrelationId,
    reply_to: CorrelationId,
    outcome: RemoteOutcome,
)
    requires
        record.wf(),
    ensures
        SessionRecord::fresh().wf(),
        record.after_start_game().wf(),
        record.after_check_word().wf(),
        record.after_confirm_start(invocation, outbound).wf(),
        record.after_confirm_check(invocation, outbound).wf(),
        record.after_timeout(round_id).wf(),
        record.after_remote_reply(reply_to, outcome).wf(),
{
}

/// Every event takes well-formed sessions to well-formed sessions: whatever
/// arrives, in whatever order, no session ever holds more than `MAX_ATTEMPTS`
/// attempts.
pub proof fn lemma_sessions_stay_wf(
    sessions: Map<Identity, SessionRecord>,
    invocation: Invocation,
    action: Action,
    request: RemoteRequest,
    outbound: CorrelationId,
    reply_to: CorrelationId,
    outcome: RemoteOutcome,
)
    requires
        all_wf(sessions),
    ensures
        all_wf(Map::<Identity, SessionRecord>::empty()),
        all_wf(after_action(sessions, invocation, action)),
        all_wf(after_confirm(sessions, invocation, request, outbound)),
        all_wf(after_reply(sessions, reply_to, outcome)),
        forall|user: Identity|
            sessions.contains_key(user) ==> (#[trigger] sessions[user]).attempts <= MAX_ATTEMPTS,
{
}

/// The attempts of a session move in two ways only: picking up the verdict
/// on a guess adds exactly one, and the dispatch of a start request sets them
/// back to zero. Every other transition leaves them alone.
pub proof fn lemma_attempts_step(
    record: SessionRecord,
    invocation: CorrelationId,
    outbound: CorrelationId,
    round_id: CorrelationId,
    reply_to: CorrelationId,
    outcome: RemoteOutcome,
)
    requires
        record.wf(),
    ensures
        record.after_check_word().attempts == if record.status is ReplyReady {
            record.attempts + 1
        } else {
            record.attempts as int
        },
        record.after_check_word().attempts <= MAX_ATTEMPTS,
        record.after_confirm_start(invocation, outbound).attempts == if record.status.may_start() {
            0
        } else {
            record.attempts
        },
        record.after_start_game().attempts == record.attempts,
        record.after_confirm_check(invocation, outbound).attempts == record.attempts,
        record.after_timeout(round_id).attempts == record.attempts,
        record.after_remote_reply(reply_to, outcome).attempts == record.attempts,
{
}

/// One whole check round: the guess goes out, the remote service answers it,
/// and the woken invocation picks the answer up.
pub open spec fn after_check_round(
    record: SessionRecord,
    invocation: CorrelationId,
    outbound: CorrelationId,
    outcome: RemoteOutcome,
) -> SessionRecord {
    record.after_confirm_check(invocation, outbound).after_remote_reply(
        outbound,
        outcome,
    ).after_check_word()
}

/// What the user is told at the end of a whole check round.
pub open spec fn check_round_step(
    record: SessionRecord,
    invocation: CorrelationId,
    outbound: CorrelationId,
    outcome: RemoteOutcome,
    word: Seq<char>,
) -> Result<Step, SessionError> {
    record.after_confirm_check(invocation, outbound).after_remote_reply(
        outbound,
        outcome,
    ).check_word_step(word)
}

/// An accepted check round adds exactly one attempt, keeps the attempts
/// within the limit, and ends the game on a full match or on the last
/// attempt.
pub proof fn lemma_check_round(
    record: SessionRecord,
    invocation: CorrelationId,
    outbound: CorrelationId,
    outcome: RemoteOutcome,
    word: Seq<char>,
)
    requires
        record.wf(),
        record.status.may_guess(),
        valid_word(word),
    ensures
        record.check_word_step(word) == Ok::<Step, SessionError>(Step::Escalate),
        record.after_confirm_check(invocation, outbound).remote_reply_wakes(outbound) == Some(
            invocation,
        ),
        after_check_round(record, invocation, outbound, outcome).attempts == record.attempts + 1,
        after_check_round(record, invocation, outbound, outcome).attempts <= MAX_ATTEMPTS,
        after_check_round(record, invocation, outbound, outcome).wf(),
        after_check_round(record, invocation, outbound, outcome).round_id == record.round_id,
        after_check_round(record, invocation, outbound, outcome).status == if outcome.is_full_match() {
            SessionStatus::Finished(Outcome::Win)
        } else if record.attempts + 1 == MAX_ATTEMPTS {
            SessionStatus::Finished(Outcome::Lose)
        } else {
            SessionStatus::AwaitingUserInput
        },
        check_round_step(record, invocation, outbound, outcome, word) == Ok::<Step, SessionError>(
            Step::Reply(
                if outcome.is_full_match() {
                    UserEvent::Finished(Outcome::Win)
                } else if record.attempts + 1 == MAX_ATTEMPTS {
                    UserEvent::Finished(Outcome::Lose)
                } else {
                    outcome.progress()
                },
            ),
        ),
{
}

/// One whole check round as the orchestrator sees it: the dispatch of the
/// guess is confirmed, the remote service answers, and the woken invocation
/// runs its action again.
pub open spec fn after_check_round_in(
    sessions: Map<Identity, SessionRecord>,
    invocation: Invocation,
    word: String,
    outbound: CorrelationId,
    outcome: RemoteOutcome,
) -> Map<Identity, SessionRecord> {
    let request = RemoteRequest::CheckWord { user: invocation.sender, word };
    let sent = after_confirm(sessions, invocation, request, outbound);
    let answered = after_reply(sent, outbound, outcome);
    after_action(answered, invocation, Action::CheckWord { word })
}

/// A check round at the orchestrator is the check round of the sender's
/// record: a valid guess is escalated without a new timeout, its dispatch
/// is confirmed, the verdict wakes the invocation, and the action, run
/// again, tells the user how the round ended.
pub proof fn lemma_check_round_in_sessions(
    sessions: Map<Identity, SessionRecord>,
    invocation: Invocation,
    word: String,
    outbound: CorrelationId,
    outcome: RemoteOutcome,
)
    requires
        all_wf(sessions),
        record_in(sessions, invocation.sender).status.may_guess(),
        valid_word(word@),
        outcome.user() == invocation.sender,
    ensures
        ({
            let user = invocation.sender;
            let request = RemoteRequest::CheckWord { user, word };
            let sent = after_confirm(sessions, invocation, request, outbound);
            let answered = after_reply(sent, outbound, outcome);
            &&& action_effect(sessions, invocation, Action::CheckWord { word }) == Ok::<
                Effect,
                SessionError,
            >(Effect::Escalate { request, timer: None })
            &&& after_action(sessions, invocation, Action::CheckWord { word }) == sessions
            &&& confirm_result(sessions, request) == Ok::<(), SessionError>(())
            &&& reply_wakes(sent, outbound, outcome) == Some(invocation.id)
            &&& action_effect(answered, invocation, Action::CheckWord { word }) == Ok::<
                Effect,
                SessionError,
            >(
                Effect::Reply(
                    if outcome.is_full_match() {
                        UserEvent::Finished(Outcome::Win)
                    } else if sessions[user].attempts + 1 == MAX_ATTEMPTS {
                        UserEvent::Finished(Outcome::Lose)
                    } else {
                        outcome.progress()
                    },
                ),
            )
            &&& after_check_round_in(sessions, invocation, word, outbound, outcome)
                == sessions.insert(
                user,
                after_check_round(sessions[user], invocation.id, outbound, outcome),
            )
        }),
{
}

/// Sessions are independent: an event changes the record of the one user it
/// concerns, at most. Every other user keeps the record that the user had,
/// and a user without a record gets none.
pub proof fn lemma_other_sessions_untouched(
    sessions: Map<Identity, SessionRecord>,
    invocation: Invocation,
    action: Action,
    request: RemoteRequest,
    outbound: CorrelationId,
    reply_to: CorrelationId,
    outcome: RemoteOutcome,
    other: Identity,
)
    ensures
        other != (match action {
            Action::Timeout(signal) => signal.user,
            _ => invocation.sender,
        }) ==> {
            let after = after_action(sessions, invocation, action);
            after.contains_key(other) == sessions.contains_key(other) && after[other]
                == sessions[other]
        },
        other != request.user() ==> {
            let after = after_confirm(sessions, invocation, request, outbound);
            after.contains_key(other) == sessions.contains_key(other) && after[other]
                == sessions[other]
        },
        other != outcome.user() ==> {
            let after = after_reply(sessions, reply_to, outcome);
            after.contains_key(other) == sessions.contains_key(other) && after[other]
                == sessions[other]
        },
{
}

// ---- Starting twice ---------------------------------------------------------

/// A user who is in a game cannot start another: once `StartGame` has been
/// applied to a record that is past the start handshake, a second `StartGame`
/// is refused with `AlreadyInGame` and changes nothing.
///
/// The handshake itself is left out: while the record is `Init`, `Finished`
/// or `AwaitingRemoteStart`, a `StartGame` sends a start request once more.
pub proof fn lemma_second_start_refused(
    sessions: Map<Identity, SessionRecord>,
    first: Invocation,
    second: Invocation,
)
    requires
        first.sender == second.sender,
        !record_in(sessions, first.sender).status.may_start(),
    ensures
        ({
            let between = after_action(sessions, first, Action::StartGame);
            &&& action_effect(between, second, Action::StartGame) == Err::<Effect, SessionError>(
                SessionError::AlreadyInGame,
            )
            &&& after_action(between, second, Action::StartGame) == between
        }),
{
}

/// `StartGame` and `CheckWord` that are refused leave every session as it
/// was.
pub proof fn lemma_refused_action_changes_nothing(
    sessions: Map<Identity, SessionRecord>,
    invocation: Invocation,
    action: Action,
)
    requires
        action_effect(sessions, invocation, action) is Err,
    ensures
        after_action(sessions, invocation, action) == sessions,
{
}

/// An action that asks for a request to be sent has recorded nothing yet.
pub proof fn lemma_escalation_changes_nothing(
    sessions: Map<Identity, SessionRecord>,
    invocation: Invocation,
    action: Action,
)
    requires
        action_effect(sessions, invocation, action) matches Ok(Effect::Escalate { .. }),
    ensures
        after_action(sessions, invocation, action) == sessions,
{
}

// ---- Stale signals -------------------------------------------------------

/// A timeout signal that carries another round than the record's current one
/// does nothing, however often it arrives.
pub proof fn lemma_stale_timeout_is_noop(
    sessions: Map<Identity, SessionRecord>,
    invocation: Invocation,
    signal: TimeoutSignal,
)
    requires
        record_in(sessions, signal.user).round_id != signal.round_id,
    ensures
        action_effect(sessions, invocation, Action::Timeout(signal)) == Ok::<Effect, SessionError>(
            Effect::Nothing,
        ),
        after_action(sessions, invocation, Action::Timeout(signal)) == sessions,
        record_in(sessions, signal.user).after_timeout(signal.round_id) == record_in(
            sessions,
            signal.user,
        ),
{
}

/// A timeout signal that was not sent by this process itself does nothing.
pub proof fn lemma_foreign_timeout_is_noop(
    sessions: Map<Identity, SessionRecord>,
    invocation: Invocation,
    signal: TimeoutSignal,
)
    requires
        invocation.sender != invocation.host,
    ensures
        action_effect(sessions, invocation, Action::Timeout(signal)) == Ok::<Effect, SessionError>(
            Effect::Nothing,
        ),
        after_action(sessions, invocation, Action::Timeout(signal)) == sessions,
{
}

/// A reply whose correlation id is not the one on record is dropped: nobody
/// is woken and no session changes.
pub proof fn lemma_mismatched_reply_is_dropped(
    sessions: Map<Identity, SessionRecord>,
    reply_to: CorrelationId,
    outcome: RemoteOutcome,
)
    requires
        record_in(sessions, outcome.user()).outbound_request_id != reply_to,
    ensures
        reply_wakes(sessions, reply_to, outcome) == None::<CorrelationId>,
        after_reply(sessions, reply_to, outcome) == sessions,
        record_in(sessions, outcome.user()).after_remote_reply(reply_to, outcome).status
            == record_in(sessions, outcome.user()).status,
{
}

/// A reply that finds the session not waiting for the remote service is
/// dropped as well, whatever its correlation id.
pub proof fn lemma_unexpected_reply_is_dropped(
    sessions: Map<Identity, SessionRecord>,
    reply_to: CorrelationId,
    outcome: RemoteOutcome,
)
    requires
        !record_in(sessions, outcome.user()).status.awaits_remote(),
    ensures
        reply_wakes(sessions, reply_to, outcome) == None::<CorrelationId>,
        after_reply(sessions, reply_to, outcome) == sessions,
{
}

// ---- Whole games -----------------------------------------------------------

/// From a start to the first progress report: the start request goes out
/// together with a timeout for the new round, the remote service answers it,
/// the suspended invocation is woken, runs again and hands the verdict to the
/// user; the game then waits for a guess.
pub proof fn lemma_start_then_reply_gives_progress(
    sessions: Map<Identity, SessionRecord>,
    invocation: Invocation,
    outbound: CorrelationId,
    outcome: RemoteOutcome,
)
    requires
        record_in(sessions, invocation.sender).status.may_start(),
        outcome.user() == invocation.sender,
    ensures
        ({
            let user = invocation.sender;
            let request = RemoteRequest::StartGame { user };
            let sent = after_confirm(sessions, invocation, request, outbound);
            let answered = after_reply(sent, outbound, outcome);
            let resumed = after_action(answered, invocation, Action::StartGame);
            &&& action_effect(sessions, invocation, Action::StartGame) == Ok::<
                Effect,
                SessionError,
            >(
                Effect::Escalate {
                    request,
                    timer: Some(TimeoutSignal { user, round_id: invocation.id }),
                },
            )
            &&& confirm_result(sessions, request) == Ok::<(), SessionError>(())
            &&& sent[user].status == SessionStatus::AwaitingRemoteStart
            &&& sent[user].round_id == invocation.id
            &&& sent[user].attempts == 0
            &&& reply_wakes(sent, outbound, outcome) == Some(invocation.id)
            &&& action_effect(answered, invocation, Action::StartGame) == Ok::<
                Effect,
                SessionError,
            >(Effect::Reply(outcome.progress()))
            &&& resumed[user].status == SessionStatus::AwaitingUserInput
            &&& resumed[user].attempts == 0
        }),
{
}

/// A full match wins at once, at whatever attempt it comes.
pub proof fn lemma_full_match_wins(record: SessionRecord, outcome: RemoteOutcome, word: Seq<char>)
    requires
        record.status == SessionStatus::ReplyReady(outcome),
        outcome.is_full_match(),
    ensures
        record.check_word_step(word) == Ok::<Step, SessionError>(
            Step::Reply(UserEvent::Finished(Outcome::Win)),
        ),
        record.after_check_word().status == SessionStatus::Finished(Outcome::Win),
{
}

/// One check round as the remote service sees it: the invocation that
/// submits the guess, the request that carries it, and the verdict.
pub struct Round {
    pub invocation: CorrelationId,
    pub outbound: CorrelationId,
    pub outcome: RemoteOutcome,
}

/// The record after a series of whole check rounds.
pub open spec fn after_rounds(record: SessionRecord, rounds: Seq<Round>) -> SessionRecord
    decreases rounds.len(),
{
    if rounds.len() == 0 {
        record
    } else {
        let last = rounds.last();
        after_check_round(
            after_rounds(record, rounds.drop_last()),
            last.invocation,
            last.outbound,
            last.outcome,
        )
    }
}

/// As long as no guess matches and attempts are left, the game goes on and
/// counts the rounds.
pub proof fn lemma_missed_rounds_count(record: SessionRecord, rounds: Seq<Round>)
    requires
        record.wf(),
        record.status.may_guess(),
        record.attempts + rounds.len() < MAX_ATTEMPTS,
        forall|i: int| 0 <= i < rounds.len() ==> !(#[trigger] rounds[i]).outcome.is_full_match(),
    ensures
        after_rounds(record, rounds).wf(),
        after_rounds(record, rounds).status.may_guess(),
        after_rounds(record, rounds).attempts == record.attempts + rounds.len(),
    decreases rounds.len(),
{
    if rounds.len() > 0 {
        lemma_missed_rounds_count(record, rounds.drop_last());
    }
}

/// Five missed guesses in a row lose the game: the first four are answered
/// with a progress report, the fifth with `Lose`, and the game is over.
pub proof fn lemma_five_misses_lose(record: SessionRecord, rounds: Seq<Round>, word: Seq<char>)
    requires
        record.wf(),
        record.status.may_guess(),
        record.attempts == 0,
        rounds.len() == MAX_ATTEMPTS,
        forall|i: int| 0 <= i < rounds.len() ==> !(#[trigger] rounds[i]).outcome.is_full_match(),
    ensures
        forall|n: int|
            0 < n < MAX_ATTEMPTS ==> check_round_step(
                #[trigger] after_rounds(record, rounds.take(n - 1)),
                rounds[n - 1].invocation,
                rounds[n - 1].outbound,
                rounds[n - 1].outcome,
                word,
            ) == Ok::<Step, SessionError>(Step::Reply(rounds[n - 1].outcome.progress())),
        check_round_step(
            after_rounds(record, rounds.drop_last()),
            rounds.last().invocation,
            rounds.last().outbound,
            rounds.last().outcome,
            word,
        ) == Ok::<Step, SessionError>(Step::Reply(UserEvent::Finished(Outcome::Lose))),
        after_rounds(record, rounds).status == SessionStatus::Finished(Outcome::Lose),
        after_rounds(record, rounds).attempts == MAX_ATTEMPTS,
{
    assert forall|n: int| 0 < n < MAX_ATTEMPTS implies check_round_step(
        #[trigger] after_rounds(record, rounds.take(n - 1)),
        rounds[n - 1].invocation,
        rounds[n - 1].outbound,
        rounds[n - 1].outcome,
        word,
    ) == Ok::<Step, SessionError>(Step::Reply(rounds[n - 1].outcome.progress())) by {
        lemma_missed_rounds_count(record, rounds.take(n - 1));
    }
    lemma_missed_rounds_count(record, rounds.drop_last());
}

/// A game whose start request is never answered is lost by the timeout that
/// was scheduled with it: the user is told so once, and a second delivery of
/// the same signal does nothing.
pub proof fn lemma_unanswered_start_times_out(
    sessions: Map<Identity, SessionRecord>,
    invocation: Invocation,
    outbound: CorrelationId,
    alarm: Invocation,
    again: Invocation,
)
    requires
        record_in(sessions, invocation.sender).status.may_start(),
        alarm.sender == alarm.host,
        again.sender == again.host,
    ensures
        ({
            let user = invocation.sender;
            let request = RemoteRequest::StartGame { user };
            let signal = TimeoutSignal { user, round_id: invocation.id };
            let sent = after_confirm(sessions, invocation, request, outbound);
            let lost = after_action(sent, alarm, Action::Timeout(signal));
            &&& action_effect(sessions, invocation, Action::StartGame) == Ok::<
                Effect,
                SessionError,
            >(Effect::Escalate { request, timer: Some(signal) })
            &&& confirm_result(sessions, request) == Ok::<(), SessionError>(())
            &&& action_effect(sent, alarm, Action::Timeout(signal)) == Ok::<Effect, SessionError>(
                Effect::Notify { user, event: UserEvent::Finished(Outcome::Lose) },
            )
            &&& lost[user].status == SessionStatus::Finished(Outcome::Lose)
            &&& action_effect(lost, again, Action::Timeout(signal)) == Ok::<Effect, SessionError>(
                Effect::Nothing,
            )
            &&& after_action(lost, again, Action::Timeout(signal)) == lost
        }),
{
}

// ---- Word validation -----------------------------------------------------

/// A word that is not exactly `WORD_LENGTH` characters long, or that holds a
/// character that is not lowercase, is no valid word.
pub proof fn lemma_invalid_words(word: Seq<char>)
    ensures
        word.len() != WORD_LENGTH ==> !valid_word(word),
        (exists|i: int| 0 <= i < word.len() && !lowercase(#[trigger] word[i])) ==> !valid_word(
            word,
        ),
{
}

/// An invalid word is refused before anything is sent: the answer is
/// `InvalidWord`, no request is asked for, and no session changes.
pub proof fn lemma_invalid_word_is_refused(
    sessions: Map<Identity, SessionRecord>,
    invocation: Invocation,
    word: String,
)
    requires
        record_in(sessions, invocation.sender).status.may_guess(),
        !valid_word(word@),
    ensures
        action_effect(sessions, invocation, Action::CheckWord { word }) == Err::<
            Effect,
            SessionError,
        >(SessionError::InvalidWord),
        after_action(sessions, invocation, Action::CheckWord { word }) == sessions,
{
}

} // verus!
