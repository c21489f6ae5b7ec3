//! Per-user session state machine for a multi-round word-guessing game.
//!
//! A user starts a game and submits guesses; a remote service picks the word
//! and judges every guess. Requests to that service are answered late or
//! never, so every session remembers which request it is waiting for, which
//! invocation sleeps until the answer comes, and which round a timeout was
//! scheduled for.
//!
//! * [`record`] holds the state machine of one session,
//! * [`table`] keeps one record per user,
//! * [`orchestrator`] applies inbound events to the table and says what to
//!   send, whom to answer and whom to wake,
//! * [`guarantees`] states what holds of whole games.

pub mod error;
pub mod guarantees;
pub mod ident;
pub mod orchestrator;
pub mod outcome;
pub mod record;
pub mod table;
pub mod word;

pub use crate::error::SessionError;
pub use crate::ident::{CorrelationId, Identity};
pub use crate::orchestrator::{
    Action, Effect, Invocation, Orchestrator, RemoteRequest, TimeoutSignal,
};
pub use crate::outcome::{Outcome, RemoteOutcome, UserEvent};
pub use crate::record::{SessionRecord, SessionStatus, Step, MAX_ATTEMPTS};
pub use crate::table::SessionTable;
pub use crate::word::{is_valid_word, WORD_LENGTH};
