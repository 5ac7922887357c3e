//! Wire-level protocol data: the commands the client sends, the
//! responses the service returns, the actor's terminal outcome, the
//! event entries a running actor emits, and the client's error
//! taxonomy. All of it carries plain values; the transport that moves
//! these as frames lives outside the library.

use vstd::prelude::*;
use crate::text::str_eq;

verus! {

/// Opaque identifier the service assigns to a started actor; every
/// later command for that actor is addressed with it.
#[derive(Debug, PartialEq, Eq)]
pub struct ActorId {
    pub text: String,
}

impl Clone for ActorId {
    /// An identifier copy addresses the same actor.
    fn clone(&self) -> (r: Self)
        ensures
            r == *self,
    {
        ActorId { text: self.text.clone() }
    }
}

/// An append-only diagnostic entry emitted asynchronously by a running
/// actor; ordering among a single actor's events is log order.
#[derive(Debug, PartialEq, Eq)]
pub struct ChainEvent {
    pub event_type: String,
    pub description: Option<String>,
    pub data: Vec<u8>,
}

/// A command sent to the management service.
#[derive(Debug, PartialEq, Eq)]
pub enum Command {
    StartActor { manifest: String, initial_state: Option<Vec<u8>>, parent_flag: bool, subscribe_flag: bool },
    SubscribeToActor { actor_id: ActorId },
    RequestActorMessage { actor_id: ActorId, payload: Vec<u8> },
    StopActor { actor_id: ActorId },
}

/// The terminal state of an actor.
#[derive(Debug, PartialEq, Eq)]
pub enum ActorOutcome {
    Success { actor_id: ActorId, payload: Option<Vec<u8>> },
    Failure { actor_id: ActorId, error: String },
}

/// A response received from the management service.
#[derive(Debug, PartialEq, Eq)]
pub enum Response {
    ActorStarted { actor_id: ActorId },
    ActorEvent { event: ChainEvent },
    RequestedMessage { payload: Vec<u8> },
    ActorResult { outcome: ActorOutcome },
    Error { detail: String },
}

/// The client's error taxonomy. Connect-time failures are retryable;
/// a protocol violation is fatal for the session; an application error
/// is a well-formed exchange that reports the actor's own failure and
/// is never a transport fault; a timeout bounds only the waiting side
/// of an operation.
#[derive(Debug, PartialEq, Eq)]
pub enum ClientError {
    ConnectionError { detail: String },
    ProtocolError { detail: String },
    ApplicationError { detail: String },
    TimeoutError,
    SequencingError,
    EncodingError { detail: String },
    DecodingError { detail: String },
}

/// Closed classification of the event types a commit actor emits,
/// decoded once at the boundary instead of re-matched by string
/// comparison downstream.
#[derive(Debug, Clone, Copy, PartialEq, Eq, Structural)]
pub enum EventKind {
    GitStatusCheck,
    StagingFiles,
    GeneratingMessage,
    CreatingCommit,
    PushingChanges,
    ErrorReport,
    Other,
}

/// The kind an event-type string denotes; anything unrecognized is
/// `Other`.
pub open spec fn spec_classify_event(t: Seq<char>) -> EventKind {
    if t == "git_status_check"@ {
        EventKind::GitStatusCheck
    } else if t == "staging_files"@ {
        EventKind::StagingFiles
    } else if t == "generating_message"@ {
        EventKind::GeneratingMessage
    } else if t == "creating_commit"@ {
        EventKind::CreatingCommit
    } else if t == "pushing_changes"@ {
        EventKind::PushingChanges
    } else if t == "error"@ {
        EventKind::ErrorReport
    } else {
        EventKind::Other
    }
}

/// Classify an event-type string into the closed enumeration.
pub fn classify_event(event_type: &str) -> (k: EventKind)
    ensures
        k == spec_classify_event(event_type@),
{
    if str_eq(event_type, "git_status_check") {
        EventKind::GitStatusCheck
    } else if str_eq(event_type, "staging_files") {
        EventKind::StagingFiles
    } else if str_eq(event_type, "generating_message") {
        EventKind::GeneratingMessage
    } else if str_eq(event_type, "creating_commit") {
        EventKind::CreatingCommit
    } else if str_eq(event_type, "pushing_changes") {
        EventKind::PushingChanges
    } else if str_eq(event_type, "error") {
        EventKind::ErrorReport
    } else {
        EventKind::Other
    }
}

} // verus!
