//! The client core: one state machine that owns the pending-wait slot
//! of the command dispatcher, the event queue of the frame
//! demultiplexer, and the actor session lifecycle.
//!
//! The surrounding process performs the I/O: it sends the commands this
//! module hands out and feeds every inbound frame to `handle_frame`.
//! Correlation is positional — the protocol carries no request ids, so
//! at most one command awaits its control response at any time, and the
//! next non-event frame answers the most recent command. Event frames
//! never resolve nor disturb a pending wait; they only join the queue.

use vstd::prelude::*;
use crate::protocol::ActorId;
use crate::protocol::ChainEvent;
use crate::protocol::ClientError;
use crate::protocol::Command;
use crate::protocol::Response;
use crate::protocol::ActorOutcome;

verus! {

/// The single one-shot slot for an in-flight command's control
/// response.
#[derive(Debug, Clone, Copy, PartialEq, Eq, Structural)]
pub enum PendingWait {
    Idle,
    AwaitingStart,
    AwaitingMessage,
}

/// The actor session's lifecycle. `Completed`, `Failed` and `Stopped`
/// are terminal; an `ActorResult` frame short-circuits to a terminal
/// state from anywhere on the expected path.
#[derive(Debug, Clone, Copy, PartialEq, Eq, Structural)]
pub enum SessionState {
    NotStarted,
    Starting,
    Running,
    RequestPending,
    Stopping,
    Stopped,
    Completed,
    Failed,
}

/// No transition leads out of a terminal state.
pub open spec fn is_terminal(s: SessionState) -> bool {
    s == SessionState::Completed || s == SessionState::Failed || s == SessionState::Stopped
}

/// The terminal state an actor outcome puts the session in.
pub open spec fn outcome_state(o: ActorOutcome) -> SessionState {
    match o {
        ActorOutcome::Success { .. } => SessionState::Completed,
        ActorOutcome::Failure { .. } => SessionState::Failed,
    }
}

/// What the demultiplexer did with one inbound frame.
#[derive(Debug, PartialEq, Eq)]
#[allow(inconsistent_fields)]
pub enum FrameDisposition {
    /// An event frame joined the queue.
    EventQueued,
    /// The frame answered the pending start command.
    StartResolved { result: Result<ActorId, ClientError> },
    /// The frame answered the pending message request.
    RequestResolved { result: Result<Vec<u8>, ClientError> },
    /// A terminal result arrived; it ends the session unconditionally.
    TerminalResult { outcome: ActorOutcome },
    /// A late response after a timeout, discarded as the supervisor
    /// pre-armed.
    StrayDiscarded,
    /// A non-event frame arrived with no one awaiting it: the
    /// connection is compromised.
    ProtocolViolation,
    /// A frame for an actor whose session already ended; the peer tore
    /// the actor down, the frame is ignored.
    IgnoredAfterTermination,
}

/// The client core's state: the dispatcher's pending-wait slot, the
/// session, the started actor's identifier, the event queue, the
/// one-stray tolerance the timeout supervisor arms, and whether the
/// event stream is closed.
pub struct ClientCore {
    pub pending: PendingWait,
    pub session: SessionState,
    pub actor_id: Option<ActorId>,
    pub events: Vec<ChainEvent>,
    pub stray_allowance: bool,
    pub events_closed: bool,
}

impl ClientCore {
    /// Well-formedness: a pending wait matches the session phase that
    /// set it, and every session phase past a successful start knows
    /// the actor's identifier.
    pub open spec fn wf(self) -> bool {
        &&& self.pending == PendingWait::AwaitingStart ==> self.session == SessionState::Starting
        &&& self.pending == PendingWait::AwaitingMessage ==> self.session
            == SessionState::RequestPending
        &&& (self.session == SessionState::Running || self.session == SessionState::RequestPending
            || self.session == SessionState::Stopping || self.session == SessionState::Stopped)
            ==> self.actor_id is Some
    }

    /// Once the session is terminal no command wait can be pending: the
    /// frame router never has to choose between answering a wait and
    /// ignoring a frame for a torn-down actor.
    pub proof fn lemma_terminal_session_has_no_pending_wait(self)
        requires
            self.wf(),
            is_terminal(self.session),
        ensures
            self.pending == PendingWait::Idle,
    {
    }

    /// A fresh core: nothing pending, session not started, queue empty.
    pub fn new() -> (c: ClientCore)
        ensures
            c.wf(),
            c.pending == PendingWait::Idle,
            c.session == SessionState::NotStarted,
            c.actor_id is None,
            c.events@ =~= Seq::<ChainEvent>::empty(),
            !c.stray_allowance,
            !c.events_closed,
    {
        ClientCore {
            pending: PendingWait::Idle,
            session: SessionState::NotStarted,
            actor_id: None,
            events: Vec::new(),
            stray_allowance: false,
            events_closed: false,
        }
    }

    /// Register the start command: the session may be started once, and
    /// only while nothing else is awaited. Hands back the command to
    /// send and arms the pending-wait slot.
    pub fn begin_start(
        &mut self,
        manifest: String,
        initial_state: Option<Vec<u8>>,
        parent_flag: bool,
        subscribe_flag: bool,
    ) -> (r: Result<Command, ClientError>)
        requires
            old(self).wf(),
        ensures
            final(self).wf(),
            old(self).pending == PendingWait::Idle && old(self).session == SessionState::NotStarted
                ==> r == Ok::<Command, ClientError>(
                Command::StartActor { manifest, initial_state, parent_flag, subscribe_flag },
            ) && *final(self) == (ClientCore {
                pending: PendingWait::AwaitingStart,
                session: SessionState::Starting,
                ..*old(self)
            }),
            !(old(self).pending == PendingWait::Idle && old(self).session
                == SessionState::NotStarted) ==> r == Err::<Command, ClientError>(ClientError::SequencingError) && *final(self) == *old(self),
    {
        if matches!(self.pending, PendingWait::Idle) && matches!(
            self.session,
            SessionState::NotStarted,
        ) {
            self.pending = PendingWait::AwaitingStart;
            self.session = SessionState::Starting;
            Ok(Command::StartActor { manifest, initial_state, parent_flag, subscribe_flag })
        } else {
            Err(ClientError::SequencingError)
        }
    }

    /// The fire-and-forget subscription command for the started actor;
    /// no response is expected and no state changes.
    pub fn subscribe_command(&self) -> (r: Result<Command, ClientError>)
        ensures
            self.actor_id matches Some(id) ==> r == Ok::<Command, ClientError>(Command::SubscribeToActor { actor_id: id }),
            self.actor_id is None ==> r == Err::<Command, ClientError>(ClientError::SequencingError),
    {
        match &self.actor_id {
            Some(id) => Ok(Command::SubscribeToActor { actor_id: id.clone() }),
            None => Err(ClientError::SequencingError),
        }
    }

    /// Register a message request. Issuing a second request while a
    /// previous one is unresolved is a caller error — the wire protocol
    /// cannot disambiguate overlapping responses — so it is refused as
    /// `SequencingError` with the state untouched, never queued.
    pub fn begin_request(&mut self, payload: Vec<u8>) -> (r: Result<Command, ClientError>)
        requires
            old(self).wf(),
        ensures
            final(self).wf(),
            old(self).pending != PendingWait::Idle ==> r == Err::<Command, ClientError>(ClientError::SequencingError)
                && *final(self) == *old(self),
            old(self).pending == PendingWait::Idle && old(self).session == SessionState::Running
                ==> r == Ok::<Command, ClientError>(
                Command::RequestActorMessage { actor_id: old(self).actor_id->0, payload },
            ) && *final(self) == (ClientCore {
                pending: PendingWait::AwaitingMessage,
                session: SessionState::RequestPending,
                ..*old(self)
            }),
            old(self).pending == PendingWait::Idle && old(self).session != SessionState::Running
                ==> r == Err::<Command, ClientError>(ClientError::SequencingError) && *final(self) == *old(self),
    {
        if !matches!(self.pending, PendingWait::Idle) {
            return Err(ClientError::SequencingError);
        }
        if !matches!(self.session, SessionState::Running) {
            return Err(ClientError::SequencingError);
        }
        let id = match &self.actor_id {
            Some(id) => id.clone(),
            None => { return Err(ClientError::SequencingError) },
        };
        self.pending = PendingWait::AwaitingMessage;
        self.session = SessionState::RequestPending;
        Ok(Command::RequestActorMessage { actor_id: id, payload })
    }

    /// Register the best-effort stop command: no acknowledgement is
    /// awaited, since the peer may already have torn the actor down.
    pub fn begin_stop(&mut self) -> (r: Result<Command, ClientError>)
        requires
            old(self).wf(),
        ensures
            final(self).wf(),
            old(self).session == SessionState::Running ==> r == Ok::<Command, ClientError>(
                Command::StopActor { actor_id: old(self).actor_id->0 },
            ) && *final(self) == (ClientCore { session: SessionState::Stopping, ..*old(self) }),
            old(self).session != SessionState::Running ==> r == Err::<Command, ClientError>(ClientError::SequencingError)
                && *final(self) == *old(self),
    {
        if !matches!(self.session, SessionState::Running) {
            return Err(ClientError::SequencingError);
        }
        let id = match &self.actor_id {
            Some(id) => id.clone(),
            None => { return Err(ClientError::SequencingError) },
        };
        self.session = SessionState::Stopping;
        Ok(Command::StopActor { actor_id: id })
    }

    /// The stop command left the process: the session ends.
    pub fn finish_stop(&mut self)
        requires
            old(self).wf(),
        ensures
            final(self).wf(),
            old(self).session == SessionState::Stopping ==> *final(self) == (ClientCore {
                session: SessionState::Stopped,
                ..*old(self)
            }),
            old(self).session != SessionState::Stopping ==> *final(self) == *old(self),
    {
        if matches!(self.session, SessionState::Stopping) {
            self.session = SessionState::Stopped;
        }
    }

    /// Route one inbound frame: an event joins the queue without
    /// resolving or disturbing any pending wait; a terminal result ends
    /// a live session wherever it arrives; any other frame answers the
    /// pending wait, or — with none pending — is the one tolerated
    /// stray after a timeout, or a protocol violation that compromises
    /// the session. Frames after termination are ignored.
    pub fn handle_frame(&mut self, frame: Response) -> (d: FrameDisposition)
        requires
            old(self).wf(),
        ensures
            final(self).wf(),
            final(self).events_closed == old(self).events_closed,
            // An event is delivered to the consumer's queue and nothing else moves.
            frame matches Response::ActorEvent { event } ==> d == FrameDisposition::EventQueued
                && final(self).events@ == old(self).events@.push(event) && final(self).pending
                == old(self).pending && final(self).session == old(self).session && final(self).actor_id == old(self).actor_id && final(self).stray_allowance == old(self).stray_allowance,
            !(frame matches Response::ActorEvent { .. }) ==> final(self).events@ == old(self).events@,
            // After termination the actor is already torn down: further
            // frames for it are ignored, not violations.
            !(frame matches Response::ActorEvent { .. }) && old(self).pending == PendingWait::Idle
                && is_terminal(old(self).session) ==> d
                == FrameDisposition::IgnoredAfterTermination && *final(self) == *old(self),
            // A terminal result ends a live session unconditionally,
            // whether or not anything is pending.
            !is_terminal(old(self).session) && old(self).pending == PendingWait::Idle ==> (frame
                matches Response::ActorResult { outcome } ==> d
                == (FrameDisposition::TerminalResult { outcome }) && *final(self) == (ClientCore {
                session: outcome_state(outcome),
                ..*old(self)
            })),
            // Any other non-event frame with nothing pending: one stray is
            // tolerated after a timeout, anything else compromises the
            // connection.
            !(frame matches Response::ActorEvent { .. }) && !(frame
                matches Response::ActorResult { .. }) && old(self).pending == PendingWait::Idle
                && !is_terminal(old(self).session) && old(self).stray_allowance ==> d
                == FrameDisposition::StrayDiscarded && *final(self) == (ClientCore {
                stray_allowance: false,
                ..*old(self)
            }),
            !(frame matches Response::ActorEvent { .. }) && !(frame
                matches Response::ActorResult { .. }) && old(self).pending == PendingWait::Idle
                && !is_terminal(old(self).session) && !old(self).stray_allowance ==> d
                == FrameDisposition::ProtocolViolation && *final(self) == (ClientCore {
                session: SessionState::Failed,
                ..*old(self)
            }),
            // The next non-event frame answers the pending start.
            !(frame matches Response::ActorEvent { .. }) && old(self).pending
                == PendingWait::AwaitingStart ==> final(self).pending == PendingWait::Idle && final(self).stray_allowance == old(self).stray_allowance && match frame {
                Response::ActorStarted { actor_id } => d == (FrameDisposition::StartResolved {
                    result: Ok(actor_id),
                }) && final(self).session == SessionState::Running && final(self).actor_id == Some(
                    actor_id,
                ),
                Response::Error { detail } => d == (FrameDisposition::StartResolved {
                    result: Err(ClientError::ApplicationError { detail }),
                }) && final(self).session == SessionState::Failed && final(self).actor_id == old(self).actor_id,
                Response::ActorResult { outcome } => d == (FrameDisposition::TerminalResult {
                    outcome,
                }) && final(self).session == outcome_state(outcome) && final(self).actor_id == old(self).actor_id,
                Response::RequestedMessage { .. } => d == FrameDisposition::ProtocolViolation
                    && final(self).session == SessionState::Failed && final(self).actor_id == old(self).actor_id,
                Response::ActorEvent { .. } => true,
            },
            // The next non-event frame answers the pending request.
            !(frame matches Response::ActorEvent { .. }) && old(self).pending
                == PendingWait::AwaitingMessage ==> final(self).pending == PendingWait::Idle
                && final(self).stray_allowance == old(self).stray_allowance && final(self).actor_id
                == old(self).actor_id && match frame {
                Response::RequestedMessage { payload } => d == (FrameDisposition::RequestResolved {
                    result: Ok(payload),
                }) && final(self).session == SessionState::Running,
                Response::Error { detail } => d == (FrameDisposition::RequestResolved {
                    result: Err(ClientError::ApplicationError { detail }),
                }) && final(self).session == SessionState::Running,
                Response::ActorResult { outcome } => d == (FrameDisposition::TerminalResult {
                    outcome,
                }) && final(self).session == outcome_state(outcome),
                Response::ActorStarted { .. } => d == FrameDisposition::ProtocolViolation && final(self).session == SessionState::Failed,
                Response::ActorEvent { .. } => true,
            },
    {
        match frame {
            Response::ActorEvent { event } => {
                self.events.push(event);
                FrameDisposition::EventQueued
            },
            control => {
                match self.pending {
                    PendingWait::Idle => {
                        if matches!(
                            self.session,
                            SessionState::Completed | SessionState::Failed | SessionState::Stopped,
                        ) {
                            FrameDisposition::IgnoredAfterTermination
                        } else if let Response::ActorResult { outcome } = control {
                            self.session = match &outcome {
                                ActorOutcome::Success { .. } => SessionState::Completed,
                                ActorOutcome::Failure { .. } => SessionState::Failed,
                            };
                            FrameDisposition::TerminalResult { outcome }
                        } else if self.stray_allowance {
                            self.stray_allowance = false;
                            FrameDisposition::StrayDiscarded
                        } else {
                            self.session = SessionState::Failed;
                            FrameDisposition::ProtocolViolation
                        }
                    },
                    PendingWait::AwaitingStart => {
                        self.pending = PendingWait::Idle;
                        match control {
                            Response::ActorStarted { actor_id } => {
                                self.session = SessionState::Running;
                                self.actor_id = Some(actor_id.clone());
                                FrameDisposition::StartResolved { result: Ok(actor_id) }
                            },
                            Response::Error { detail } => {
                                self.session = SessionState::Failed;
                                FrameDisposition::StartResolved {
                                    result: Err(ClientError::ApplicationError { detail }),
                                }
                            },
                            Response::ActorResult { outcome } => {
                                self.session = match &outcome {
                                    ActorOutcome::Success { .. } => SessionState::Completed,
                                    ActorOutcome::Failure { .. } => SessionState::Failed,
                                };
                                FrameDisposition::TerminalResult { outcome }
                            },
                            Response::RequestedMessage { .. } => {
                                self.session = SessionState::Failed;
                                FrameDisposition::ProtocolViolation
                            },
                            Response::ActorEvent { .. } => unreached(),
                        }
                    },
                    PendingWait::AwaitingMessage => {
                        self.pending = PendingWait::Idle;
                        match control {
                            Response::RequestedMessage { payload } => {
                                self.session = SessionState::Running;
                                FrameDisposition::RequestResolved { result: Ok(payload) }
                            },
                            Response::Error { detail } => {
                                self.session = SessionState::Running;
                                FrameDisposition::RequestResolved {
                                    result: Err(ClientError::ApplicationError { detail }),
                                }
                            },
                            Response::ActorResult { outcome } => {
                                self.session = match &outcome {
                                    ActorOutcome::Success { .. } => SessionState::Completed,
                                    ActorOutcome::Failure { .. } => SessionState::Failed,
                                };
                                FrameDisposition::TerminalResult { outcome }
                            },
                            Response::ActorStarted { .. } => {
                                self.session = SessionState::Failed;
                                FrameDisposition::ProtocolViolation
                            },
                            Response::ActorEvent { .. } => unreached(),
                        }
                    },
                }
            },
        }
    }

    /// A caller-visible timeout on the pending wait: the waiter gives
    /// up, the slot clears, and the demultiplexer is pre-armed to
    /// tolerate the one response that may still arrive. A timed-out
    /// request returns the session to `Running`, so a stop attempt
    /// still succeeds; the underlying send is never cancelled.
    pub fn on_timeout(&mut self)
        requires
            old(self).wf(),
        ensures
            final(self).wf(),
            old(self).pending == PendingWait::Idle ==> *final(self) == *old(self),
            old(self).pending == PendingWait::AwaitingMessage ==> *final(self) == (ClientCore {
                pending: PendingWait::Idle,
                session: SessionState::Running,
                stray_allowance: true,
                ..*old(self)
            }),
            old(self).pending == PendingWait::AwaitingStart ==> *final(self) == (ClientCore {
                pending: PendingWait::Idle,
                stray_allowance: true,
                ..*old(self)
            }),
    {
        match self.pending {
            PendingWait::Idle => {},
            PendingWait::AwaitingStart => {
                self.pending = PendingWait::Idle;
                self.stray_allowance = true;
            },
            PendingWait::AwaitingMessage => {
                self.pending = PendingWait::Idle;
                self.session = SessionState::Running;
                self.stray_allowance = true;
            },
        }
    }

    /// A read error on the connection is fatal for the whole session:
    /// any pending wait is over, the session has failed, and the event
    /// stream is closed. It is never retried mid-session.
    pub fn on_connection_lost(&mut self)
        requires
            old(self).wf(),
        ensures
            final(self).wf(),
            *final(self) == (ClientCore {
                pending: PendingWait::Idle,
                session: SessionState::Failed,
                stray_allowance: false,
                events_closed: true,
                ..*old(self)
            }),
    {
        self.pending = PendingWait::Idle;
        self.session = SessionState::Failed;
        self.stray_allowance = false;
        self.events_closed = true;
    }

    /// Drain one event from the front of the queue, in arrival order.
    pub fn take_event(&mut self) -> (r: Option<ChainEvent>)
        requires
            old(self).wf(),
        ensures
            final(self).wf(),
            final(self).pending == old(self).pending,
            final(self).session == old(self).session,
            final(self).actor_id == old(self).actor_id,
            final(self).stray_allowance == old(self).stray_allowance,
            final(self).events_closed == old(self).events_closed,
            old(self).events@.len() == 0 ==> r is None && final(self).events@ == old(self).events@,
            old(self).events@.len() > 0 ==> r == Some(old(self).events@[0]) && final(self).events@
                == old(self).events@.drop_first(),
    {
        if self.events.len() == 0 {
            return None;
        }
        let e = self.events.remove(0);
        proof {
            assert(self.events@ =~= old(self).events@.drop_first());
        }
        Some(e)
    }
}


} // verus!
