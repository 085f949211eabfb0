//! The protocol of the background execution context that owns the running node.
//!
//! The context constructs the node, reports the outcome to the caller of `start` exactly
//! once, parks until it is told to shut down, tears the node down and exits. The host
//! performs each action and reports what happened as the next event; every decision in
//! between is taken by [`worker_step`].

use vstd::prelude::*;
use vstd::string::*;
use crate::error::{ErrorKind, ErrorView, NodeError};
use crate::text::append;

verus! {

/// The kind of node a configuration asks for.
#[derive(Debug, Clone, Copy, PartialEq, Eq, Structural)]
pub enum NodeType {
    Archive,
    Full,
    Light,
    Unknown,
}

/// A node implementation that can be constructed.
#[derive(Debug, Clone, Copy, PartialEq, Eq, Structural)]
pub enum ClientKind {
    Archive,
    Full,
    Light,
}

impl ClientKind {
    /// The name of the kind as it appears in messages.
    pub open spec fn label(self) -> Seq<char> {
        match self {
            ClientKind::Archive => "Archive"@,
            ClientKind::Full => "Full"@,
            ClientKind::Light => "Light"@,
        }
    }

    /// The error reported when constructing a node of this kind fails for `reason`.
    pub open spec fn start_failure_spec(self, reason: Seq<char>) -> ErrorView {
        ErrorView {
            kind: ErrorKind::Runtime,
            message: "Failed to start "@ + self.label() + " node: "@ + reason,
        }
    }

    /// Wraps the reason a node of this kind could not be constructed.
    pub fn start_failure(self, reason: &str) -> (e: NodeError)
        ensures
            e@ == self.start_failure_spec(reason@),
    {
        let label = match self {
            ClientKind::Archive => "Archive",
            ClientKind::Full => "Full",
            ClientKind::Light => "Light",
        };
        let head = append("Failed to start ", label);
        let head = append(head.as_str(), " node: ");
        NodeError::Runtime(append(head.as_str(), reason))
    }
}

/// The error for a node type that names no implementation.
pub open spec fn unknown_node_type() -> ErrorView {
    ErrorView { kind: ErrorKind::Configuration, message: "Unknown node type"@ }
}

/// The implementation that `node_type` selects, if it selects one.
pub open spec fn client_for(node_type: NodeType) -> Option<ClientKind> {
    match node_type {
        NodeType::Archive => Some(ClientKind::Archive),
        NodeType::Full => Some(ClientKind::Full),
        NodeType::Light => Some(ClientKind::Light),
        NodeType::Unknown => None,
    }
}

/// Chooses the implementation to construct for `node_type`. An unknown type is a
/// configuration error and nothing is constructed for it.
pub fn create_client(node_type: NodeType) -> (r: Result<ClientKind, NodeError>)
    ensures
        match client_for(node_type) {
            Some(kind) => r == Ok::<ClientKind, NodeError>(kind),
            None => r is Err && r->Err_0@ == unknown_node_type(),
        },
{
    match node_type {
        NodeType::Archive => Ok(ClientKind::Archive),
        NodeType::Full => Ok(ClientKind::Full),
        NodeType::Light => Ok(ClientKind::Light),
        NodeType::Unknown => Err(NodeError::Configuration("Unknown node type".to_owned())),
    }
}

/// Where the execution context stands.
#[derive(Debug, Clone, Copy, PartialEq, Eq, Structural)]
pub enum WorkerPhase {
    /// Spawned, nothing done yet.
    Created,
    /// The factory for the given kind is running.
    Constructing(ClientKind),
    /// A node was constructed; success is being reported.
    ReportingSuccess,
    /// No node was constructed; the failure is being reported.
    ReportingFailure,
    /// Success was delivered; waiting for the shutdown signal.
    Parked,
    /// The node is being torn down.
    TearingDown,
    /// The context has nothing left to do.
    Finished,
}

/// What the host observed after performing the previous action.
#[derive(Debug)]
pub enum WorkerEvent {
    /// The context began to run, for a configuration of the given node type.
    Spawned(NodeType),
    /// The factory returned a node.
    Constructed,
    /// The factory failed, for the given reason.
    ConstructionFailed(String),
    /// The startup outcome reached the caller of `start`.
    ReportDelivered,
    /// The startup outcome could not be delivered: nobody is listening.
    ReportUndeliverable,
    /// The wait for the shutdown signal ended.
    ShutdownReceived,
    /// The node's teardown returned.
    TornDown,
}

/// What the host is to do next.
#[derive(Debug)]
pub enum WorkerAction {
    /// Run the factory for the given kind.
    Construct(ClientKind),
    /// Send the startup outcome to the caller of `start`.
    Report(Result<(), NodeError>),
    /// Block until the shutdown signal arrives.
    AwaitShutdown,
    /// Tear the node down.
    Teardown,
    /// Leave the execution context.
    Exit,
}

/// An action as contracts see it.
pub enum ActionView {
    Construct(ClientKind),
    ReportSuccess,
    ReportFailure(ErrorView),
    AwaitShutdown,
    Teardown,
    Exit,
}

impl View for WorkerAction {
    type V = ActionView;

    open spec fn view(&self) -> ActionView {
        match self {
            WorkerAction::Construct(kind) => ActionView::Construct(*kind),
            WorkerAction::Report(Ok(_)) => ActionView::ReportSuccess,
            WorkerAction::Report(Err(e)) => ActionView::ReportFailure(e@),
            WorkerAction::AwaitShutdown => ActionView::AwaitShutdown,
            WorkerAction::Teardown => ActionView::Teardown,
            WorkerAction::Exit => ActionView::Exit,
        }
    }
}

/// The protocol: the phase that follows `phase` on `event`, and the action to perform.
/// `None` where the event cannot occur in the phase.
pub open spec fn worker_next(phase: WorkerPhase, event: WorkerEvent) -> Option<
    (WorkerPhase, ActionView),
> {
    match (phase, event) {
        (WorkerPhase::Created, WorkerEvent::Spawned(node_type)) => match client_for(node_type) {
            Some(kind) => Some((WorkerPhase::Constructing(kind), ActionView::Construct(kind))),
            None => Some(
                (WorkerPhase::ReportingFailure, ActionView::ReportFailure(unknown_node_type())),
            ),
        },
        (WorkerPhase::Constructing(_), WorkerEvent::Constructed) => Some(
            (WorkerPhase::ReportingSuccess, ActionView::ReportSuccess),
        ),
        (WorkerPhase::Constructing(kind), WorkerEvent::ConstructionFailed(reason)) => Some(
            (
                WorkerPhase::ReportingFailure,
                ActionView::ReportFailure(kind.start_failure_spec(reason@)),
            ),
        ),
        (WorkerPhase::ReportingSuccess, WorkerEvent::ReportDelivered) => Some(
            (WorkerPhase::Parked, ActionView::AwaitShutdown),
        ),
        (WorkerPhase::ReportingSuccess, WorkerEvent::ReportUndeliverable) => Some(
            (WorkerPhase::TearingDown, ActionView::Teardown),
        ),
        (WorkerPhase::ReportingFailure, WorkerEvent::ReportDelivered) => Some(
            (WorkerPhase::Finished, ActionView::Exit),
        ),
        (WorkerPhase::ReportingFailure, WorkerEvent::ReportUndeliverable) => Some(
            (WorkerPhase::Finished, ActionView::Exit),
        ),
        (WorkerPhase::Parked, WorkerEvent::ShutdownReceived) => Some(
            (WorkerPhase::TearingDown, ActionView::Teardown),
        ),
        (WorkerPhase::TearingDown, WorkerEvent::TornDown) => Some(
            (WorkerPhase::Finished, ActionView::Exit),
        ),
        _ => None,
    }
}

/// Decides what the execution context does after `event` arrived in `phase`.
///
/// Returns the next phase and the action to perform, or `None` where the event does not
/// belong to the phase; the caller then stays in `phase`.
pub fn worker_step(phase: WorkerPhase, event: WorkerEvent) -> (r: Option<
    (WorkerPhase, WorkerAction),
>)
    ensures
        match worker_next(phase, event) {
            Some((next, action)) => r matches Some(taken) && taken.0 == next && taken.1@ == action,
            None => r is None,
        },
{
    match phase {
        WorkerPhase::Created => match event {
            WorkerEvent::Spawned(node_type) => match create_client(node_type) {
                Ok(kind) => Some((WorkerPhase::Constructing(kind), WorkerAction::Construct(kind))),
                Err(e) => Some((WorkerPhase::ReportingFailure, WorkerAction::Report(Err(e)))),
            },
            _ => None,
        },
        WorkerPhase::Constructing(kind) => match event {
            WorkerEvent::Constructed => Some(
                (WorkerPhase::ReportingSuccess, WorkerAction::Report(Ok(()))),
            ),
            WorkerEvent::ConstructionFailed(reason) => {
                let e = kind.start_failure(reason.as_str());
                Some((WorkerPhase::ReportingFailure, WorkerAction::Report(Err(e))))
            },
            _ => None,
        },
        WorkerPhase::ReportingSuccess => match event {
            WorkerEvent::ReportDelivered => Some(
                (WorkerPhase::Parked, WorkerAction::AwaitShutdown),
            ),
            WorkerEvent::ReportUndeliverable => Some(
                (WorkerPhase::TearingDown, WorkerAction::Teardown),
            ),
            _ => None,
        },
        WorkerPhase::ReportingFailure => match event {
            WorkerEvent::ReportDelivered => Some((WorkerPhase::Finished, WorkerAction::Exit)),
            WorkerEvent::ReportUndeliverable => Some((WorkerPhase::Finished, WorkerAction::Exit)),
            _ => None,
        },
        WorkerPhase::Parked => match event {
            WorkerEvent::ShutdownReceived => Some(
                (WorkerPhase::TearingDown, WorkerAction::Teardown),
            ),
            _ => None,
        },
        WorkerPhase::TearingDown => match event {
            WorkerEvent::TornDown => Some((WorkerPhase::Finished, WorkerAction::Exit)),
            _ => None,
        },
        WorkerPhase::Finished => None,
    }
}

} // verus!
