//! The lifecycle manager: the running/not-running state of the node and the decisions
//! taken at each transition.
//!
//! The manager is meant to live behind a lock that the host holds only for the length of
//! one call. `start_node` and `stop_node` admit or reject a request; `conclude_start` and
//! `conclude_stop` take what the host observed and say how the attempt ends and what is to
//! be released.

use vstd::prelude::*;
use vstd::string::*;
use crate::config::ConfluxConfig;
use crate::error::{ErrorKind, ErrorView, NodeError};
use crate::text::append;

verus! {

/// The state of the manager as callers observe it.
#[derive(Debug, Clone, Copy, PartialEq, Eq, Structural)]
pub enum LifecycleState {
    Stopped,
    Starting,
    Running,
    Stopping,
}

/// How an attempt to start ended, as the host observed it.
#[derive(Debug)]
pub enum StartOutcome {
    /// The execution context reported a running node.
    Ready,
    /// Set-up failed before any execution context was spawned.
    SetupFailed(NodeError),
    /// The execution context reported that the node could not be constructed.
    Failed(NodeError),
    /// The startup channel closed without a value.
    ChannelClosed,
}

/// How waiting for the execution context ended.
#[derive(Debug)]
pub enum JoinOutcome {
    /// The context returned.
    Completed,
    /// The context was cancelled before it ran.
    Cancelled,
    /// The context panicked.
    Panicked,
    /// Waiting failed for another reason.
    Failed(String),
}

/// The end of a start attempt: what the caller is told and what the host must release.
#[derive(Debug)]
pub struct StartVerdict {
    pub result: Result<(), NodeError>,
    /// The execution context is to be aborted.
    pub abort_worker: bool,
    /// The automatically created working directory is to be removed.
    pub release_directory: bool,
}

/// The end of a stop: what the caller is told and what the host must release.
#[derive(Debug)]
pub struct StopVerdict {
    pub result: Result<(), NodeError>,
    /// The automatically created working directory is to be removed.
    pub release_directory: bool,
}

/// Where the node will keep its data.
#[derive(Debug)]
pub enum DirectoryPlan {
    /// The directory the caller named.
    Supplied(String),
    /// A fresh temporary directory, owned by the manager and removed with the node.
    Temporary,
}

/// The result of an operation as contracts see it.
pub open spec fn outcome_view(r: Result<(), NodeError>) -> Result<(), ErrorView> {
    match r {
        Ok(_) => Ok(()),
        Err(e) => Err(e@),
    }
}

/// The error for a request to start while the manager is not `Stopped`.
pub open spec fn already_running() -> ErrorView {
    ErrorView { kind: ErrorKind::Runtime, message: "Node is already running"@ }
}

/// The error for a request to stop while the manager is not `Running`.
pub open spec fn not_running() -> ErrorView {
    ErrorView { kind: ErrorKind::Runtime, message: "Node is not running"@ }
}

/// What the caller of `start` is told for each outcome.
pub open spec fn start_result(outcome: StartOutcome) -> Result<(), ErrorView> {
    match outcome {
        StartOutcome::Ready => Ok(()),
        StartOutcome::SetupFailed(e) => Err(e@),
        StartOutcome::Failed(e) => Err(e@),
        StartOutcome::ChannelClosed => Err(
            ErrorView { kind: ErrorKind::Runtime, message: "Node startup communication failed"@ },
        ),
    }
}

/// What the caller of `stop` is told for each way the join can end.
pub open spec fn join_result(joined: JoinOutcome) -> Result<(), ErrorView> {
    match joined {
        JoinOutcome::Completed => Ok(()),
        JoinOutcome::Cancelled => Ok(()),
        JoinOutcome::Panicked => Err(
            ErrorView { kind: ErrorKind::Shutdown, message: "Node thread panicked"@ },
        ),
        JoinOutcome::Failed(reason) => Err(
            ErrorView {
                kind: ErrorKind::Shutdown,
                message: "Failed to wait for node thread: "@ + reason@,
            },
        ),
    }
}

/// The calls that move the manager.
pub enum Call {
    Start,
    ConcludeStart { ready: bool, temp_dir: bool },
    Stop,
    ConcludeStop,
}

/// The manager as contracts see it.
pub struct NodeView {
    pub state: LifecycleState,
    /// Whether the manager holds an automatically created working directory.
    pub owns_directory: bool,
}

impl NodeView {
    /// A new manager: `Stopped`, holding nothing.
    pub open spec fn initial() -> NodeView {
        NodeView { state: LifecycleState::Stopped, owns_directory: false }
    }

    /// Whether `call` is legal in this state. An illegal call changes nothing.
    pub open spec fn admits(self, call: Call) -> bool {
        match call {
            Call::Start => self.state == LifecycleState::Stopped,
            Call::ConcludeStart { .. } => self.state == LifecycleState::Starting,
            Call::Stop => self.state == LifecycleState::Running,
            Call::ConcludeStop => self.state == LifecycleState::Stopping,
        }
    }

    /// The manager after `call`.
    pub open spec fn after(self, call: Call) -> NodeView {
        if !self.admits(call) {
            self
        } else {
            match call {
                Call::Start => NodeView { state: LifecycleState::Starting, owns_directory: false },
                Call::ConcludeStart { ready, temp_dir } => if ready {
                    NodeView { state: LifecycleState::Running, owns_directory: temp_dir }
                } else {
                    NodeView { state: LifecycleState::Stopped, owns_directory: false }
                },
                Call::Stop => NodeView { state: LifecycleState::Stopping, ..self },
                Call::ConcludeStop => NodeView {
                    state: LifecycleState::Stopped,
                    owns_directory: false,
                },
            }
        }
    }

    /// A directory is held only while a node runs or is being stopped.
    pub open spec fn consistent(self) -> bool {
        self.owns_directory ==> (self.state == LifecycleState::Running || self.state
            == LifecycleState::Stopping)
    }
}

/// What the manager retains while a node runs.
#[derive(Debug)]
pub struct NodeLifecycle {
    temp_dir: bool,
}

impl NodeLifecycle {
    /// Whether a working directory was created for the node and is held for it.
    pub closed spec fn owns_directory(&self) -> bool {
        self.temp_dir
    }

    /// Records what a successful start leaves behind: whether a working directory was
    /// created for the node.
    pub fn new(temp_dir: bool) -> (lifecycle: NodeLifecycle)
        ensures
            lifecycle.owns_directory() == temp_dir,
    {
        NodeLifecycle { temp_dir }
    }

    /// Decides how a stop ends once the wait for the execution context is over.
    ///
    /// A context that returned or was cancelled is a clean stop. A panic or any other
    /// failure to join is a shutdown error. The working directory, if the manager owns one,
    /// is released in every case, and only now: the node has let go of it.
    pub fn shutdown(self, joined: JoinOutcome) -> (verdict: StopVerdict)
        ensures
            outcome_view(verdict.result) == join_result(joined),
            verdict.release_directory == self.owns_directory(),
    {
        let result = match joined {
            JoinOutcome::Completed => Ok(()),
            JoinOutcome::Cancelled => Ok(()),
            JoinOutcome::Panicked => Err(NodeError::Shutdown("Node thread panicked".to_owned())),
            JoinOutcome::Failed(reason) => Err(
                NodeError::Shutdown(append("Failed to wait for node thread: ", reason.as_str())),
            ),
        };
        StopVerdict { result, release_directory: self.temp_dir }
    }
}

enum Stage {
    Stopped,
    Starting,
    Running(NodeLifecycle),
    Stopping(NodeLifecycle),
}

/// The lifecycle manager of one node.
pub struct ConfluxNode {
    stage: Stage,
}

impl View for ConfluxNode {
    type V = NodeView;

    closed spec fn view(&self) -> NodeView {
        match self.stage {
            Stage::Stopped => NodeView { state: LifecycleState::Stopped, owns_directory: false },
            Stage::Starting => NodeView { state: LifecycleState::Starting, owns_directory: false },
            Stage::Running(l) => NodeView {
                state: LifecycleState::Running,
                owns_directory: l.temp_dir,
            },
            Stage::Stopping(l) => NodeView {
                state: LifecycleState::Stopping,
                owns_directory: l.temp_dir,
            },
        }
    }
}

impl ConfluxNode {
    /// A manager with no node: `Stopped`.
    pub fn new() -> (node: ConfluxNode)
        ensures
            node@ == NodeView::initial(),
    {
        ConfluxNode { stage: Stage::Stopped }
    }

    /// Every manager holds a working directory only while a node runs or is being stopped.
    pub proof fn holds_directory_only_with_node(&self)
        ensures
            self@.consistent(),
    {
    }

    /// The current state.
    pub fn state(&self) -> (state: LifecycleState)
        ensures
            state == self@.state,
    {
        match &self.stage {
            Stage::Stopped => LifecycleState::Stopped,
            Stage::Starting => LifecycleState::Starting,
            Stage::Running(_) => LifecycleState::Running,
            Stage::Stopping(_) => LifecycleState::Stopping,
        }
    }

    /// Admits a request to start.
    ///
    /// In `Stopped` the manager moves to `Starting` and answers with the directory the node
    /// is to use. In any other state the request fails at once and nothing changes.
    pub fn start_node(&mut self, config: &ConfluxConfig) -> (r: Result<DirectoryPlan, NodeError>)
        ensures
            final(self)@ == old(self)@.after(Call::Start),
            old(self)@.admits(Call::Start) ==> r is Ok && directory_plan_matches(
                r->Ok_0,
                config.conflux_data_dir,
            ),
            !old(self)@.admits(Call::Start) ==> r is Err && r->Err_0@ == already_running(),
    {
        match &self.stage {
            Stage::Stopped => {
                self.stage = Stage::Starting;
                Ok(prepare_data_directory(config))
            },
            _ => Err(NodeError::Runtime("Node is already running".to_owned())),
        }
    }

    /// Ends a start attempt with what the host observed.
    ///
    /// `temp_dir` says whether a working directory was created for this attempt. On `Ready`
    /// the manager moves to `Running` and keeps the directory. On every failure it returns to
    /// `Stopped`, hands the error to the caller and has the directory released; an execution
    /// context that was spawned is aborted. Answers `None`, and changes nothing, where no
    /// start is in progress.
    pub fn conclude_start(&mut self, outcome: StartOutcome, temp_dir: bool) -> (verdict: Option<
        StartVerdict,
    >)
        ensures
            final(self)@ == old(self)@.after(
                Call::ConcludeStart { ready: outcome is Ready, temp_dir },
            ),
            verdict is Some <==> old(self)@.state == LifecycleState::Starting,
            verdict matches Some(v) ==> {
                &&& outcome_view(v.result) == start_result(outcome)
                &&& v.release_directory == (temp_dir && !(outcome is Ready))
                &&& v.abort_worker == (outcome is Failed || outcome is ChannelClosed)
            },
    {
        match &self.stage {
            Stage::Starting => {},
            _ => {
                return None;
            },
        }
        match outcome {
            StartOutcome::Ready => {
                self.stage = Stage::Running(NodeLifecycle::new(temp_dir));
                Some(StartVerdict { result: Ok(()), abort_worker: false, release_directory: false })
            },
            StartOutcome::SetupFailed(e) => {
                self.stage = Stage::Stopped;
                Some(
                    StartVerdict {
                        result: Err(e),
                        abort_worker: false,
                        release_directory: temp_dir,
                    },
                )
            },
            StartOutcome::Failed(e) => {
                self.stage = Stage::Stopped;
                Some(
                    StartVerdict { result: Err(e), abort_worker: true, release_directory: temp_dir },
                )
            },
            StartOutcome::ChannelClosed => {
                self.stage = Stage::Stopped;
                Some(
                    StartVerdict {
                        result: Err(
                            NodeError::Runtime("Node startup communication failed".to_owned()),
                        ),
                        abort_worker: true,
                        release_directory: temp_dir,
                    },
                )
            },
        }
    }

    /// Admits a request to stop.
    ///
    /// In `Running` the manager moves to `Stopping`; the host then fires the shutdown signal
    /// and waits for the execution context. In any other state the request fails at once and
    /// nothing changes.
    pub fn stop_node(&mut self) -> (r: Result<(), NodeError>)
        ensures
            final(self)@ == old(self)@.after(Call::Stop),
            old(self)@.admits(Call::Stop) ==> r is Ok,
            !old(self)@.admits(Call::Stop) ==> r is Err && r->Err_0@ == not_running(),
    {
        let running: Option<bool> = match &self.stage {
            Stage::Running(lifecycle) => Some(lifecycle.temp_dir),
            _ => None,
        };
        match running {
            Some(temp_dir) => {
                self.stage = Stage::Stopping(NodeLifecycle { temp_dir });
                Ok(())
            },
            None => Err(NodeError::Runtime("Node is not running".to_owned())),
        }
    }

    /// Ends a stop once the wait for the execution context is over.
    ///
    /// The manager returns to `Stopped` whatever the wait brought. Answers `None`, and
    /// changes nothing, where no stop is in progress.
    pub fn conclude_stop(&mut self, joined: JoinOutcome) -> (verdict: Option<StopVerdict>)
        ensures
            final(self)@ == old(self)@.after(Call::ConcludeStop),
            verdict is Some <==> old(self)@.state == LifecycleState::Stopping,
            verdict matches Some(v) ==> {
                &&& outcome_view(v.result) == join_result(joined)
                &&& v.release_directory == old(self)@.owns_directory
            },
    {
        let stopping: Option<bool> = match &self.stage {
            Stage::Stopping(lifecycle) => Some(lifecycle.temp_dir),
            _ => None,
        };
        match stopping {
            Some(temp_dir) => {
                self.stage = Stage::Stopped;
                Some(NodeLifecycle { temp_dir }.shutdown(joined))
            },
            None => None,
        }
    }
}

/// Whether `plan` is the plan for a configuration with the given data directory.
pub open spec fn directory_plan_matches(plan: DirectoryPlan, data_dir: Option<String>) -> bool {
    match data_dir {
        Some(dir) => plan matches DirectoryPlan::Supplied(path) && path@ == dir@,
        None => plan is Temporary,
    }
}

/// Resolves where the node keeps its data: the directory the caller named, or a
/// temporary one that the host creates and the manager then owns.
pub fn prepare_data_directory(config: &ConfluxConfig) -> (plan: DirectoryPlan)
    ensures
        directory_plan_matches(plan, config.conflux_data_dir),
{
    match &config.conflux_data_dir {
        Some(dir) => DirectoryPlan::Supplied(dir.clone()),
        None => DirectoryPlan::Temporary,
    }
}

} // verus!
