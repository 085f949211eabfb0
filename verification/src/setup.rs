//! What a start attempt does before the node is constructed: the steps the host takes, in
//! order, and the error each of them ends the attempt with.

use vstd::prelude::*;
use vstd::string::*;
use crate::config::ConfluxConfig;
use crate::error::{ErrorKind, ErrorView, NodeError};
use crate::text::append;

verus! {

/// A step of set-up that the host performs and that may fail.
#[derive(Debug, Clone, Copy, PartialEq, Eq, Structural)]
pub enum SetupStep {
    /// Create a fresh, uniquely named directory for the node.
    CreateTemporaryDirectory,
    /// Make sure the data directory exists.
    CreateDataDirectory,
    /// Make the data directory the working directory of the process.
    EnterDataDirectory,
    /// Initialise logging from the file the configuration names.
    InitLogging,
    /// Resolve the configuration into the node's settings.
    ResolveConfiguration,
}

impl SetupStep {
    /// The kind of error a failure of this step is.
    pub open spec fn failure_kind(self) -> ErrorKind {
        match self {
            SetupStep::CreateTemporaryDirectory => ErrorKind::Initialization,
            SetupStep::CreateDataDirectory => ErrorKind::Initialization,
            SetupStep::EnterDataDirectory => ErrorKind::Initialization,
            SetupStep::InitLogging => ErrorKind::Configuration,
            SetupStep::ResolveConfiguration => ErrorKind::Configuration,
        }
    }

    /// The words that open the message for a failure of this step.
    pub open spec fn heading(self) -> Seq<char> {
        match self {
            SetupStep::CreateTemporaryDirectory => "Failed to create temp directory: "@,
            SetupStep::CreateDataDirectory => "Failed to create data directory: "@,
            SetupStep::EnterDataDirectory => "Failed to set working directory: "@,
            SetupStep::InitLogging => "Failed to initialize logging: "@,
            SetupStep::ResolveConfiguration => "Failed to convert config: "@,
        }
    }

    /// The error that ends the start attempt when this step fails for `reason`.
    pub open spec fn failure_spec(self, reason: Seq<char>) -> ErrorView {
        ErrorView { kind: self.failure_kind(), message: self.heading() + reason }
    }

    /// Builds the error that ends the start attempt when this step fails for `reason`.
    pub fn failure(self, reason: &str) -> (e: NodeError)
        ensures
            e@ == self.failure_spec(reason@),
    {
        match self {
            SetupStep::CreateTemporaryDirectory => NodeError::Initialization(
                append("Failed to create temp directory: ", reason),
            ),
            SetupStep::CreateDataDirectory => NodeError::Initialization(
                append("Failed to create data directory: ", reason),
            ),
            SetupStep::EnterDataDirectory => NodeError::Initialization(
                append("Failed to set working directory: ", reason),
            ),
            SetupStep::InitLogging => NodeError::Configuration(
                append("Failed to initialize logging: ", reason),
            ),
            SetupStep::ResolveConfiguration => NodeError::Configuration(
                append("Failed to convert config: ", reason),
            ),
        }
    }
}

/// The error for a configuration that could not be resolved because of `cause`: a
/// configuration error whose message quotes the rendering of the cause.
pub fn conversion_failure(cause: &NodeError) -> (e: NodeError)
    ensures
        e@ == SetupStep::ResolveConfiguration.failure_spec(cause.rendered()),
{
    let rendering = cause.to_string();
    SetupStep::ResolveConfiguration.failure(rendering.as_str())
}

/// The steps of set-up for `config`, in the order in which they are taken.
pub open spec fn setup_steps(config: &ConfluxConfig) -> Seq<SetupStep> {
    let provision = if config.conflux_data_dir is None {
        seq![SetupStep::CreateTemporaryDirectory]
    } else {
        seq![]
    };
    let logging = if config.log_conf is Some {
        seq![SetupStep::InitLogging]
    } else {
        seq![]
    };
    provision + seq![SetupStep::CreateDataDirectory, SetupStep::EnterDataDirectory] + logging
        + seq![SetupStep::ResolveConfiguration]
}

/// Plans the set-up of a start attempt.
///
/// A temporary directory is created only where the caller named no data directory. The
/// data directory exists and is the working directory before logging is initialised and
/// the configuration is resolved, both of which read relative paths. Logging is
/// initialised only where the configuration names a logging file. The host takes the steps
/// in order and stops at the first that fails.
pub fn setup_configuration(config: &ConfluxConfig) -> (steps: Vec<SetupStep>)
    ensures
        steps@ == setup_steps(config),
{
    let mut steps: Vec<SetupStep> = Vec::new();
    if config.conflux_data_dir.is_none() {
        steps.push(SetupStep::CreateTemporaryDirectory);
    }
    steps.push(SetupStep::CreateDataDirectory);
    steps.push(SetupStep::EnterDataDirectory);
    if config.log_conf.is_some() {
        steps.push(SetupStep::InitLogging);
    }
    steps.push(SetupStep::ResolveConfiguration);
    assert(steps@ =~= setup_steps(config));
    steps
}

} // verus!
