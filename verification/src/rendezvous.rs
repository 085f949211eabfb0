//! The two one-shot signals between the caller and the execution context, read into the
//! outcomes that the manager decides on.
//!
//! The startup signal carries the factory's outcome to the caller of `start`; what the
//! caller receives is read by [`startup_outcome`]. The shutdown signal ends with the
//! caller waiting for the execution context to finish; how that wait ended is read by
//! [`join_outcome`].

use vstd::prelude::*;
use napi::tokio::sync::oneshot::error::RecvError;
use napi::tokio::task::JoinError;
use crate::error::NodeError;
use crate::lifecycle::{JoinOutcome, StartOutcome};

verus! {

/// `tokio`'s error for a one-shot channel whose sender was dropped without sending.
#[verifier::external_type_specification]
#[verifier::external_body]
pub struct ExRecvError(napi::tokio::sync::oneshot::error::RecvError);

/// `tokio`'s error for a task that did not run to completion.
#[verifier::external_type_specification]
#[verifier::external_body]
pub struct ExJoinError(napi::tokio::task::JoinError);

/// Whether `JoinError::is_cancelled` holds of an error: the task ended because it was
/// cancelled.
pub uninterp spec fn join_error_cancelled(error: JoinError) -> bool;

/// Whether `JoinError::is_panic` holds of an error: the task ended in a panic.
pub uninterp spec fn join_error_panicked(error: JoinError) -> bool;

/// The text that the `Display` of `JoinError` gives for an error.
pub uninterp spec fn join_error_rendering(error: JoinError) -> Seq<char>;

/// Calls `JoinError::is_cancelled`. The answer depends on the error alone, and the
/// contract gives it its name; it claims nothing of which errors are cancellations.
#[verifier::external_body]
fn was_cancelled(error: &JoinError) -> (cancelled: bool)
    ensures
        cancelled == join_error_cancelled(*error),
{
    error.is_cancelled()
}

/// Calls `JoinError::is_panic`. The answer depends on the error alone, and the contract
/// gives it its name; it claims nothing of which errors are panics.
#[verifier::external_body]
fn was_panic(error: &JoinError) -> (panicked: bool)
    ensures
        panicked == join_error_panicked(*error),
{
    error.is_panic()
}

/// Renders a `JoinError` through its `Display`. The text depends on the error alone, and
/// the contract gives it its name; it claims nothing of what the text says.
#[verifier::external_body]
fn join_error_text(error: &JoinError) -> (text: String)
    ensures
        text@ == join_error_rendering(*error),
{
    error.to_string()
}

/// The outcome that a wait for the execution context is read as: completed where the
/// context returned; else cancelled where the error is a cancellation, panicked where it
/// is a panic, and failed with the error's text in every other case.
pub open spec fn join_reading(joined: Result<(), JoinError>, outcome: JoinOutcome) -> bool {
    match joined {
        Ok(_) => outcome is Completed,
        Err(error) => if join_error_cancelled(error) {
            outcome is Cancelled
        } else if join_error_panicked(error) {
            outcome is Panicked
        } else {
            outcome matches JoinOutcome::Failed(text) && text@ == join_error_rendering(error)
        },
    }
}

/// Reads what the caller of `start` received on the startup signal.
///
/// A value is the outcome the execution context reported; a channel that closed without
/// a value means the context is gone.
pub fn startup_outcome(received: Result<Result<(), NodeError>, RecvError>) -> (outcome:
    StartOutcome)
    ensures
        match received {
            Ok(Ok(_)) => outcome is Ready,
            Ok(Err(e)) => outcome == StartOutcome::Failed(e),
            Err(_) => outcome is ChannelClosed,
        },
{
    match received {
        Ok(Ok(_)) => StartOutcome::Ready,
        Ok(Err(e)) => StartOutcome::Failed(e),
        Err(_) => StartOutcome::ChannelClosed,
    }
}

/// Reads how the wait for the execution context ended.
///
/// A context that returned has completed. For one that did not, the error is asked, in
/// this order, whether it is a cancellation and whether it is a panic; an error that is
/// neither is a failure that carries the error's text.
pub fn join_outcome(joined: Result<(), JoinError>) -> (outcome: JoinOutcome)
    ensures
        join_reading(joined, outcome),
{
    match joined {
        Ok(_) => JoinOutcome::Completed,
        Err(error) => {
            if was_cancelled(&error) {
                JoinOutcome::Cancelled
            } else if was_panic(&error) {
                JoinOutcome::Panicked
            } else {
                JoinOutcome::Failed(join_error_text(&error))
            }
        },
    }
}

} // verus!
