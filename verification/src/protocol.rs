//! What holds of the manager and of the execution context over whole histories of calls
//! and events.

use vstd::prelude::*;
use crate::lifecycle::{Call, LifecycleState, NodeView};
use crate::worker::{worker_next, ActionView, WorkerEvent, WorkerPhase};

verus! {

/// The manager that results from making `calls`, in order, on the manager `from`.
pub open spec fn run_from(from: NodeView, calls: Seq<Call>) -> NodeView
    decreases calls.len(),
{
    if calls.len() == 0 {
        from
    } else {
        run_from(from, calls.drop_last()).after(calls.last())
    }
}

/// The manager that results from making `calls`, in order, on a new manager.
pub open spec fn run(calls: Seq<Call>) -> NodeView {
    run_from(NodeView::initial(), calls)
}

/// The moves the lifecycle allows: around the cycle
/// `Stopped`, `Starting`, `Running`, `Stopping`, `Stopped`, and from `Starting` back to
/// `Stopped`.
pub open spec fn is_move(before: LifecycleState, after: LifecycleState) -> bool {
    ||| before == LifecycleState::Stopped && after == LifecycleState::Starting
    ||| before == LifecycleState::Starting && after == LifecycleState::Running
    ||| before == LifecycleState::Starting && after == LifecycleState::Stopped
    ||| before == LifecycleState::Running && after == LifecycleState::Stopping
    ||| before == LifecycleState::Stopping && after == LifecycleState::Stopped
}

/// Whether `call` reports a start that succeeded.
pub open spec fn reports_ready(call: Call) -> bool {
    call matches Call::ConcludeStart { ready, .. } && ready
}

/// Making `first` and then `second` is making `first + second`.
pub proof fn run_in_two_parts(from: NodeView, first: Seq<Call>, second: Seq<Call>)
    ensures
        run_from(from, first + second) == run_from(run_from(from, first), second),
    decreases second.len(),
{
    if second.len() == 0 {
        assert(first + second =~= first);
    } else {
        run_in_two_parts(from, first, second.drop_last());
        assert((first + second).drop_last() =~= first + second.drop_last());
        assert((first + second).last() == second.last());
    }
}

/// After any history of calls the manager is in the state that the history alone
/// determines, it holds a working directory only while a node runs or is being stopped,
/// and one more call either leaves the state as it is or makes one move of the lifecycle:
/// an admitted call always moves, a call that is not admitted changes nothing.
pub proof fn state_follows_the_calls(calls: Seq<Call>, call: Call)
    ensures
        run(calls).consistent(),
        run(calls.push(call)) == run(calls).after(call),
        run(calls).admits(call) ==> is_move(run(calls).state, run(calls.push(call)).state),
        !run(calls).admits(call) ==> run(calls.push(call)) == run(calls),
    decreases calls.len(),
{
    if calls.len() > 0 {
        state_follows_the_calls(calls.drop_last(), calls.last());
        assert(calls.drop_last().push(calls.last()) =~= calls);
    }
    assert(calls.push(call).drop_last() =~= calls);
}

/// A request to start that directly follows a request to start is rejected, whatever came
/// before, and whatever follows ends as if the second request had never been made.
pub proof fn second_start_changes_nothing(before: Seq<Call>, after: Seq<Call>)
    ensures
        !run(before.push(Call::Start)).admits(Call::Start),
        run(before.push(Call::Start).push(Call::Start) + after) == run(
            before.push(Call::Start) + after,
        ),
{
    let once = before.push(Call::Start);
    state_follows_the_calls(before, Call::Start);
    state_follows_the_calls(once, Call::Start);
    run_in_two_parts(NodeView::initial(), once.push(Call::Start), after);
    run_in_two_parts(NodeView::initial(), once, after);
}

/// As long as no start has succeeded, the manager is `Stopped` or `Starting` and holds no
/// working directory, so a request to stop is rejected and changes nothing.
pub proof fn stop_needs_a_successful_start(calls: Seq<Call>)
    requires
        forall|i: int| 0 <= i < calls.len() ==> !reports_ready(#[trigger] calls[i]),
    ensures
        run(calls).state == LifecycleState::Stopped || run(calls).state
            == LifecycleState::Starting,
        !run(calls).owns_directory,
        !run(calls).admits(Call::Stop),
        run(calls.push(Call::Stop)) == run(calls),
    decreases calls.len(),
{
    if calls.len() > 0 {
        let earlier = calls.drop_last();
        assert forall|i: int| 0 <= i < earlier.len() implies !reports_ready(
            #[trigger] earlier[i],
        ) by {
            assert(earlier[i] == calls[i]);
        }
        stop_needs_a_successful_start(earlier);
        assert(!reports_ready(calls[calls.len() - 1]));
    }
    state_follows_the_calls(calls, Call::Stop);
}

/// A start that fails returns the manager to the state of a new manager: `Stopped`, with
/// no working directory held.
pub proof fn failed_start_leaves_nothing(calls: Seq<Call>, temp_dir: bool)
    requires
        run(calls).state == LifecycleState::Starting,
    ensures
        run(calls.push(Call::ConcludeStart { ready: false, temp_dir })) == NodeView::initial(),
{
    state_follows_the_calls(calls, Call::ConcludeStart { ready: false, temp_dir });
}

/// A start that succeeds and the stop that follows it: the manager passes through
/// `Running` and `Stopping`, holds the working directory throughout, and ends as a new
/// manager.
pub proof fn start_then_stop(calls: Seq<Call>, temp_dir: bool)
    requires
        run(calls).state == LifecycleState::Starting,
    ensures
        ({
            let running = calls.push(Call::ConcludeStart { ready: true, temp_dir });
            let stopping = running.push(Call::Stop);
            &&& run(running) == NodeView { state: LifecycleState::Running, owns_directory: temp_dir }
            &&& run(stopping) == NodeView {
                state: LifecycleState::Stopping,
                owns_directory: temp_dir,
            }
            &&& run(stopping.push(Call::ConcludeStop)) == NodeView::initial()
        }),
{
    let running = calls.push(Call::ConcludeStart { ready: true, temp_dir });
    let stopping = running.push(Call::Stop);
    state_follows_the_calls(calls, Call::ConcludeStart { ready: true, temp_dir });
    state_follows_the_calls(running, Call::Stop);
    state_follows_the_calls(stopping, Call::ConcludeStop);
}

/// The phase of an execution context after `events`, and the actions it was given, in
/// order. An event that does not belong to the phase it arrives in is passed over.
pub open spec fn worker_run(events: Seq<WorkerEvent>) -> (WorkerPhase, Seq<ActionView>)
    decreases events.len(),
{
    if events.len() == 0 {
        (WorkerPhase::Created, Seq::empty())
    } else {
        let (phase, actions) = worker_run(events.drop_last());
        match worker_next(phase, events.last()) {
            Some((next, action)) => (next, actions.push(action)),
            None => (phase, actions),
        }
    }
}

/// The histories of actions that can lead to each phase.
pub open spec fn on_course(phase: WorkerPhase, actions: Seq<ActionView>) -> bool {
    let n = actions.len();
    match phase {
        WorkerPhase::Created => n == 0,
        WorkerPhase::Constructing(kind) => n == 1 && actions[0] == ActionView::Construct(kind),
        WorkerPhase::ReportingSuccess => n == 2 && actions[0] is Construct && actions[1]
            is ReportSuccess,
        WorkerPhase::ReportingFailure => {
            ||| n == 1 && actions[0] is ReportFailure
            ||| n == 2 && actions[0] is Construct && actions[1] is ReportFailure
        },
        WorkerPhase::Parked => n == 3 && actions[0] is Construct && actions[1] is ReportSuccess
            && actions[2] is AwaitShutdown,
        WorkerPhase::TearingDown => {
            ||| n == 3 && actions[0] is Construct && actions[1] is ReportSuccess && actions[2]
                is Teardown
            ||| n == 4 && actions[0] is Construct && actions[1] is ReportSuccess && actions[2]
                is AwaitShutdown && actions[3] is Teardown
        },
        WorkerPhase::Finished => {
            ||| n == 2 && actions[0] is ReportFailure && actions[1] is Exit
            ||| n == 3 && actions[0] is Construct && actions[1] is ReportFailure && actions[2]
                is Exit
            ||| n == 4 && actions[0] is Construct && actions[1] is ReportSuccess && actions[2]
                is Teardown && actions[3] is Exit
            ||| n == 5 && actions[0] is Construct && actions[1] is ReportSuccess && actions[2]
                is AwaitShutdown && actions[3] is Teardown && actions[4] is Exit
        },
    }
}

/// Whatever events arrive, the actions of an execution context follow one of the courses
/// of the protocol.
pub proof fn worker_stays_on_course(events: Seq<WorkerEvent>)
    ensures
        on_course(worker_run(events).0, worker_run(events).1),
    decreases events.len(),
{
    if events.len() > 0 {
        worker_stays_on_course(events.drop_last());
    }
}

/// Whatever events arrive at an execution context:
/// the node is constructed at most once, and before anything else is done;
/// it is torn down at most once, only after it was constructed, and nothing but leaving
/// follows the teardown;
/// the context waits for the shutdown signal only directly after it reported success;
/// and a context that reported success and has finished did construct the node once and
/// tear it down once, in that order.
pub proof fn node_is_constructed_and_torn_down_once(events: Seq<WorkerEvent>)
    ensures
        ({
            let (phase, actions) = worker_run(events);
            &&& forall|i: int|
                0 <= i < actions.len() && (#[trigger] actions[i]) is Construct ==> i == 0
            &&& forall|i: int, k: int|
                0 <= i < actions.len() && 0 <= k < actions.len() && (#[trigger] actions[i])
                    is Teardown && (#[trigger] actions[k]) is Teardown ==> i == k
            &&& forall|i: int|
                0 <= i < actions.len() && (#[trigger] actions[i]) is Teardown ==> i > 0
                    && actions[0] is Construct
            &&& forall|i: int, k: int|
                0 <= i < k < actions.len() && (#[trigger] actions[i]) is Teardown ==> (
                #[trigger] actions[k]) is Exit
            &&& forall|i: int|
                0 <= i < actions.len() && (#[trigger] actions[i]) is AwaitShutdown ==> i > 0
                    && actions[i - 1] is ReportSuccess
            &&& (phase == WorkerPhase::Finished && exists|i: int|
                0 <= i < actions.len() && (#[trigger] actions[i]) is ReportSuccess) ==> actions[0]
                is Construct && exists|i: int|
                0 < i < actions.len() && (#[trigger] actions[i]) is Teardown
        }),
{
    worker_stays_on_course(events);
    let (phase, actions) = worker_run(events);
    if phase == WorkerPhase::Finished && actions.len() == 4 {
        assert(actions[2] is Teardown);
    }
    if phase == WorkerPhase::Finished && actions.len() == 5 {
        assert(actions[3] is Teardown);
    }
}

} // verus!
