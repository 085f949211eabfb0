use conflux_node::config::ConfluxConfig;
use conflux_node::error::{ErrorKind, NodeError};
use conflux_node::lifecycle::{
    prepare_data_directory, ConfluxNode, DirectoryPlan, JoinOutcome, LifecycleState, NodeLifecycle,
    StartOutcome,
};

fn config_with_dir(dir: Option<&str>) -> ConfluxConfig {
    let mut config = ConfluxConfig::default();
    config.conflux_data_dir = dir.map(|d| d.to_string());
    config
}

fn running_node(temp_dir: bool) -> ConfluxNode {
    let mut node = ConfluxNode::new();
    node.start_node(&config_with_dir(None)).unwrap();
    let verdict = node.conclude_start(StartOutcome::Ready, temp_dir).unwrap();
    assert!(verdict.result.is_ok());
    node
}

#[test]
fn new_manager_is_stopped() {
    let node = ConfluxNode::new();
    assert_eq!(node.state(), LifecycleState::Stopped);
}

#[test]
fn start_without_data_dir_plans_temporary_directory() {
    let mut node = ConfluxNode::new();
    let plan = node.start_node(&config_with_dir(None)).unwrap();
    assert!(matches!(plan, DirectoryPlan::Temporary));
    assert_eq!(node.state(), LifecycleState::Starting);
}

#[test]
fn start_with_data_dir_plans_supplied_directory() {
    let mut node = ConfluxNode::new();
    let plan = node.start_node(&config_with_dir(Some("/var/node"))).unwrap();
    match plan {
        DirectoryPlan::Supplied(path) => assert_eq!(path, "/var/node"),
        DirectoryPlan::Temporary => panic!("a supplied directory must be used"),
    }
}

#[test]
fn prepare_data_directory_follows_the_configuration() {
    assert!(matches!(prepare_data_directory(&config_with_dir(None)), DirectoryPlan::Temporary));
    match prepare_data_directory(&config_with_dir(Some("data"))) {
        DirectoryPlan::Supplied(path) => assert_eq!(path, "data"),
        DirectoryPlan::Temporary => panic!("a supplied directory must be used"),
    }
}

#[test]
fn full_node_starts_and_stops() {
    let mut config = config_with_dir(None);
    config.node_type = Some("full".to_string());
    let mut node = ConfluxNode::new();

    let plan = node.start_node(&config).unwrap();
    assert!(matches!(plan, DirectoryPlan::Temporary));
    let started = node.conclude_start(StartOutcome::Ready, true).unwrap();
    assert!(started.result.is_ok());
    assert!(!started.abort_worker);
    assert!(!started.release_directory);
    assert_eq!(node.state(), LifecycleState::Running);

    assert!(node.stop_node().is_ok());
    assert_eq!(node.state(), LifecycleState::Stopping);
    let stopped = node.conclude_stop(JoinOutcome::Completed).unwrap();
    assert!(stopped.result.is_ok());
    assert!(stopped.release_directory);
    assert_eq!(node.state(), LifecycleState::Stopped);
}

#[test]
fn supplied_directory_is_never_released() {
    let mut node = ConfluxNode::new();
    node.start_node(&config_with_dir(Some("/var/node"))).unwrap();
    node.conclude_start(StartOutcome::Ready, false).unwrap();
    node.stop_node().unwrap();
    let stopped = node.conclude_stop(JoinOutcome::Completed).unwrap();
    assert!(!stopped.release_directory);
}

#[test]
fn second_start_while_starting_is_rejected() {
    let mut node = ConfluxNode::new();
    node.start_node(&config_with_dir(None)).unwrap();
    let second = node.start_node(&config_with_dir(None)).unwrap_err();
    assert_eq!(second.kind(), ErrorKind::Runtime);
    assert_eq!(second.message(), "Node is already running");
    assert_eq!(node.state(), LifecycleState::Starting);

    let first = node.conclude_start(StartOutcome::Ready, true).unwrap();
    assert!(first.result.is_ok());
    assert_eq!(node.state(), LifecycleState::Running);
}

#[test]
fn start_while_running_or_stopping_is_rejected() {
    let mut node = running_node(false);
    let e = node.start_node(&config_with_dir(None)).unwrap_err();
    assert_eq!(e.to_string(), "Runtime Error: Node is already running");
    assert_eq!(node.state(), LifecycleState::Running);

    node.stop_node().unwrap();
    let e = node.start_node(&config_with_dir(None)).unwrap_err();
    assert_eq!(e.message(), "Node is already running");
    assert_eq!(node.state(), LifecycleState::Stopping);
}

#[test]
fn stop_before_start_is_rejected() {
    let mut node = ConfluxNode::new();
    let e = node.stop_node().unwrap_err();
    assert_eq!(e.kind(), ErrorKind::Runtime);
    assert_eq!(e.message(), "Node is not running");
    assert_eq!(node.state(), LifecycleState::Stopped);
    assert!(node.conclude_stop(JoinOutcome::Completed).is_none());
}

#[test]
fn stop_while_starting_is_rejected() {
    let mut node = ConfluxNode::new();
    node.start_node(&config_with_dir(None)).unwrap();
    let e = node.stop_node().unwrap_err();
    assert_eq!(e.message(), "Node is not running");
    assert_eq!(node.state(), LifecycleState::Starting);
}

#[test]
fn stop_after_failed_start_is_rejected() {
    let mut node = ConfluxNode::new();
    node.start_node(&config_with_dir(None)).unwrap();
    node.conclude_start(StartOutcome::ChannelClosed, false).unwrap();
    assert!(node.stop_node().is_err());
    assert_eq!(node.state(), LifecycleState::Stopped);
}

#[test]
fn second_stop_is_rejected() {
    let mut node = running_node(true);
    assert!(node.stop_node().is_ok());
    let second = node.stop_node().unwrap_err();
    assert_eq!(second.message(), "Node is not running");
    assert_eq!(node.state(), LifecycleState::Stopping);

    let stopped = node.conclude_stop(JoinOutcome::Completed).unwrap();
    assert!(stopped.result.is_ok());
    assert!(node.conclude_stop(JoinOutcome::Completed).is_none());
    assert!(node.stop_node().is_err());
    assert_eq!(node.state(), LifecycleState::Stopped);
}

#[test]
fn failing_factory_returns_to_stopped_and_releases_directory() {
    let mut node = ConfluxNode::new();
    node.start_node(&config_with_dir(None)).unwrap();
    let failure = NodeError::Runtime("Failed to start Full node: port in use".to_string());
    let verdict = node.conclude_start(StartOutcome::Failed(failure), true).unwrap();
    let e = verdict.result.unwrap_err();
    assert_eq!(e.kind(), ErrorKind::Runtime);
    assert_eq!(e.message(), "Failed to start Full node: port in use");
    assert!(verdict.abort_worker);
    assert!(verdict.release_directory);
    assert_eq!(node.state(), LifecycleState::Stopped);
}

#[test]
fn failed_setup_aborts_no_worker() {
    let mut node = ConfluxNode::new();
    node.start_node(&config_with_dir(None)).unwrap();
    let failure = NodeError::Configuration("Failed to convert config: x".to_string());
    let verdict = node.conclude_start(StartOutcome::SetupFailed(failure), true).unwrap();
    assert_eq!(verdict.result.unwrap_err().kind(), ErrorKind::Configuration);
    assert!(!verdict.abort_worker);
    assert!(verdict.release_directory);
    assert_eq!(node.state(), LifecycleState::Stopped);
}

#[test]
fn closed_startup_channel_is_a_runtime_error() {
    let mut node = ConfluxNode::new();
    node.start_node(&config_with_dir(Some("/d"))).unwrap();
    let verdict = node.conclude_start(StartOutcome::ChannelClosed, false).unwrap();
    let e = verdict.result.unwrap_err();
    assert_eq!(e.kind(), ErrorKind::Runtime);
    assert_eq!(e.message(), "Node startup communication failed");
    assert!(verdict.abort_worker);
    assert!(!verdict.release_directory);
    assert_eq!(node.state(), LifecycleState::Stopped);
}

#[test]
fn conclude_start_needs_a_start_in_progress() {
    let mut node = ConfluxNode::new();
    assert!(node.conclude_start(StartOutcome::Ready, true).is_none());
    assert_eq!(node.state(), LifecycleState::Stopped);

    let mut node = running_node(true);
    assert!(node.conclude_start(StartOutcome::ChannelClosed, true).is_none());
    assert_eq!(node.state(), LifecycleState::Running);
}

#[test]
fn restart_after_failure_and_after_stop() {
    let mut node = ConfluxNode::new();
    node.start_node(&config_with_dir(None)).unwrap();
    node.conclude_start(StartOutcome::ChannelClosed, true).unwrap();
    assert!(node.start_node(&config_with_dir(None)).is_ok());
    node.conclude_start(StartOutcome::Ready, false).unwrap();
    node.stop_node().unwrap();
    node.conclude_stop(JoinOutcome::Cancelled).unwrap();
    assert!(node.start_node(&config_with_dir(None)).is_ok());
    assert_eq!(node.state(), LifecycleState::Starting);
}

#[test]
fn panicked_worker_still_ends_stopped() {
    let mut node = running_node(true);
    node.stop_node().unwrap();
    let verdict = node.conclude_stop(JoinOutcome::Panicked).unwrap();
    let e = verdict.result.unwrap_err();
    assert_eq!(e.kind(), ErrorKind::Shutdown);
    assert_eq!(e.message(), "Node thread panicked");
    assert!(verdict.release_directory);
    assert_eq!(node.state(), LifecycleState::Stopped);
}

#[test]
fn shutdown_maps_each_join_outcome() {
    assert!(NodeLifecycle::new(false).shutdown(JoinOutcome::Completed).result.is_ok());
    assert!(NodeLifecycle::new(false).shutdown(JoinOutcome::Cancelled).result.is_ok());

    let verdict = NodeLifecycle::new(true).shutdown(JoinOutcome::Failed("gone".to_string()));
    let e = verdict.result.unwrap_err();
    assert_eq!(e.to_string(), "Shutdown Error: Failed to wait for node thread: gone");
    assert!(verdict.release_directory);

    let verdict = NodeLifecycle::new(false).shutdown(JoinOutcome::Panicked);
    assert_eq!(verdict.result.unwrap_err().to_string(), "Shutdown Error: Node thread panicked");
    assert!(!verdict.release_directory);
}

#[test]
fn state_follows_every_history_of_three_calls() {
    // 0: start, 1: start succeeded, 2: start failed, 3: stop, 4: stop concluded
    for a in 0..5u8 {
        for b in 0..5u8 {
            for c in 0..5u8 {
                let mut node = ConfluxNode::new();
                let mut expected = LifecycleState::Stopped;
                for call in [a, b, c] {
                    let before = expected;
                    match call {
                        0 => {
                            let r = node.start_node(&config_with_dir(None));
                            assert_eq!(r.is_ok(), before == LifecycleState::Stopped);
                            if r.is_ok() {
                                expected = LifecycleState::Starting;
                            }
                        }
                        1 => {
                            let r = node.conclude_start(StartOutcome::Ready, true);
                            assert_eq!(r.is_some(), before == LifecycleState::Starting);
                            if r.is_some() {
                                expected = LifecycleState::Running;
                            }
                        }
                        2 => {
                            let r = node.conclude_start(StartOutcome::ChannelClosed, true);
                            assert_eq!(r.is_some(), before == LifecycleState::Starting);
                            if r.is_some() {
                                expected = LifecycleState::Stopped;
                            }
                        }
                        3 => {
                            let r = node.stop_node();
                            assert_eq!(r.is_ok(), before == LifecycleState::Running);
                            if r.is_ok() {
                                expected = LifecycleState::Stopping;
                            }
                        }
                        _ => {
                            let r = node.conclude_stop(JoinOutcome::Completed);
                            assert_eq!(r.is_some(), before == LifecycleState::Stopping);
                            if r.is_some() {
                                expected = LifecycleState::Stopped;
                            }
                        }
                    }
                    assert_eq!(node.state(), expected);
                }
            }
        }
    }
}
