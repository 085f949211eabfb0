use conflux_node::config::{Configuration, ConfluxConfig, HostContext};
use conflux_node::error::{ErrorKind, NodeError};
use conflux_node::lifecycle::{
    ConfluxNode, DirectoryPlan, JoinOutcome, LifecycleState, StartOutcome,
};
use conflux_node::setup::conversion_failure;
use conflux_node::worker::{worker_step, NodeType, WorkerAction, WorkerEvent, WorkerPhase};

/// What a host would have done to the outside world.
#[derive(Debug, Default)]
struct World {
    directories_created: usize,
    directories_removed: usize,
    constructs: usize,
    teardowns: usize,
    workers_alive: usize,
    log: Vec<&'static str>,
}

fn host_for(dir: &str) -> HostContext {
    HostContext {
        genesis_secrets_path: format!("{}/genesis_secrets.txt", dir),
        genesis_evm_secrets_path: format!("{}/genesis_evm_secrets.txt", dir),
        rpc_apis_recognised: true,
        evm_rpc_apis_recognised: true,
    }
}

/// Plays the part of the host for one start: admission, directory, resolution, worker.
fn start(
    node: &mut ConfluxNode,
    world: &mut World,
    config: &ConfluxConfig,
    factory_ok: bool,
) -> Result<WorkerPhase, NodeError> {
    let plan = node.start_node(config)?;
    let (dir, temp_dir) = match plan {
        DirectoryPlan::Supplied(path) => (path, false),
        DirectoryPlan::Temporary => {
            world.directories_created += 1;
            world.log.push("create directory");
            ("/tmp/auto".to_string(), true)
        }
    };
    let node_type = match config.to_configuration(&dir, &host_for(&dir)) {
        Ok(Configuration::Resolved(raw_conf)) => raw_conf.node_type.unwrap(),
        Ok(Configuration::FromFile(_)) => NodeType::Full,
        Err(cause) => {
            let failure = StartOutcome::SetupFailed(conversion_failure(&cause));
            let verdict = node.conclude_start(failure, temp_dir).unwrap();
            if verdict.release_directory {
                world.directories_removed += 1;
                world.log.push("remove directory");
            }
            assert!(!verdict.abort_worker);
            return Err(verdict.result.unwrap_err());
        }
    };

    world.workers_alive += 1;
    let mut phase = WorkerPhase::Created;
    let mut event = WorkerEvent::Spawned(node_type);
    let outcome = loop {
        let (next, action) = worker_step(phase, event).unwrap();
        phase = next;
        match action {
            WorkerAction::Construct(_) => {
                world.constructs += 1;
                world.log.push("construct");
                event = if factory_ok {
                    WorkerEvent::Constructed
                } else {
                    WorkerEvent::ConstructionFailed("refused".to_string())
                };
            }
            WorkerAction::Report(Ok(())) => {
                let (next, action) = worker_step(phase, WorkerEvent::ReportDelivered).unwrap();
                assert!(matches!(action, WorkerAction::AwaitShutdown));
                phase = next;
                break StartOutcome::Ready;
            }
            WorkerAction::Report(Err(e)) => {
                let (next, action) = worker_step(phase, WorkerEvent::ReportDelivered).unwrap();
                assert!(matches!(action, WorkerAction::Exit));
                phase = next;
                world.workers_alive -= 1;
                break StartOutcome::Failed(e);
            }
            _ => panic!("the context acts out of turn"),
        }
    };

    let verdict = node.conclude_start(outcome, temp_dir).unwrap();
    if verdict.release_directory {
        world.directories_removed += 1;
        world.log.push("remove directory");
    }
    verdict.result.map(|_| phase)
}

/// Plays the part of the host for one stop.
fn stop(node: &mut ConfluxNode, world: &mut World, phase: WorkerPhase) -> Result<(), NodeError> {
    node.stop_node()?;
    let (phase, action) = worker_step(phase, WorkerEvent::ShutdownReceived).unwrap();
    assert!(matches!(action, WorkerAction::Teardown));
    world.teardowns += 1;
    world.log.push("teardown");
    let (phase, action) = worker_step(phase, WorkerEvent::TornDown).unwrap();
    assert!(matches!(action, WorkerAction::Exit));
    assert_eq!(phase, WorkerPhase::Finished);
    world.workers_alive -= 1;
    let verdict = node.conclude_stop(JoinOutcome::Completed).unwrap();
    if verdict.release_directory {
        world.directories_removed += 1;
        world.log.push("remove directory");
    }
    verdict.result
}

#[test]
fn scenario_full_node_in_temporary_directory() {
    let mut config = ConfluxConfig::default();
    config.node_type = Some("full".to_string());
    let mut node = ConfluxNode::new();
    let mut world = World::default();

    let phase = start(&mut node, &mut world, &config, true).unwrap();
    assert_eq!(node.state(), LifecycleState::Running);
    assert_eq!(phase, WorkerPhase::Parked);
    assert_eq!(world.directories_created, 1);
    assert_eq!(world.directories_removed, 0);
    assert_eq!(world.constructs, 1);

    stop(&mut node, &mut world, phase).unwrap();
    assert_eq!(node.state(), LifecycleState::Stopped);
    assert_eq!(world.teardowns, 1);
    assert_eq!(world.directories_removed, 1);
    assert_eq!(world.workers_alive, 0);
    assert_eq!(
        world.log,
        vec!["create directory", "construct", "teardown", "remove directory"]
    );
}

#[test]
fn scenario_bogus_node_type() {
    let mut config = ConfluxConfig::default();
    config.node_type = Some("bogus".to_string());
    let mut node = ConfluxNode::new();
    let mut world = World::default();

    let e = start(&mut node, &mut world, &config, true).unwrap_err();
    assert_eq!(e.kind(), ErrorKind::Configuration);
    assert_eq!(
        e.to_string(),
        "Configuration Error: Failed to convert config: Configuration Error: Unknown node type"
    );
    assert_eq!(node.state(), LifecycleState::Stopped);
    assert_eq!(world.directories_created, world.directories_removed);
    assert_eq!(world.constructs, 0);
    assert_eq!(world.workers_alive, 0);
}

#[test]
fn scenario_two_starts_back_to_back() {
    let config = ConfluxConfig::default();
    let mut node = ConfluxNode::new();
    let mut world = World::default();

    // The first start has been admitted and is waiting for its outcome.
    let plan = node.start_node(&config).unwrap();
    assert!(matches!(plan, DirectoryPlan::Temporary));

    let second = start(&mut node, &mut world, &config, true).unwrap_err();
    assert_eq!(second.kind(), ErrorKind::Runtime);
    assert_eq!(second.message(), "Node is already running");
    assert_eq!(world.directories_created, 0);
    assert_eq!(world.constructs, 0);

    let first = node.conclude_start(StartOutcome::Ready, true).unwrap();
    assert!(first.result.is_ok());
    assert_eq!(node.state(), LifecycleState::Running);
}

#[test]
fn scenario_two_stops_at_once() {
    let config = ConfluxConfig::default();
    let mut node = ConfluxNode::new();
    let mut world = World::default();
    let phase = start(&mut node, &mut world, &config, true).unwrap();

    // Both requests reach the manager before the first has finished.
    assert!(node.stop_node().is_ok());
    let second = node.stop_node().unwrap_err();
    assert_eq!(second.kind(), ErrorKind::Runtime);
    assert_eq!(second.message(), "Node is not running");

    let (phase, _) = worker_step(phase, WorkerEvent::ShutdownReceived).unwrap();
    world.teardowns += 1;
    let (phase, _) = worker_step(phase, WorkerEvent::TornDown).unwrap();
    assert_eq!(phase, WorkerPhase::Finished);
    assert!(worker_step(phase, WorkerEvent::ShutdownReceived).is_none());
    let verdict = node.conclude_stop(JoinOutcome::Completed).unwrap();
    assert!(verdict.result.is_ok());
    assert!(node.conclude_stop(JoinOutcome::Completed).is_none());
    assert_eq!(world.teardowns, 1);
    assert_eq!(node.state(), LifecycleState::Stopped);
}

#[test]
fn scenario_failing_factory_cleans_up() {
    let config = ConfluxConfig::default();
    let mut node = ConfluxNode::new();
    let mut world = World::default();

    let e = start(&mut node, &mut world, &config, false).unwrap_err();
    assert_eq!(e.kind(), ErrorKind::Runtime);
    assert_eq!(e.message(), "Failed to start Full node: refused");
    assert_eq!(node.state(), LifecycleState::Stopped);
    assert_eq!(world.directories_created, 1);
    assert_eq!(world.directories_removed, 1);
    assert_eq!(world.constructs, 1);
    assert_eq!(world.teardowns, 0);
    assert_eq!(world.workers_alive, 0);
}

#[test]
fn scenario_stop_before_start_touches_nothing() {
    let mut node = ConfluxNode::new();
    let mut world = World::default();
    let e = stop(&mut node, &mut world, WorkerPhase::Created).unwrap_err();
    assert_eq!(e.message(), "Node is not running");
    assert!(world.log.is_empty());
    assert_eq!(world.teardowns, 0);
    assert_eq!(world.directories_removed, 0);
}

#[test]
fn scenario_start_stop_twice_constructs_twice() {
    let mut config = ConfluxConfig::default();
    config.conflux_data_dir = Some("/srv/node".to_string());
    let mut node = ConfluxNode::new();
    let mut world = World::default();
    for round in 1..=2 {
        let phase = start(&mut node, &mut world, &config, true).unwrap();
        stop(&mut node, &mut world, phase).unwrap();
        assert_eq!(world.constructs, round);
        assert_eq!(world.teardowns, round);
    }
    assert_eq!(world.directories_created, 0);
    assert_eq!(world.directories_removed, 0);
    assert_eq!(node.state(), LifecycleState::Stopped);
}
