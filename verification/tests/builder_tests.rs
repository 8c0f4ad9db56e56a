use libcontainer::builder::{
    BuilderAction, BuilderConfig, BuilderEvent, BuilderStep, ContainerBuilder, ContainerRecord,
    ContainerStatus, ContainerType,
};

fn base_config(kind: ContainerType) -> BuilderConfig {
    BuilderConfig {
        container_type: kind,
        use_systemd: false,
        container_id: "container1".to_string(),
        has_linux: true,
        cgroups_path: None,
        has_process: true,
        oom_score_adj: Some(200),
        has_namespaces: true,
        has_create_runtime_hooks: false,
        rootless: false,
        notify_path: "/run/notify.sock".to_string(),
        pid_file: Some("/run/c1.pid".to_string()),
        creator_uid: 1000,
    }
}

fn base_record() -> ContainerRecord {
    ContainerRecord {
        id: "container1".to_string(),
        status: ContainerStatus::Creating,
        pid: 0,
        creator: 0,
        clean_up_intel_rdt_subdirectory: None,
        root: "/var/lib/cont/container1".to_string(),
    }
}

fn perform(step: BuilderStep) -> BuilderAction {
    match step {
        BuilderStep::Perform(a) => a,
        other => panic!("expected an action, got {:?}", other),
    }
}

#[test]
fn create_happy_path_orders_oom_before_nondumpable() {
    let (mut m, first) = ContainerBuilder::start(base_config(ContainerType::InitContainer), Some(base_record()));
    let mut actions: Vec<BuilderAction> = Vec::new();
    actions.push(perform(first));
    assert!(matches!(actions[0], BuilderAction::CreateCgroupManager { .. }));

    let d = m.step(BuilderEvent::Succeeded); // cgroup manager done
    actions.push(perform(d));
    assert!(matches!(actions[1], BuilderAction::CreateNotifyListener { .. }));

    let d = m.step(BuilderEvent::Succeeded); // notify socket bound
    actions.push(perform(d));
    assert!(matches!(actions[2], BuilderAction::WriteOomScoreAdj { score: 200 }));

    let d = m.step(BuilderEvent::Succeeded); // oom score written
    actions.push(perform(d));
    assert!(matches!(actions[3], BuilderAction::SetNonDumpable));

    let d = m.step(BuilderEvent::Succeeded); // non-dumpable set
    actions.push(perform(d));
    assert!(matches!(actions[4], BuilderAction::SpawnInitProcess));

    let d = m.step(BuilderEvent::InitSpawned { pid: 4242, needs_rdt_cleanup: true });
    actions.push(perform(d));
    match &actions[5] {
        BuilderAction::WritePidFile { path, pid } => {
            assert_eq!(path, "/run/c1.pid");
            assert_eq!(*pid, 4242);
        },
        other => panic!("expected the pid file write, got {:?}", other),
    }

    let d = m.step(BuilderEvent::Succeeded); // pid file written
    actions.push(perform(d));
    match &actions[6] {
        BuilderAction::SaveContainerRecord { record } => {
            assert_eq!(record.id, "container1");
            assert!(matches!(record.status, ContainerStatus::Created));
            assert_eq!(record.pid, 4242);
            assert_eq!(record.creator, 1000);
            assert_eq!(record.clean_up_intel_rdt_subdirectory, Some(true));
            assert_eq!(record.root, "/var/lib/cont/container1");
        },
        other => panic!("expected the record save, got {:?}", other),
    }

    let d = m.step(BuilderEvent::Succeeded); // record saved
    assert!(matches!(d, BuilderStep::Complete { pid: 4242 }));

    // The notify socket was bound before the init spawn, and the oom score
    // write came before setting the process non-dumpable.
    let oom = actions
        .iter()
        .position(|a| matches!(a, BuilderAction::WriteOomScoreAdj { .. }))
        .unwrap();
    let dumpable = actions
        .iter()
        .position(|a| matches!(a, BuilderAction::SetNonDumpable))
        .unwrap();
    let notify = actions
        .iter()
        .position(|a| matches!(a, BuilderAction::CreateNotifyListener { .. }))
        .unwrap();
    let spawn = actions
        .iter()
        .position(|a| matches!(a, BuilderAction::SpawnInitProcess))
        .unwrap();
    assert!(oom < dumpable);
    assert!(notify < spawn);
    // No cleanup action appears in a successful run.
    assert!(!actions.iter().any(|a| matches!(a, BuilderAction::RemoveCgroup { .. })));
}

#[test]
fn init_failure_triggers_cleanup_exactly_once() {
    let (mut m, first) = ContainerBuilder::start(base_config(ContainerType::InitContainer), Some(base_record()));
    let mut actions: Vec<BuilderAction> = Vec::new();
    actions.push(perform(first));
    let d = m.step(BuilderEvent::Succeeded); // cgroup manager
    actions.push(perform(d));
    // binding the notify socket fails
    let d = m.step(BuilderEvent::Failed { message: "address in use".to_string() });
    actions.push(perform(d));
    assert!(matches!(actions[2], BuilderAction::RemoveCgroup { .. }));
    let d = m.step(BuilderEvent::Succeeded); // cgroup removed; record has no rdt flag
    actions.push(perform(d));
    assert!(matches!(actions[3], BuilderAction::CheckStateDir { .. }));
    let d = m.step(BuilderEvent::StateDirStatus { exists: true });
    actions.push(perform(d));
    assert!(matches!(actions[4], BuilderAction::DeleteStateDir { .. }));
    let d = m.step(BuilderEvent::Succeeded);
    match d {
        BuilderStep::Abort(f) => {
            assert_eq!(f.error, "failed to create container: address in use");
            assert_eq!(f.cleanup_error, None);
        },
        other => panic!("expected an abort, got {:?}", other),
    }
    let removals = actions
        .iter()
        .filter(|a| matches!(a, BuilderAction::RemoveCgroup { .. }))
        .count();
    assert_eq!(removals, 1);
}

#[test]
fn tenant_failure_never_triggers_cleanup() {
    let (mut m, first) = ContainerBuilder::start(base_config(ContainerType::TenantContainer), None);
    let _ = perform(first);
    let d = m.step(BuilderEvent::Succeeded); // cgroup manager
    let _ = perform(d);
    let d = m.step(BuilderEvent::Failed { message: "address in use".to_string() });
    match d {
        BuilderStep::Abort(f) => {
            assert_eq!(f.error, "failed to create container: address in use");
            assert_eq!(f.cleanup_error, None);
        },
        other => panic!("expected an immediate abort without cleanup, got {:?}", other),
    }
}

#[test]
fn cleanup_aggregates_errors_in_order() {
    let mut record = base_record();
    record.clean_up_intel_rdt_subdirectory = Some(true);
    let (mut m, first) = ContainerBuilder::start(base_config(ContainerType::InitContainer), Some(record));
    let _ = perform(first);
    let d = m.step(BuilderEvent::Failed { message: "manager broke".to_string() });
    assert!(matches!(d, BuilderStep::Perform(BuilderAction::RemoveCgroup { .. })));
    // cgroup removal fails
    let d = m.step(BuilderEvent::Failed { message: "busy".to_string() });
    assert!(matches!(d, BuilderStep::Perform(BuilderAction::DeleteResctrl { .. })));
    // resctrl deletion succeeds
    let d = m.step(BuilderEvent::Succeeded);
    assert!(matches!(d, BuilderStep::Perform(BuilderAction::CheckStateDir { .. })));
    let d = m.step(BuilderEvent::StateDirStatus { exists: true });
    assert!(matches!(d, BuilderStep::Perform(BuilderAction::DeleteStateDir { .. })));
    // the state directory removal fails too
    let d = m.step(BuilderEvent::Failed { message: "permission denied".to_string() });
    match d {
        BuilderStep::Abort(f) => {
            assert_eq!(f.error, "failed to create container: manager broke");
            let cleanup = f.cleanup_error.expect("cleanup failed, so an aggregate is owed");
            assert_eq!(
                cleanup,
                "failed to cleanup container: failed to remove cgroup;could not delete \"/var/lib/cont/container1\""
            );
            let a = cleanup.find("failed to remove cgroup").unwrap();
            let b = cleanup.find("could not delete").unwrap();
            assert!(a < b);
        },
        other => panic!("expected an abort, got {:?}", other),
    }
}

#[test]
fn missing_linux_section_is_fatal() {
    let mut config = base_config(ContainerType::InitContainer);
    config.has_linux = false;
    let (_m, d) = ContainerBuilder::start(config, Some(base_record()));
    match d {
        BuilderStep::Abort(f) => {
            assert_eq!(f.error, "failed to create container: no linux in spec");
            assert_eq!(f.cleanup_error, Some("no linux in spec".to_string()));
        },
        other => panic!("expected an abort, got {:?}", other),
    }
}

#[test]
fn missing_process_section_is_fatal() {
    let mut config = base_config(ContainerType::TenantContainer);
    config.has_process = false;
    let (mut m, first) = ContainerBuilder::start(config, None);
    let _ = perform(first);
    let d = m.step(BuilderEvent::Succeeded);
    match d {
        BuilderStep::Abort(f) => {
            assert_eq!(f.error, "failed to create container: No process in spec");
        },
        other => panic!("expected an abort, got {:?}", other),
    }
}

#[test]
fn rootless_cgroups_path_uses_user_slice() {
    let mut config = base_config(ContainerType::InitContainer);
    config.rootless = true;
    config.pid_file = None;
    let (_m, d) = ContainerBuilder::start(config, None);
    match d {
        BuilderStep::Perform(BuilderAction::CreateCgroupManager {
            cgroups_path,
            use_systemd,
            container_id,
        }) => {
            assert_eq!(cgroups_path, ":libcontainer:container1");
            assert!(use_systemd);
            assert_eq!(container_id, "container1");
        },
        other => panic!("expected the cgroup manager action, got {:?}", other),
    }
}

#[test]
fn inapplicable_steps_are_skipped() {
    let mut config = base_config(ContainerType::TenantContainer);
    config.oom_score_adj = None;
    config.has_namespaces = false;
    config.pid_file = None;
    let (mut m, first) = ContainerBuilder::start(config, None);
    let _ = perform(first);
    let d = m.step(BuilderEvent::Succeeded); // manager
    assert!(matches!(d, BuilderStep::Perform(BuilderAction::CreateNotifyListener { .. })));
    let d = m.step(BuilderEvent::Succeeded); // notify; oom and dumpable skipped
    assert!(matches!(d, BuilderStep::Perform(BuilderAction::SpawnInitProcess)));
    let d = m.step(BuilderEvent::InitSpawned { pid: 7, needs_rdt_cleanup: false });
    assert!(matches!(d, BuilderStep::Complete { pid: 7 }));
}
