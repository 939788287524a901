use lockc::watcher::{runc_candidate_paths, BootstrapPoll, WatcherPhase};
use lockc::{
    check_uprobe_ret, container_type_data, plan_event, select_watch_paths, ContainerError,
    ContainerType, DockerWatcher, EventPlan, FanotifyResponse, HandleRuncEventError, HashError,
    PathStatus, ResolveStep, UprobeError, WatcherState,
};

fn args(a: &[&str]) -> Vec<String> {
    a.iter().map(|s| s.to_string()).collect()
}

#[test]
fn plan_runc_create() {
    let p = plan_event("runc", &args(&["runc", "--root", "/r", "create", "--bundle", "/b", "abc"]));
    assert_eq!(
        p,
        Ok(EventPlan::CreateContainer { container_id: "abc".to_string(), bundle: Some("/b".to_string()) })
    );
}

#[test]
fn plan_runc_create_without_id_fails() {
    assert_eq!(plan_event("runc", &args(&["runc", "create"])), Err(HandleRuncEventError::ContainerID));
    assert_eq!(plan_event("runc", &args(&["runc", "delete"])), Err(HandleRuncEventError::ContainerID));
}

#[test]
fn plan_runc_create_with_unhashable_id_fails() {
    let huge: String = std::iter::repeat('\u{10FFFF}').take(4097).collect();
    assert_eq!(
        plan_event("runc", &vec!["create".to_string(), huge]),
        Err(HandleRuncEventError::Hash(HashError::Overflow))
    );
}

#[test]
fn plan_runc_other_and_delete() {
    assert_eq!(
        plan_event("runc", &args(&["runc", "exec", "c1"])),
        Ok(EventPlan::AddProcess { container_id: "c1".to_string() })
    );
    assert_eq!(
        plan_event("runc", &args(&["runc", "delete", "c1"])),
        Ok(EventPlan::DeleteContainer { container_id: "c1".to_string() })
    );
    assert_eq!(plan_event("runc", &args(&["runc", "--version"])), Ok(EventPlan::Nothing));
}

#[test]
fn plan_shim_and_unrelated_programs() {
    assert_eq!(
        plan_event("containerd-shim", &args(&["containerd-shim", "-id", "c2", "delete"])),
        Ok(EventPlan::DeleteContainer { container_id: "c2".to_string() })
    );
    assert_eq!(
        plan_event("containerd-shim", &args(&["containerd-shim", "delete"])),
        Err(HandleRuncEventError::ContainerID)
    );
    assert_eq!(plan_event("bash", &args(&["bash", "create", "x"])), Ok(EventPlan::Nothing));
}

#[test]
fn watcher_waits_for_bootstrap() {
    let mut w = WatcherState::new();
    assert_eq!(w.on_bootstrap(BootstrapPoll::Empty), Ok(()));
    assert_eq!(w.phase, WatcherPhase::AwaitingBootstrap);
    assert_eq!(w.on_bootstrap(BootstrapPoll::Fired), Ok(()));
    assert_eq!(w.phase, WatcherPhase::Running);
    let mut w2 = WatcherState::new();
    assert_eq!(w2.on_bootstrap(BootstrapPoll::Closed), Err(HandleRuncEventError::Bootstrap));
    assert_eq!(w2.phase, WatcherPhase::Stopped);
}

#[test]
fn watcher_survives_a_failed_event() {
    let mut w = WatcherState::new();
    w.on_bootstrap(BootstrapPoll::Fired).unwrap();
    assert!(w.on_poll(1));
    // A malformed bundle degrades; a missing container id fails the event.
    assert_eq!(
        container_type_data(&Err(ContainerError::Json), "/bad", 0),
        ResolveStep::Finished(ContainerType::Unknown, None)
    );
    let failed = plan_event("runc", &args(&["runc", "create"])).map(|_| ());
    assert_eq!(w.on_event(&failed), FanotifyResponse::Allow);
    assert_eq!(w.phase, WatcherPhase::Running);
    // The next well-formed event is still planned and answered.
    let next = plan_event("runc", &args(&["runc", "delete", "abc"]));
    assert_eq!(next, Ok(EventPlan::DeleteContainer { container_id: "abc".to_string() }));
    assert_eq!(w.on_event(&Ok(())), FanotifyResponse::Allow);
    assert_eq!(w.on_event(&Err(HandleRuncEventError::Reply)), FanotifyResponse::Deny);
    assert_eq!(w.phase, WatcherPhase::Running);
    assert!(!w.on_poll(0));
    assert_eq!(w.phase, WatcherPhase::Stopped);
}

#[test]
fn watch_paths_skip_directories_and_non_executables() {
    let paths = runc_candidate_paths();
    assert_eq!(paths.len(), 8);
    assert_eq!(paths[0], "/usr/bin/runc");
    assert_eq!(paths[7], "/host/usr/local/sbin/runc");
    let missing = PathStatus { exists: false, is_dir: false, mode: 0o755 };
    let mut st = vec![missing; 8];
    st[0] = PathStatus { exists: true, is_dir: false, mode: 0o755 };
    st[4] = PathStatus { exists: true, is_dir: true, mode: 0o755 };
    st[5] = PathStatus { exists: true, is_dir: false, mode: 0o644 };
    st[6] = PathStatus { exists: true, is_dir: false, mode: 0o100 };
    let w = select_watch_paths(&paths, &st);
    assert_eq!(w, vec!["/usr/bin/runc".to_string(), "/host/usr/local/bin/runc".to_string()]);
}

#[test]
fn docker_watcher_watches_existing_socket() {
    assert_eq!(DockerWatcher::new(true).watch_path.as_deref(), Some("/var/run/docker.sock"));
    assert_eq!(DockerWatcher::new(false).watch_path, None);
    assert_eq!(DockerWatcher::new(true).handle_event(), FanotifyResponse::Allow);
}

#[test]
fn uprobe_return_codes() {
    assert_eq!(check_uprobe_ret(0), Ok(()));
    assert_eq!(check_uprobe_ret(-11), Err(UprobeError::Call));
    assert_eq!(check_uprobe_ret(-22), Err(UprobeError::BPF));
    assert_eq!(check_uprobe_ret(-1), Err(UprobeError::Unknown));
}
