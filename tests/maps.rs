use lockc::{hash, Container, ContainerPolicyLevel, EbpfCommand, HashError, MapState, Process};

fn add(id: &str, pid: i32, level: ContainerPolicyLevel) -> EbpfCommand {
    EbpfCommand::AddContainer { container_id: id.to_string(), pid, policy_level: level }
}

#[test]
fn engine_is_preregistered() {
    let m = MapState::new(42);
    assert_eq!(m.policy_of_pid(42), ContainerPolicyLevel::Lockc);
    assert_eq!(m.container_policy(0), Some(Container { policy_level: ContainerPolicyLevel::Lockc }));
    assert_eq!(m.policy_of_pid(7), ContainerPolicyLevel::NotFound);
}

#[test]
fn add_then_delete_round_trip() {
    let mut m = MapState::new(1);
    assert_eq!(m.execute(&add("abc", 100, ContainerPolicyLevel::Restricted)), Ok(()));
    assert_eq!(m.policy_of_pid(100), ContainerPolicyLevel::Restricted);
    assert_eq!(m.process_container(100), Some(Process { container_id: hash("abc").unwrap() }));
    assert_eq!(m.execute(&EbpfCommand::DeleteContainer { container_id: "abc".to_string() }), Ok(()));
    assert_eq!(m.policy_of_pid(100), ContainerPolicyLevel::NotFound);
    assert_eq!(m.process_container(100), None);
    assert_eq!(m.policy_of_pid(1), ContainerPolicyLevel::Lockc);
}

#[test]
fn delete_removes_every_process_of_the_container() {
    let mut m = MapState::new(1);
    m.execute(&add("abc", 100, ContainerPolicyLevel::Baseline)).unwrap();
    m.execute(&add("xyz", 200, ContainerPolicyLevel::Privileged)).unwrap();
    m.execute(&EbpfCommand::AddProcess { container_id: "abc".to_string(), pid: 101 }).unwrap();
    m.execute(&EbpfCommand::AddProcess { container_id: "abc".to_string(), pid: 102 }).unwrap();
    assert_eq!(m.policy_of_pid(102), ContainerPolicyLevel::Baseline);
    m.execute(&EbpfCommand::DeleteContainer { container_id: "abc".to_string() }).unwrap();
    assert_eq!(m.process_container(100), None);
    assert_eq!(m.process_container(101), None);
    assert_eq!(m.process_container(102), None);
    assert_eq!(m.policy_of_pid(200), ContainerPolicyLevel::Privileged);
}

#[test]
fn add_process_without_container_creates_no_record() {
    let mut m = MapState::new(1);
    let key = hash("ghost").unwrap();
    assert_eq!(m.execute(&EbpfCommand::AddProcess { container_id: "ghost".to_string(), pid: 5 }), Ok(()));
    assert_eq!(m.process_container(5), Some(Process { container_id: key }));
    assert_eq!(m.container_policy(key), None);
    assert_eq!(m.policy_of_pid(5), ContainerPolicyLevel::NotFound);
}

#[test]
fn re_adding_updates_level() {
    let mut m = MapState::new(1);
    m.execute(&add("abc", 100, ContainerPolicyLevel::Baseline)).unwrap();
    m.execute(&add("abc", 100, ContainerPolicyLevel::Restricted)).unwrap();
    assert_eq!(m.policy_of_pid(100), ContainerPolicyLevel::Restricted);
}

#[test]
fn delete_of_unknown_container_is_a_no_op() {
    let mut m = MapState::new(1);
    m.execute(&add("abc", 100, ContainerPolicyLevel::Baseline)).unwrap();
    assert_eq!(m.execute(&EbpfCommand::DeleteContainer { container_id: "nope".to_string() }), Ok(()));
    assert_eq!(m.policy_of_pid(100), ContainerPolicyLevel::Baseline);
}

#[test]
fn every_command_gets_one_reply() {
    let mut m = MapState::new(1);
    let huge: String = std::iter::repeat('\u{10FFFF}').take(4097).collect();
    let cmds = vec![
        add("a", 10, ContainerPolicyLevel::Baseline),
        EbpfCommand::AddProcess { container_id: "b".to_string(), pid: 11 },
        EbpfCommand::DeleteContainer { container_id: "a".to_string() },
        add(&huge, 12, ContainerPolicyLevel::Restricted),
        EbpfCommand::AddProcess { container_id: "a".to_string(), pid: 13 },
    ];
    let replies: Vec<Result<(), HashError>> = cmds.iter().map(|c| m.execute(c)).collect();
    assert_eq!(replies.len(), cmds.len());
    assert_eq!(replies[3], Err(HashError::Overflow));
    assert!(replies.iter().enumerate().all(|(i, r)| i == 3 || r.is_ok()));
    assert_eq!(m.policy_of_pid(12), ContainerPolicyLevel::NotFound);
}

#[test]
fn pids_of_container_scans_in_order() {
    let entries = vec![(5, 7u32), (6, 8), (9, 7), (10, 0)];
    assert_eq!(lockc::pids_of_container(&entries, 7), vec![5, 9]);
    assert_eq!(lockc::pids_of_container(&entries, 3), Vec::<i32>::new());
    assert_eq!(lockc::pids_of_container(&Vec::new(), 7), Vec::<i32>::new());
}

#[test]
fn kernel_codes_of_levels() {
    assert_eq!(ContainerPolicyLevel::NotFound.kernel_code(), -1);
    assert_eq!(ContainerPolicyLevel::Lockc.kernel_code(), 0);
    assert_eq!(ContainerPolicyLevel::Restricted.kernel_code(), 1);
    assert_eq!(ContainerPolicyLevel::Baseline.kernel_code(), 2);
    assert_eq!(ContainerPolicyLevel::Privileged.kernel_code(), 3);
}
