use lockc::runc::{parse_runc_args, parse_shim_args, ShimContainerAction};
use lockc::ContainerAction;

fn args(a: &[&str]) -> Vec<String> {
    a.iter().map(|s| s.to_string()).collect()
}

#[test]
fn create_with_flags_before_subcommand() {
    let r = parse_runc_args(&args(&["--root", "/run/x", "create", "--bundle", "/b", "abc"]));
    assert_eq!(r.action, ContainerAction::Create);
    assert_eq!(r.container_id.as_deref(), Some("abc"));
    assert_eq!(r.bundle.as_deref(), Some("/b"));
}

#[test]
fn create_flag_orders_agree() {
    let orders = [
        vec!["--root", "/run/x", "--bundle", "/b", "create", "abc"],
        vec!["create", "--root", "/run/x", "--bundle", "/b", "abc"],
        vec!["create", "abc", "--root", "/run/x", "--bundle", "/b"],
        vec!["--bundle", "/b", "create", "abc", "--root", "/run/x"],
    ];
    for o in orders.iter() {
        let r = parse_runc_args(&args(o));
        assert_eq!(r.action, ContainerAction::Create);
        assert_eq!(r.container_id.as_deref(), Some("abc"));
        assert_eq!(r.bundle.as_deref(), Some("/b"));
    }
}

#[test]
fn delete_sets_delete_action() {
    let r = parse_runc_args(&args(&["runc", "--root", "/run/runc", "delete", "ctr1"]));
    assert_eq!(r.action, ContainerAction::Delete);
    assert_eq!(r.container_id.as_deref(), Some("ctr1"));
    assert_eq!(r.bundle, None);
}

#[test]
fn other_subcommands_capture_id_only() {
    for sub in [
        "start", "exec", "kill", "pause", "resume", "run", "state", "update", "checkpoint",
        "restore", "events", "ps",
    ] {
        let r = parse_runc_args(&args(&["runc", "--log", "/l", sub, "--process", "/p.json", "c9"]));
        assert_eq!(r.action, ContainerAction::Other);
        assert_eq!(r.container_id.as_deref(), Some("c9"));
    }
}

#[test]
fn unknown_subcommand_yields_nothing() {
    let r = parse_runc_args(&args(&["runc", "--version"]));
    assert_eq!(r.action, ContainerAction::Other);
    assert_eq!(r.container_id, None);
    let r = parse_runc_args(&args(&["runc", "features", "x"]));
    assert_eq!(r.container_id, None);
}

#[test]
fn empty_arguments() {
    let r = parse_runc_args(&Vec::new());
    assert_eq!(r.action, ContainerAction::Other);
    assert_eq!(r.container_id, None);
    assert_eq!(r.bundle, None);
}

#[test]
fn only_first_bare_token_is_the_id() {
    let r = parse_runc_args(&args(&["runc", "create", "first", "second"]));
    assert_eq!(r.container_id.as_deref(), Some("first"));
}

#[test]
fn skipped_values_are_not_ids() {
    let r = parse_runc_args(&args(&[
        "runc", "--log-format", "json", "--pid-file", "/p", "--console-socket", "/s", "create",
        "id7",
    ]));
    assert_eq!(r.action, ContainerAction::Create);
    assert_eq!(r.container_id.as_deref(), Some("id7"));
}

#[test]
fn shim_delete_with_id() {
    let r = parse_shim_args(&args(&[
        "containerd-shim", "-namespace", "k8s.io", "-address", "/run/c.sock", "-publish-binary",
        "/usr/bin/containerd", "-id", "abc", "-bundle", "/b", "delete",
    ]));
    assert_eq!(r.action, ShimContainerAction::Delete);
    assert_eq!(r.container_id.as_deref(), Some("abc"));
}

#[test]
fn shim_start_is_other() {
    let r = parse_shim_args(&args(&["containerd-shim", "-namespace", "delete", "-id", "abc", "start"]));
    assert_eq!(r.action, ShimContainerAction::Other);
    assert_eq!(r.container_id.as_deref(), Some("abc"));
}
