use lockc::bundle::{ANNOTATION_CONTAINERD_LOG_DIRECTORY, ANNOTATION_CONTAINERD_SANDBOX_ID, MAX_SANDBOX_DEPTH};
use lockc::{
    container_type_data, kubernetes_type, policy_source, ContainerConfig, ContainerError,
    ContainerPolicyLevel, ContainerType, HandleRuncEventError, KubernetesContainerType, Mount,
    PolicySource, ResolveStep,
};

fn mount(source: &str) -> Mount {
    Mount {
        destination: "/etc/hostname".to_string(),
        mount_type: "bind".to_string(),
        source: source.to_string(),
        options: vec!["rbind".to_string()],
    }
}

fn annotated(key: &str, value: &str) -> ContainerConfig {
    ContainerConfig { mounts: vec![], annotations: Some(vec![(key.to_string(), value.to_string())]) }
}

#[test]
fn kubernetes_type_by_annotation() {
    let a = vec![(ANNOTATION_CONTAINERD_LOG_DIRECTORY.to_string(), "/x".to_string())];
    assert_eq!(kubernetes_type(&a), KubernetesContainerType::ContainerdMain);
    let a = vec![(ANNOTATION_CONTAINERD_SANDBOX_ID.to_string(), "s".to_string())];
    assert_eq!(kubernetes_type(&a), KubernetesContainerType::ContainerdPartOfSandbox);
    let a = vec![
        (ANNOTATION_CONTAINERD_SANDBOX_ID.to_string(), "s".to_string()),
        (ANNOTATION_CONTAINERD_LOG_DIRECTORY.to_string(), "/x".to_string()),
    ];
    assert_eq!(kubernetes_type(&a), KubernetesContainerType::ContainerdMain);
    assert_eq!(kubernetes_type(&vec![]), KubernetesContainerType::Unknown);
}

#[test]
fn namespace_from_log_directory() {
    let c = annotated(ANNOTATION_CONTAINERD_LOG_DIRECTORY, "/var/log/pods/default_nginx_0123");
    assert_eq!(
        container_type_data(&Ok(c), "/run/b", 0),
        ResolveStep::Finished(ContainerType::KubernetesContainerd, Some("default".to_string()))
    );
    let c = annotated(ANNOTATION_CONTAINERD_LOG_DIRECTORY, "/var/log/pods/kube-system_etcd_1/");
    assert_eq!(
        container_type_data(&Ok(c), "/run/b", 0),
        ResolveStep::Finished(ContainerType::KubernetesContainerd, Some("kube-system".to_string()))
    );
}

#[test]
fn log_directory_without_file_name_degrades() {
    let c = annotated(ANNOTATION_CONTAINERD_LOG_DIRECTORY, "/");
    assert_eq!(container_type_data(&Ok(c), "/run/b", 0), ResolveStep::Finished(ContainerType::Unknown, None));
}

#[test]
fn sandbox_member_follows_sandbox_bundle() {
    let c = annotated(ANNOTATION_CONTAINERD_SANDBOX_ID, "sbx");
    assert_eq!(
        container_type_data(&Ok(c), "/run/k8s.io/ctr", 0),
        ResolveStep::FollowSandbox("/run/k8s.io/sbx".to_string())
    );
}

#[test]
fn sandbox_recursion_is_bounded() {
    let c = annotated(ANNOTATION_CONTAINERD_SANDBOX_ID, "sbx");
    assert_eq!(
        container_type_data(&Ok(c), "/run/k8s.io/sbx", MAX_SANDBOX_DEPTH),
        ResolveStep::Finished(ContainerType::Unknown, None)
    );
}

#[test]
fn hostname_mount_marks_classic_container() {
    let c = ContainerConfig {
        mounts: vec![mount("/proc"), mount("/var/lib/docker/containers/abc/hostname")],
        annotations: None,
    };
    assert_eq!(
        container_type_data(&Ok(c), "/b", 0),
        ResolveStep::Finished(
            ContainerType::Docker,
            Some("/var/lib/docker/containers/abc/config.v2.json".to_string())
        )
    );
}

#[test]
fn bare_hostname_source_is_not_classic() {
    let c = ContainerConfig { mounts: vec![mount("hostname")], annotations: None };
    assert_eq!(container_type_data(&Ok(c), "/b", 0), ResolveStep::Finished(ContainerType::Unknown, None));
}

#[test]
fn unreadable_config_degrades_to_unknown() {
    assert_eq!(
        container_type_data(&Err(ContainerError::Json), "/b", 0),
        ResolveStep::Finished(ContainerType::Unknown, None)
    );
    assert_eq!(
        container_type_data(&Err(ContainerError::Status), "/b", 0),
        ResolveStep::Finished(ContainerType::Unknown, None)
    );
}

#[test]
fn policy_source_by_type() {
    assert_eq!(policy_source(ContainerType::Unknown, None), Ok(PolicySource::Fixed(ContainerPolicyLevel::Baseline)));
    assert_eq!(
        policy_source(ContainerType::Docker, Some("/c.json".to_string())),
        Ok(PolicySource::DockerConfig("/c.json".to_string()))
    );
    assert_eq!(policy_source(ContainerType::Docker, None), Err(HandleRuncEventError::ContainerData));
    assert_eq!(
        policy_source(ContainerType::KubernetesContainerd, Some("kube-system".to_string())),
        Ok(PolicySource::Fixed(ContainerPolicyLevel::Privileged))
    );
    assert_eq!(
        policy_source(ContainerType::KubernetesContainerd, Some("web".to_string())),
        Ok(PolicySource::KubernetesNamespace("web".to_string()))
    );
    assert_eq!(policy_source(ContainerType::KubernetesContainerd, None), Err(HandleRuncEventError::ContainerData));
}
