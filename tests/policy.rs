use lockc::{policy_docker, policy_from_label, policy_kubernetes, policy_kubernetes_preset, ContainerPolicyLevel};

#[test]
fn classic_label_restricted() {
    assert_eq!(policy_docker(Some("restricted")), ContainerPolicyLevel::Restricted);
}

#[test]
fn label_mapping() {
    assert_eq!(policy_from_label(Some("baseline")), ContainerPolicyLevel::Baseline);
    assert_eq!(policy_from_label(Some("privileged")), ContainerPolicyLevel::Privileged);
    assert_eq!(policy_from_label(Some("Restricted")), ContainerPolicyLevel::Baseline);
    assert_eq!(policy_from_label(Some("")), ContainerPolicyLevel::Baseline);
    assert_eq!(policy_from_label(None), ContainerPolicyLevel::Baseline);
}

#[test]
fn kube_system_is_privileged_whatever_the_label() {
    assert_eq!(policy_kubernetes("kube-system", Some("restricted")), ContainerPolicyLevel::Privileged);
    assert_eq!(policy_kubernetes("kube-system", None), ContainerPolicyLevel::Privileged);
    assert_eq!(policy_kubernetes_preset("kube-system"), Some(ContainerPolicyLevel::Privileged));
}

#[test]
fn namespace_without_label_is_baseline() {
    assert_eq!(policy_kubernetes("default", None), ContainerPolicyLevel::Baseline);
    assert_eq!(policy_kubernetes("default", Some("restricted")), ContainerPolicyLevel::Restricted);
    assert_eq!(policy_kubernetes_preset("default"), None);
}
