use vstd::prelude::*;

use crate::text::str_eq;

verus! {

/// Namespace label that carries the enforced pod security level.
pub const LABEL_POLICY_ENFORCE: &'static str = "pod-security.kubernetes.io/enforce";

/// Container label of the classic engine that carries the policy level.
pub const LABEL_POLICY_DOCKER: &'static str = "org.lockc.policy";

/// Namespace whose containers always run privileged.
pub const NAMESPACE_KUBE_SYSTEM: &'static str = "kube-system";

/// Confinement level of a container, from most to least confined, plus the
/// engine's own pseudo-container and a lookup miss.
#[derive(Debug, Clone, Copy, PartialEq, Eq, Structural)]
pub enum ContainerPolicyLevel {
    /// Lookup miss: no container is registered for the key.
    NotFound,
    /// The policy engine itself, never restricted.
    Lockc,
    Restricted,
    Baseline,
    Privileged,
}

impl ContainerPolicyLevel {
    /// The value that stands for the level in the kernel tables.
    pub open spec fn spec_kernel_code(self) -> int {
        match self {
            ContainerPolicyLevel::NotFound => -1,
            ContainerPolicyLevel::Lockc => 0,
            ContainerPolicyLevel::Restricted => 1,
            ContainerPolicyLevel::Baseline => 2,
            ContainerPolicyLevel::Privileged => 3,
        }
    }

    /// Encodes the level for the kernel tables.
    pub fn kernel_code(self) -> (r: i32)
        ensures
            r == self.spec_kernel_code(),
    {
        match self {
            ContainerPolicyLevel::NotFound => -1,
            ContainerPolicyLevel::Lockc => 0,
            ContainerPolicyLevel::Restricted => 1,
            ContainerPolicyLevel::Baseline => 2,
            ContainerPolicyLevel::Privileged => 3,
        }
    }
}

/// Level named by a policy label value; unknown values and an absent label
/// give `Baseline`.
pub open spec fn spec_policy_from_label(label: Option<Seq<char>>) -> ContainerPolicyLevel {
    match label {
        Some(l) => if l == "restricted"@ {
            ContainerPolicyLevel::Restricted
        } else if l == "baseline"@ {
            ContainerPolicyLevel::Baseline
        } else if l == "privileged"@ {
            ContainerPolicyLevel::Privileged
        } else {
            ContainerPolicyLevel::Baseline
        },
        None => ContainerPolicyLevel::Baseline,
    }
}

/// Policy of an orchestrated container from its namespace and that
/// namespace's enforcement label.
pub open spec fn spec_policy_kubernetes(
    namespace: Seq<char>,
    label: Option<Seq<char>>,
) -> ContainerPolicyLevel {
    if namespace == NAMESPACE_KUBE_SYSTEM@ {
        ContainerPolicyLevel::Privileged
    } else {
        spec_policy_from_label(label)
    }
}

pub open spec fn opt_view(o: Option<&str>) -> Option<Seq<char>> {
    match o {
        Some(s) => Some(s@),
        None => None,
    }
}

/// Maps a policy label value to a level.
pub fn policy_from_label(label: Option<&str>) -> (r: ContainerPolicyLevel)
    ensures
        r == spec_policy_from_label(opt_view(label)),
{
    match label {
        Some(l) => if str_eq(l, "restricted") {
            ContainerPolicyLevel::Restricted
        } else if str_eq(l, "baseline") {
            ContainerPolicyLevel::Baseline
        } else if str_eq(l, "privileged") {
            ContainerPolicyLevel::Privileged
        } else {
            ContainerPolicyLevel::Baseline
        },
        None => ContainerPolicyLevel::Baseline,
    }
}

/// The level that a namespace has without asking the orchestration API:
/// `Privileged` for the system namespace, `None` for every other one.
pub fn policy_kubernetes_preset(namespace: &str) -> (r: Option<ContainerPolicyLevel>)
    ensures
        r == (if namespace@ == NAMESPACE_KUBE_SYSTEM@ {
            Some(ContainerPolicyLevel::Privileged)
        } else {
            None
        }),
{
    if str_eq(namespace, NAMESPACE_KUBE_SYSTEM) {
        Some(ContainerPolicyLevel::Privileged)
    } else {
        None
    }
}

/// Policy of an orchestrated container. The system namespace is always
/// privileged; otherwise the namespace's enforcement label decides.
pub fn policy_kubernetes(namespace: &str, enforce_label: Option<&str>) -> (r:
    ContainerPolicyLevel)
    ensures
        r == spec_policy_kubernetes(namespace@, opt_view(enforce_label)),
{
    match policy_kubernetes_preset(namespace) {
        Some(p) => p,
        None => policy_from_label(enforce_label),
    }
}

/// Policy of a classic-engine container from its policy label.
pub fn policy_docker(policy_label: Option<&str>) -> (r: ContainerPolicyLevel)
    ensures
        r == spec_policy_from_label(opt_view(policy_label)),
{
    policy_from_label(policy_label)
}

/// The system namespace is privileged whatever label it carries, and any
/// other namespace without an enforcement label is baseline.
pub proof fn lemma_kubernetes_defaults(namespace: Seq<char>, label: Option<Seq<char>>)
    ensures
        namespace == NAMESPACE_KUBE_SYSTEM@ ==> spec_policy_kubernetes(namespace, label)
            == ContainerPolicyLevel::Privileged,
        namespace != NAMESPACE_KUBE_SYSTEM@ ==> spec_policy_kubernetes(namespace, None)
            == ContainerPolicyLevel::Baseline,
{
}

} // verus!
