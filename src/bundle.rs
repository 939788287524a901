use vstd::prelude::*;

use crate::errors::{ContainerError, HandleRuncEventError};
use crate::policy::{policy_kubernetes_preset, ContainerPolicyLevel, NAMESPACE_KUBE_SYSTEM};
use crate::runc::opt_string_view;
use crate::text::{ends_with, str_ends_with, str_eq};

verus! {

/// Annotation holding the per-sandbox log directory of a containerd pod.
pub const ANNOTATION_CONTAINERD_LOG_DIRECTORY: &'static str = "io.kubernetes.cri.sandbox-log-directory";

/// Annotation holding the id of the sandbox a container belongs to.
pub const ANNOTATION_CONTAINERD_SANDBOX_ID: &'static str = "io.kubernetes.cri.sandbox-id";

/// How many sandbox bundles are followed before giving up.
pub const MAX_SANDBOX_DEPTH: u32 = 4;

/// What `Path::file_name` gives for a path.
pub uninterp spec fn path_file_name(p: Seq<char>) -> Option<Seq<char>>;

/// What `Path::parent` gives for a path.
pub uninterp spec fn path_parent(p: Seq<char>) -> Option<Seq<char>>;

/// What `Path::join` gives for a base path and a child path.
pub uninterp spec fn path_join(base: Seq<char>, child: Seq<char>) -> Seq<char>;

/// What `str::replace` gives when it replaces every `from` by `to`.
pub uninterp spec fn replace_all(s: Seq<char>, from: Seq<char>, to: Seq<char>) -> Seq<char>;

/// Relies on `Path::file_name`: the final component of a path, if any.
#[verifier::external_body]
fn file_name_of(p: &str) -> (r: Option<String>)
    ensures
        opt_string_view(r) == path_file_name(p@),
{
    std::path::Path::new(p).file_name().and_then(|n| n.to_str()).map(|n| n.to_string())
}

/// Relies on `Path::parent`: the path without its final component, if any.
#[verifier::external_body]
fn parent_of(p: &str) -> (r: Option<String>)
    ensures
        opt_string_view(r) == path_parent(p@),
{
    std::path::Path::new(p).parent().and_then(|n| n.to_str()).map(|n| n.to_string())
}

/// Relies on `Path::join`: `child` appended to `base`.
#[verifier::external_body]
fn join_path(base: &str, child: &str) -> (r: String)
    ensures
        r@ == path_join(base@, child@),
{
    std::path::Path::new(base).join(child).to_string_lossy().into_owned()
}

/// Relies on `str::replace`: every occurrence of `from` replaced by `to`.
#[verifier::external_body]
fn replace_str(s: &str, from: &str, to: &str) -> (r: String)
    ensures
        r@ == replace_all(s@, from@, to@),
{
    s.replace(from, to)
}

/// A mount of the bundle's runtime configuration.
#[derive(Debug, Clone, PartialEq, Eq)]
pub struct Mount {
    pub destination: String,
    pub mount_type: String,
    pub source: String,
    pub options: Vec<String>,
}

/// The parts of a bundle's runtime configuration that decide the policy.
#[derive(Debug, Clone, PartialEq, Eq)]
pub struct ContainerConfig {
    pub mounts: Vec<Mount>,
    pub annotations: Option<Vec<(String, String)>>,
}

/// Type of an orchestrated container, from its annotations.
#[derive(Debug, Clone, Copy, PartialEq, Eq, Structural)]
pub enum KubernetesContainerType {
    /// Main container of a pod, with its own log directory.
    ContainerdMain,
    /// Member of a pod created before, whose sandbox has the log directory.
    ContainerdPartOfSandbox,
    Unknown,
}

/// Type of container by engine.
#[derive(Debug, Clone, Copy, PartialEq, Eq, Structural)]
pub enum ContainerType {
    Docker,
    KubernetesContainerd,
    Unknown,
}

pub open spec fn annotations_view(a: Seq<(String, String)>) -> Seq<(Seq<char>, Seq<char>)> {
    a.map_values(|e: (String, String)| (e.0@, e.1@))
}

/// The value of the first annotation with key `key`.
pub open spec fn annotation(a: Seq<(Seq<char>, Seq<char>)>, key: Seq<char>) -> Option<Seq<char>>
    decreases a.len(),
{
    if a.len() == 0 {
        None
    } else if a[0].0 == key {
        Some(a[0].1)
    } else {
        annotation(a.drop_first(), key)
    }
}

/// Looks up an annotation by key.
pub fn find_annotation(a: &Vec<(String, String)>, key: &str) -> (r: Option<String>)
    ensures
        opt_string_view(r) == annotation(annotations_view(a@), key@),
{
    let mut i: usize = 0;
    proof {
        assert(annotations_view(a@).skip(0) =~= annotations_view(a@));
    }
    while i < a.len()
        invariant
            0 <= i <= a@.len(),
            annotation(annotations_view(a@), key@) == annotation(
                annotations_view(a@).skip(i as int),
                key@,
            ),
        decreases a@.len() - i,
    {
        proof {
            let v = annotations_view(a@).skip(i as int);
            assert(v.drop_first() =~= annotations_view(a@).skip(i as int + 1));
            assert(v[0] == (a@[i as int].0@, a@[i as int].1@));
        }
        if str_eq(a[i].0.as_str(), key) {
            return Some(a[i].1.clone());
        }
        i = i + 1;
    }
    proof {
        assert(annotations_view(a@).skip(i as int) =~= Seq::<(Seq<char>, Seq<char>)>::empty());
    }
    None
}

pub open spec fn spec_kubernetes_type(a: Seq<(Seq<char>, Seq<char>)>) -> KubernetesContainerType {
    if annotation(a, ANNOTATION_CONTAINERD_LOG_DIRECTORY@) is Some {
        KubernetesContainerType::ContainerdMain
    } else if annotation(a, ANNOTATION_CONTAINERD_SANDBOX_ID@) is Some {
        KubernetesContainerType::ContainerdPartOfSandbox
    } else {
        KubernetesContainerType::Unknown
    }
}

/// Type of an orchestrated container: the log directory annotation marks a
/// pod's main container, the sandbox id annotation a member of a pod.
pub fn kubernetes_type(annotations: &Vec<(String, String)>) -> (r: KubernetesContainerType)
    ensures
        r == spec_kubernetes_type(annotations_view(annotations@)),
{
    if find_annotation(annotations, ANNOTATION_CONTAINERD_LOG_DIRECTORY).is_some() {
        KubernetesContainerType::ContainerdMain
    } else if find_annotation(annotations, ANNOTATION_CONTAINERD_SANDBOX_ID).is_some() {
        KubernetesContainerType::ContainerdPartOfSandbox
    } else {
        KubernetesContainerType::Unknown
    }
}

/// The characters of `s` before the first `c`, or all of `s`.
pub open spec fn before_first(s: Seq<char>, c: char) -> Seq<char>
    decreases s.len(),
{
    if s.len() == 0 {
        s
    } else if s[0] == c {
        Seq::empty()
    } else {
        seq![s[0]] + before_first(s.drop_first(), c)
    }
}

proof fn lemma_before_first(s: Seq<char>, c: char, i: int)
    requires
        0 <= i <= s.len(),
        forall|j: int| 0 <= j < i ==> s[j] != c,
        i == s.len() || s[i] == c,
    ensures
        before_first(s, c) == s.take(i),
    decreases s.len(),
{
    if s.len() > 0 && i > 0 {
        lemma_before_first(s.drop_first(), c, i - 1);
        assert(s.take(i) =~= seq![s[0]] + s.drop_first().take(i - 1));
    } else if s.len() > 0 {
        assert(s.take(i) =~= Seq::<char>::empty());
    }
}

/// The first `_`-delimited segment of `s`.
pub fn first_segment(s: &str) -> (r: String)
    ensures
        r@ == before_first(s@, '_'),
{
    let n = s.unicode_len();
    let mut i: usize = 0;
    while i < n && s.get_char(i) != '_'
        invariant
            n == s@.len(),
            0 <= i <= n,
            forall|j: int| 0 <= j < i ==> s@[j] != '_',
        decreases n - i,
    {
        i = i + 1;
    }
    proof {
        lemma_before_first(s@, '_', i as int);
    }
    String::from_str(s.substring_char(0, i))
}

/// A mount of the hostname file marks a classic-engine container.
pub open spec fn is_hostname_mount(source: Seq<char>) -> bool {
    ends_with(source, "/hostname"@)
}

/// Index of the first hostname mount.
pub open spec fn first_hostname_mount(m: Seq<Mount>, from: int) -> Option<int>
    decreases m.len() - from,
{
    if from < 0 || from >= m.len() {
        None
    } else if is_hostname_mount(m[from].source@) {
        Some(from)
    } else {
        first_hostname_mount(m, from + 1)
    }
}

/// Outcome of inspecting one bundle.
#[derive(Debug, Clone, PartialEq, Eq)]
pub enum ResolveStep {
    /// The container type, with its namespace (orchestrated) or engine
    /// config path (classic).
    Finished(ContainerType, Option<String>),
    /// The bundle belongs to a sandbox: inspect the sandbox's bundle next.
    FollowSandbox(String),
}

pub enum ResolveStepView {
    Finished(ContainerType, Option<Seq<char>>),
    FollowSandbox(Seq<char>),
}

impl ResolveStep {
    pub open spec fn view(&self) -> ResolveStepView {
        match self {
            ResolveStep::Finished(t, d) => ResolveStepView::Finished(*t, opt_string_view(*d)),
            ResolveStep::FollowSandbox(b) => ResolveStepView::FollowSandbox(b@),
        }
    }
}

/// Classification by mounts alone: a hostname mount marks a classic
/// container, whose engine config sits beside the hostname file.
pub open spec fn spec_docker_step(m: Seq<Mount>) -> ResolveStepView {
    match first_hostname_mount(m, 0) {
        Some(i) => ResolveStepView::Finished(
            ContainerType::Docker,
            Some(replace_all(m[i].source@, "hostname"@, "config.v2.json"@)),
        ),
        None => ResolveStepView::Finished(ContainerType::Unknown, None),
    }
}

/// What one bundle at sandbox depth `depth` tells of the container.
pub open spec fn spec_resolve_step(
    config: Result<ContainerConfig, ContainerError>,
    bundle: Seq<char>,
    depth: u32,
) -> ResolveStepView {
    match config {
        Err(_) => ResolveStepView::Finished(ContainerType::Unknown, None),
        Ok(c) => match c.annotations {
            Some(a) => {
                let av = annotations_view(a@);
                match spec_kubernetes_type(av) {
                    KubernetesContainerType::ContainerdMain => match path_file_name(
                        annotation(av, ANNOTATION_CONTAINERD_LOG_DIRECTORY@)->Some_0,
                    ) {
                        Some(name) => ResolveStepView::Finished(
                            ContainerType::KubernetesContainerd,
                            Some(before_first(name, '_')),
                        ),
                        None => ResolveStepView::Finished(ContainerType::Unknown, None),
                    },
                    KubernetesContainerType::ContainerdPartOfSandbox => if depth
                        >= MAX_SANDBOX_DEPTH {
                        ResolveStepView::Finished(ContainerType::Unknown, None)
                    } else {
                        match path_parent(bundle) {
                            Some(parent) => ResolveStepView::FollowSandbox(
                                path_join(
                                    parent,
                                    annotation(av, ANNOTATION_CONTAINERD_SANDBOX_ID@)->Some_0,
                                ),
                            ),
                            None => spec_docker_step(c.mounts@),
                        }
                    },
                    KubernetesContainerType::Unknown => spec_docker_step(c.mounts@),
                }
            },
            None => spec_docker_step(c.mounts@),
        },
    }
}

fn docker_step(mounts: &Vec<Mount>) -> (r: ResolveStep)
    ensures
        r@ == spec_docker_step(mounts@),
{
    let mut i: usize = 0;
    while i < mounts.len()
        invariant
            0 <= i <= mounts@.len(),
            first_hostname_mount(mounts@, 0) == first_hostname_mount(mounts@, i as int),
        decreases mounts@.len() - i,
    {
        if str_ends_with(mounts[i].source.as_str(), "/hostname") {
            let config_v2 = replace_str(mounts[i].source.as_str(), "hostname", "config.v2.json");
            return ResolveStep::Finished(ContainerType::Docker, Some(config_v2));
        }
        i = i + 1;
    }
    ResolveStep::Finished(ContainerType::Unknown, None)
}

/// Inspects one bundle's configuration (or the error of reading it) and
/// decides the container type, or that the sandbox's bundle comes next.
/// Unreadable or malformed data gives the unknown type; past
/// `MAX_SANDBOX_DEPTH` sandbox hops the search stops with the unknown type.
pub fn container_type_data(
    config: &Result<ContainerConfig, ContainerError>,
    bundle: &str,
    depth: u32,
) -> (r: ResolveStep)
    ensures
        r@ == spec_resolve_step(*config, bundle@, depth),
{
    let c = match config {
        Ok(c) => c,
        Err(_) => {
            return ResolveStep::Finished(ContainerType::Unknown, None);
        },
    };
    match &c.annotations {
        Some(a) => {
            match kubernetes_type(a) {
                KubernetesContainerType::ContainerdMain => {
                    let log_directory = find_annotation(a, ANNOTATION_CONTAINERD_LOG_DIRECTORY);
                    let log_directory = match log_directory {
                        Some(l) => l,
                        None => {
                            return ResolveStep::Finished(ContainerType::Unknown, None);
                        },
                    };
                    match file_name_of(log_directory.as_str()) {
                        Some(name) => {
                            let namespace = first_segment(name.as_str());
                            return ResolveStep::Finished(
                                ContainerType::KubernetesContainerd,
                                Some(namespace),
                            );
                        },
                        None => {
                            return ResolveStep::Finished(ContainerType::Unknown, None);
                        },
                    }
                },
                KubernetesContainerType::ContainerdPartOfSandbox => {
                    if depth >= MAX_SANDBOX_DEPTH {
                        return ResolveStep::Finished(ContainerType::Unknown, None);
                    }
                    let sandbox_id = find_annotation(a, ANNOTATION_CONTAINERD_SANDBOX_ID);
                    let sandbox_id = match sandbox_id {
                        Some(s) => s,
                        None => {
                            return ResolveStep::Finished(ContainerType::Unknown, None);
                        },
                    };
                    if let Some(parent) = parent_of(bundle) {
                        return ResolveStep::FollowSandbox(
                            join_path(parent.as_str(), sandbox_id.as_str()),
                        );
                    }
                },
                KubernetesContainerType::Unknown => {},
            }
        },
        None => {},
    }
    docker_step(&c.mounts)
}

/// Where the policy of a new container comes from.
#[derive(Debug, Clone, PartialEq, Eq)]
pub enum PolicySource {
    /// Known without reading anything more.
    Fixed(ContainerPolicyLevel),
    /// The policy label of the classic engine's config file at this path.
    DockerConfig(String),
    /// The enforcement label of this namespace, from the orchestration API.
    KubernetesNamespace(String),
}

pub enum PolicySourceView {
    Fixed(ContainerPolicyLevel),
    DockerConfig(Seq<char>),
    KubernetesNamespace(Seq<char>),
}

impl PolicySource {
    pub open spec fn view(&self) -> PolicySourceView {
        match self {
            PolicySource::Fixed(l) => PolicySourceView::Fixed(*l),
            PolicySource::DockerConfig(p) => PolicySourceView::DockerConfig(p@),
            PolicySource::KubernetesNamespace(n) => PolicySourceView::KubernetesNamespace(n@),
        }
    }
}

pub open spec fn spec_policy_source(t: ContainerType, data: Option<Seq<char>>) -> Result<
    PolicySourceView,
    HandleRuncEventError,
> {
    match t {
        ContainerType::Unknown => Ok(PolicySourceView::Fixed(ContainerPolicyLevel::Baseline)),
        ContainerType::Docker => match data {
            Some(p) => Ok(PolicySourceView::DockerConfig(p)),
            None => Err(HandleRuncEventError::ContainerData),
        },
        ContainerType::KubernetesContainerd => match data {
            Some(ns) => if ns == NAMESPACE_KUBE_SYSTEM@ {
                Ok(PolicySourceView::Fixed(ContainerPolicyLevel::Privileged))
            } else {
                Ok(PolicySourceView::KubernetesNamespace(ns))
            },
            None => Err(HandleRuncEventError::ContainerData),
        },
    }
}

pub open spec fn source_result_view(r: Result<PolicySource, HandleRuncEventError>) -> Result<
    PolicySourceView,
    HandleRuncEventError,
> {
    match r {
        Ok(s) => Ok(s@),
        Err(e) => Err(e),
    }
}

/// Chooses where the policy of a container of type `t` comes from; an
/// unknown type is baseline, the system namespace privileged.
pub fn policy_source(t: ContainerType, data: Option<String>) -> (r: Result<
    PolicySource,
    HandleRuncEventError,
>)
    ensures
        source_result_view(r) == spec_policy_source(t, opt_string_view(data)),
{
    match t {
        ContainerType::Unknown => Ok(PolicySource::Fixed(ContainerPolicyLevel::Baseline)),
        ContainerType::Docker => match data {
            Some(p) => Ok(PolicySource::DockerConfig(p)),
            None => Err(HandleRuncEventError::ContainerData),
        },
        ContainerType::KubernetesContainerd => match data {
            Some(ns) => match policy_kubernetes_preset(ns.as_str()) {
                Some(level) => Ok(PolicySource::Fixed(level)),
                None => Ok(PolicySource::KubernetesNamespace(ns)),
            },
            None => Err(HandleRuncEventError::ContainerData),
        },
    }
}

} // verus!
