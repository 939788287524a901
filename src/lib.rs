//! Container lifecycle interception core: argument parsing of container
//! runtime invocations, policy resolution from bundle metadata, and the map
//! state that the enforcement programs consult.

pub mod bundle;
pub mod errors;
pub mod maps;
pub mod policy;
pub mod runc;
pub mod table;
pub mod text;
pub mod utils;
pub mod watcher;

pub use bundle::{
    container_type_data, kubernetes_type, policy_source, ContainerConfig, ContainerType,
    KubernetesContainerType, Mount, PolicySource, ResolveStep,
};
pub use errors::{ContainerError, HandleRuncEventError, PolicyKubernetesSyncError, UprobeError};
pub use maps::{pids_of_container, Container, EbpfCommand, MapState, Process};
pub use policy::{
    policy_docker, policy_from_label, policy_kubernetes, policy_kubernetes_preset,
    ContainerPolicyLevel, LABEL_POLICY_DOCKER, LABEL_POLICY_ENFORCE,
};
pub use runc::{check_uprobe_ret, parse_runc_args, parse_shim_args, ContainerAction, RuncInvocation};
pub use utils::{hash, HashError};
pub use watcher::{
    plan_event, select_watch_paths, DockerWatcher, EventPlan, FanotifyResponse, PathStatus,
    RuntimeKind, WatcherState,
};
