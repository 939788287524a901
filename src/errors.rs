use vstd::prelude::*;

use crate::utils::HashError;

verus! {

/// Why a bundle's configuration could not be used.
#[derive(Debug, Clone, Copy, PartialEq, Eq, Structural)]
pub enum ContainerError {
    /// The configuration file could not be read.
    Status,
    /// The configuration file is not valid JSON of the expected shape.
    Json,
    /// The log directory annotation has no final path component.
    LogFileName,
    /// No namespace could be taken from the log directory.
    K8sNamespace,
}

/// Failure of the remote namespace lookup.
#[derive(Debug, Clone, Copy, PartialEq, Eq, Structural)]
pub enum PolicyKubernetesSyncError {
    /// The private execution context could not be built.
    IO,
    /// The orchestration API call failed.
    Kube,
}

/// Result code of a call into a probe of the enforcement programs.
#[derive(Debug, Clone, Copy, PartialEq, Eq, Structural)]
pub enum UprobeError {
    Hash(HashError),
    /// The probe did not run: the programs are most likely not attached.
    Call,
    /// The program reported an error.
    BPF,
    Unknown,
}

/// Failure while handling one intercepted runtime execution.
#[derive(Debug, Clone, Copy, PartialEq, Eq, Structural)]
pub enum HandleRuncEventError {
    IO,
    Errno,
    /// The startup signal was dropped before it fired.
    Bootstrap,
    /// The triggering process could not be inspected.
    Proc,
    Container(ContainerError),
    Hash(HashError),
    PolicyKubernetes(PolicyKubernetesSyncError),
    Uprobe(UprobeError),
    ContainerData,
    ContainerID,
    /// The command was sent but its reply never arrived.
    Reply,
}

} // verus!
