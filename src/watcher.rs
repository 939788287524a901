use vstd::prelude::*;

use crate::errors::HandleRuncEventError;
use crate::runc::{
    args_view, opt_string_view, parse_runc_args, parse_shim_args, runc_parse, shim_parse,
    ContainerAction, ParseState, ShimContainerAction, ShimParseState,
};
use crate::text::str_eq;
use crate::utils::{hash, spec_hash};

verus! {

/// The two runtime programs whose executions are handled.
#[derive(Debug, Clone, Copy, PartialEq, Eq, Structural)]
pub enum RuntimeKind {
    /// The low-level runtime itself.
    Runc,
    /// The shim that drives it.
    ContainerdShim,
}

pub open spec fn spec_runtime_kind(comm: Seq<char>) -> Option<RuntimeKind> {
    if comm == "runc"@ {
        Some(RuntimeKind::Runc)
    } else if comm == "containerd-shim"@ {
        Some(RuntimeKind::ContainerdShim)
    } else {
        None
    }
}

/// Which parser handles an execution, by the program name of the process.
pub fn runtime_kind(comm: &str) -> (r: Option<RuntimeKind>)
    ensures
        r == spec_runtime_kind(comm@),
{
    if str_eq(comm, "runc") {
        Some(RuntimeKind::Runc)
    } else if str_eq(comm, "containerd-shim") {
        Some(RuntimeKind::ContainerdShim)
    } else {
        None
    }
}

/// What has to be done for one intercepted execution before it is released.
#[derive(Debug, Clone, PartialEq, Eq)]
pub enum EventPlan {
    /// Nothing to register.
    Nothing,
    /// Attribute the process to its existing container.
    AddProcess { container_id: String },
    /// Resolve the policy from the bundle (the working directory of the
    /// process when absent) and register the container.
    CreateContainer { container_id: String, bundle: Option<String> },
    /// Unregister the container.
    DeleteContainer { container_id: String },
}

pub enum PlanView {
    Nothing,
    AddProcess(Seq<char>),
    CreateContainer(Seq<char>, Option<Seq<char>>),
    DeleteContainer(Seq<char>),
}

impl EventPlan {
    pub open spec fn view(&self) -> PlanView {
        match self {
            EventPlan::Nothing => PlanView::Nothing,
            EventPlan::AddProcess { container_id } => PlanView::AddProcess(container_id@),
            EventPlan::CreateContainer { container_id, bundle } => PlanView::CreateContainer(
                container_id@,
                opt_string_view(*bundle),
            ),
            EventPlan::DeleteContainer { container_id } => PlanView::DeleteContainer(
                container_id@,
            ),
        }
    }
}

pub open spec fn plan_result_view(r: Result<EventPlan, HandleRuncEventError>) -> Result<
    PlanView,
    HandleRuncEventError,
> {
    match r {
        Ok(p) => Ok(p.view()),
        Err(e) => Err(e),
    }
}

/// The plan for a runtime invocation whose arguments parsed to `s`.
pub open spec fn spec_plan_runc(s: ParseState) -> Result<PlanView, HandleRuncEventError> {
    match s.action {
        ContainerAction::Other => match s.container_id {
            Some(id) => Ok(PlanView::AddProcess(id)),
            None => Ok(PlanView::Nothing),
        },
        ContainerAction::Create => match s.container_id {
            Some(id) => match spec_hash(id) {
                Ok(_) => Ok(PlanView::CreateContainer(id, s.bundle)),
                Err(e) => Err(HandleRuncEventError::Hash(e)),
            },
            None => Err(HandleRuncEventError::ContainerID),
        },
        ContainerAction::Delete => match s.container_id {
            Some(id) => match spec_hash(id) {
                Ok(_) => Ok(PlanView::DeleteContainer(id)),
                Err(e) => Err(HandleRuncEventError::Hash(e)),
            },
            None => Err(HandleRuncEventError::ContainerID),
        },
    }
}

/// The plan for a shim invocation whose arguments parsed to `s`.
pub open spec fn spec_plan_shim(s: ShimParseState) -> Result<PlanView, HandleRuncEventError> {
    match s.action {
        ShimContainerAction::Other => Ok(PlanView::Nothing),
        ShimContainerAction::Delete => match s.container_id {
            Some(id) => Ok(PlanView::DeleteContainer(id)),
            None => Err(HandleRuncEventError::ContainerID),
        },
    }
}

pub open spec fn spec_plan_event(comm: Seq<char>, args: Seq<Seq<char>>) -> Result<
    PlanView,
    HandleRuncEventError,
> {
    match spec_runtime_kind(comm) {
        Some(RuntimeKind::Runc) => spec_plan_runc(runc_parse(args)),
        Some(RuntimeKind::ContainerdShim) => spec_plan_shim(shim_parse(args)),
        None => Ok(PlanView::Nothing),
    }
}

/// Plans the handling of a runtime invocation from its arguments.
pub fn plan_runc_event(args: &Vec<String>) -> (r: Result<EventPlan, HandleRuncEventError>)
    ensures
        plan_result_view(r) == spec_plan_runc(runc_parse(args_view(args@))),
{
    let inv = parse_runc_args(args);
    match inv.action {
        ContainerAction::Other => match inv.container_id {
            Some(container_id) => Ok(EventPlan::AddProcess { container_id }),
            None => Ok(EventPlan::Nothing),
        },
        ContainerAction::Create => match inv.container_id {
            Some(container_id) => match hash(container_id.as_str()) {
                Ok(_) => Ok(EventPlan::CreateContainer { container_id, bundle: inv.bundle }),
                Err(e) => Err(HandleRuncEventError::Hash(e)),
            },
            None => Err(HandleRuncEventError::ContainerID),
        },
        ContainerAction::Delete => match inv.container_id {
            Some(container_id) => match hash(container_id.as_str()) {
                Ok(_) => Ok(EventPlan::DeleteContainer { container_id }),
                Err(e) => Err(HandleRuncEventError::Hash(e)),
            },
            None => Err(HandleRuncEventError::ContainerID),
        },
    }
}

/// Plans the handling of a shim invocation from its arguments.
pub fn plan_shim_event(args: &Vec<String>) -> (r: Result<EventPlan, HandleRuncEventError>)
    ensures
        plan_result_view(r) == spec_plan_shim(shim_parse(args_view(args@))),
{
    let inv = parse_shim_args(args);
    match inv.action {
        ShimContainerAction::Other => Ok(EventPlan::Nothing),
        ShimContainerAction::Delete => match inv.container_id {
            Some(container_id) => Ok(EventPlan::DeleteContainer { container_id }),
            None => Err(HandleRuncEventError::ContainerID),
        },
    }
}

/// Plans the handling of one intercepted execution from the program name
/// and the arguments of the process that triggered it.
pub fn plan_event(comm: &str, args: &Vec<String>) -> (r: Result<EventPlan, HandleRuncEventError>)
    ensures
        plan_result_view(r) == spec_plan_event(comm@, args_view(args@)),
{
    match runtime_kind(comm) {
        Some(RuntimeKind::Runc) => plan_runc_event(args),
        Some(RuntimeKind::ContainerdShim) => plan_shim_event(args),
        None => Ok(EventPlan::Nothing),
    }
}

/// Answer to a permission event.
#[derive(Debug, Clone, Copy, PartialEq, Eq, Structural)]
pub enum FanotifyResponse {
    Allow,
    Deny,
}

/// The answer for an event whose handling ended with `outcome`: a lost
/// reply denies the execution, anything else lets it run.
pub open spec fn spec_event_response(outcome: Result<(), HandleRuncEventError>) -> FanotifyResponse {
    match outcome {
        Err(HandleRuncEventError::Reply) => FanotifyResponse::Deny,
        _ => FanotifyResponse::Allow,
    }
}

/// State of the poll of the one-time startup signal.
#[derive(Debug, Clone, Copy, PartialEq, Eq, Structural)]
pub enum BootstrapPoll {
    /// The map state is initialized.
    Fired,
    /// Not yet.
    Empty,
    /// The sender is gone without firing.
    Closed,
}

/// Phase of the event watcher.
#[derive(Debug, Clone, Copy, PartialEq, Eq, Structural)]
pub enum WatcherPhase {
    AwaitingBootstrap,
    Running,
    Stopped,
}

/// Decisions of the event watcher loop; the loop itself polls and reads.
#[derive(Debug, Clone, Copy, PartialEq, Eq, Structural)]
pub struct WatcherState {
    pub phase: WatcherPhase,
}

impl WatcherState {
    pub fn new() -> (r: Self)
        ensures
            r.phase == WatcherPhase::AwaitingBootstrap,
    {
        WatcherState { phase: WatcherPhase::AwaitingBootstrap }
    }

    /// Handles one poll of the startup signal: events are watched only
    /// once it has fired, and a dropped signal stops the watcher.
    pub fn on_bootstrap(&mut self, poll: BootstrapPoll) -> (r: Result<(), HandleRuncEventError>)
        requires
            old(self).phase == WatcherPhase::AwaitingBootstrap,
        ensures
            poll == BootstrapPoll::Fired ==> final(self).phase == WatcherPhase::Running && r
                == Ok::<(), HandleRuncEventError>(()),
            poll == BootstrapPoll::Empty ==> final(self).phase == WatcherPhase::AwaitingBootstrap
                && r == Ok::<(), HandleRuncEventError>(()),
            poll == BootstrapPoll::Closed ==> final(self).phase == WatcherPhase::Stopped && r
                == Err::<(), HandleRuncEventError>(HandleRuncEventError::Bootstrap),
    {
        match poll {
            BootstrapPoll::Fired => {
                self.phase = WatcherPhase::Running;
                Ok(())
            },
            BootstrapPoll::Empty => Ok(()),
            BootstrapPoll::Closed => {
                self.phase = WatcherPhase::Stopped;
                Err(HandleRuncEventError::Bootstrap)
            },
        }
    }

    /// Handles the result of one poll of the event descriptor: with events
    /// ready they are drained (`true`), otherwise the watcher stops.
    pub fn on_poll(&mut self, ready: i32) -> (r: bool)
        requires
            old(self).phase == WatcherPhase::Running,
        ensures
            r == (ready > 0),
            final(self).phase == (if ready > 0 {
                WatcherPhase::Running
            } else {
                WatcherPhase::Stopped
            }),
    {
        if ready > 0 {
            true
        } else {
            self.phase = WatcherPhase::Stopped;
            false
        }
    }

    /// Answers one event once its handling has ended, whatever the outcome;
    /// the watcher keeps running.
    pub fn on_event(&mut self, outcome: &Result<(), HandleRuncEventError>) -> (r: FanotifyResponse)
        requires
            old(self).phase == WatcherPhase::Running,
        ensures
            final(self).phase == WatcherPhase::Running,
            r == spec_event_response(*outcome),
    {
        match outcome {
            Err(HandleRuncEventError::Reply) => FanotifyResponse::Deny,
            _ => FanotifyResponse::Allow,
        }
    }
}

/// The phase and the answers after a running watcher handles events that
/// end with `outcomes`.
pub open spec fn run_events(phase: WatcherPhase, outcomes: Seq<Result<(), HandleRuncEventError>>) -> (
    WatcherPhase,
    Seq<FanotifyResponse>,
)
    decreases outcomes.len(),
{
    if outcomes.len() == 0 {
        (phase, Seq::empty())
    } else {
        let (p, rs) = run_events(phase, outcomes.drop_last());
        if p == WatcherPhase::Running {
            (WatcherPhase::Running, rs.push(spec_event_response(outcomes.last())))
        } else {
            (p, rs)
        }
    }
}

/// A failed event never stops the watcher: after any outcomes it is still
/// running, each event got exactly one answer, and every event whose
/// handling succeeded was allowed.
pub proof fn lemma_watcher_survives(outcomes: Seq<Result<(), HandleRuncEventError>>)
    ensures
        run_events(WatcherPhase::Running, outcomes).0 == WatcherPhase::Running,
        run_events(WatcherPhase::Running, outcomes).1.len() == outcomes.len(),
        forall|i: int|
            0 <= i < outcomes.len() ==> #[trigger] run_events(WatcherPhase::Running, outcomes).1[i]
                == spec_event_response(outcomes[i]),
        forall|i: int|
            0 <= i < outcomes.len() && outcomes[i] is Ok ==> #[trigger] run_events(
                WatcherPhase::Running,
                outcomes,
            ).1[i] == FanotifyResponse::Allow,
    decreases outcomes.len(),
{
    if outcomes.len() > 0 {
        lemma_watcher_survives(outcomes.drop_last());
        let rs = run_events(WatcherPhase::Running, outcomes).1;
        assert forall|i: int| 0 <= i < outcomes.len() implies #[trigger] rs[i]
            == spec_event_response(outcomes[i]) by {
            if i < outcomes.len() - 1 {
                assert(outcomes.drop_last()[i] == outcomes[i]);
            }
        }
        assert forall|i: int| 0 <= i < outcomes.len() && outcomes[i] is Ok implies #[trigger] rs[i]
            == FanotifyResponse::Allow by {
            assert(rs[i] == spec_event_response(outcomes[i]));
        }
    }
}

/// Places where the low-level runtime binary may be installed, on the host
/// and under the host mount of a containerized daemon.
pub fn runc_candidate_paths() -> (r: Vec<String>)
    ensures
        r@.len() == 8,
        r@[0]@ == "/usr/bin/runc"@,
        r@[1]@ == "/usr/sbin/runc"@,
        r@[2]@ == "/usr/local/bin/runc"@,
        r@[3]@ == "/usr/local/sbin/runc"@,
        r@[4]@ == "/host/usr/bin/runc"@,
        r@[5]@ == "/host/usr/sbin/runc"@,
        r@[6]@ == "/host/usr/local/bin/runc"@,
        r@[7]@ == "/host/usr/local/sbin/runc"@,
{
    let mut v: Vec<String> = Vec::new();
    v.push(String::from_str("/usr/bin/runc"));
    v.push(String::from_str("/usr/sbin/runc"));
    v.push(String::from_str("/usr/local/bin/runc"));
    v.push(String::from_str("/usr/local/sbin/runc"));
    v.push(String::from_str("/host/usr/bin/runc"));
    v.push(String::from_str("/host/usr/sbin/runc"));
    v.push(String::from_str("/host/usr/local/bin/runc"));
    v.push(String::from_str("/host/usr/local/sbin/runc"));
    v
}

/// What is known of a candidate path on disk.
#[derive(Debug, Clone, Copy, PartialEq, Eq, Structural)]
pub struct PathStatus {
    pub exists: bool,
    pub is_dir: bool,
    /// Permission bits of the file.
    pub mode: u32,
}

/// A path is watched when it is an existing non-directory with an execute bit.
pub open spec fn spec_should_watch(st: PathStatus) -> bool {
    st.exists && !st.is_dir && (st.mode & 0o111u32) != 0
}

pub fn should_watch(st: &PathStatus) -> (r: bool)
    ensures
        r == spec_should_watch(*st),
{
    st.exists && !st.is_dir && (st.mode & 0o111u32) != 0
}

/// The candidate paths that are watched, in order.
pub open spec fn watched_paths(paths: Seq<Seq<char>>, st: Seq<PathStatus>) -> Seq<Seq<char>>
    decreases paths.len(),
{
    if paths.len() == 0 {
        Seq::empty()
    } else {
        let rest = watched_paths(paths.drop_last(), st);
        if spec_should_watch(st[paths.len() - 1]) {
            rest.push(paths.last())
        } else {
            rest
        }
    }
}

/// Keeps the candidate paths whose status says they are to be watched:
/// directory placeholders and non-executable files are skipped.
pub fn select_watch_paths(paths: &Vec<String>, statuses: &Vec<PathStatus>) -> (r: Vec<String>)
    requires
        paths@.len() == statuses@.len(),
    ensures
        args_view(r@) == watched_paths(args_view(paths@), statuses@),
{
    let mut r: Vec<String> = Vec::new();
    let mut i: usize = 0;
    while i < paths.len()
        invariant
            paths@.len() == statuses@.len(),
            0 <= i <= paths@.len(),
            args_view(r@) == watched_paths(args_view(paths@.take(i as int)), statuses@),
        decreases paths@.len() - i,
    {
        proof {
            assert(args_view(paths@.take(i as int + 1)).drop_last() =~= args_view(
                paths@.take(i as int),
            ));
        }
        if should_watch(&statuses[i]) {
            r.push(paths[i].clone());
            proof {
                assert(args_view(r@) =~= args_view(r@.drop_last()).push(paths@[i as int]@));
            }
        }
        i = i + 1;
    }
    proof {
        assert(paths@.take(paths@.len() as int) =~= paths@);
    }
    r
}

/// Socket of the classic container engine.
pub const DOCKER_SOCKET: &'static str = "/var/run/docker.sock";

/// Watcher of accesses to the classic engine's socket.
#[derive(Debug, Clone, PartialEq, Eq)]
pub struct DockerWatcher {
    /// The path to watch, if the socket exists.
    pub watch_path: Option<String>,
}

impl DockerWatcher {
    /// Watches the engine socket when it exists, nothing otherwise.
    pub fn new(socket_exists: bool) -> (r: Self)
        ensures
            opt_string_view(r.watch_path) == (if socket_exists {
                Some(DOCKER_SOCKET@)
            } else {
                None
            }),
    {
        if socket_exists {
            DockerWatcher { watch_path: Some(String::from_str(DOCKER_SOCKET)) }
        } else {
            DockerWatcher { watch_path: None }
        }
    }

    /// Socket accesses are only observed: each one is allowed.
    pub fn handle_event(&self) -> (r: FanotifyResponse)
        ensures
            r == FanotifyResponse::Allow,
    {
        FanotifyResponse::Allow
    }
}

} // verus!
