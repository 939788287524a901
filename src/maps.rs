use vstd::prelude::*;

use crate::policy::ContainerPolicyLevel;
use crate::table::{
    lemma_to_map_dom, lemma_to_map_index, lemma_to_map_push, lemma_to_map_remove,
    lemma_to_map_update, to_map, unique_keys,
};
use crate::utils::{hash, spec_hash, HashError};

verus! {

/// Key of the engine's own pseudo-container.
pub const LOCKC_CONTAINER_KEY: u32 = 0;

/// Value of the process table: the key of the container a pid belongs to.
#[derive(Debug, Clone, Copy, PartialEq, Eq, Structural)]
pub struct Process {
    pub container_id: u32,
}

/// Value of the container table.
#[derive(Debug, Clone, Copy, PartialEq, Eq, Structural)]
pub struct Container {
    pub policy_level: ContainerPolicyLevel,
}

/// The two tables as maps.
pub struct MapView {
    pub containers: Map<u32, ContainerPolicyLevel>,
    pub processes: Map<i32, u32>,
}

/// A lifecycle command, as the executor sees it.
pub enum CommandView {
    AddContainer(Seq<char>, i32, ContainerPolicyLevel),
    DeleteContainer(Seq<char>),
    AddProcess(Seq<char>, i32),
}

/// Lifecycle command applied to the map state.
#[derive(Debug, Clone, PartialEq, Eq)]
pub enum EbpfCommand {
    AddContainer { container_id: String, pid: i32, policy_level: ContainerPolicyLevel },
    DeleteContainer { container_id: String },
    AddProcess { container_id: String, pid: i32 },
}

impl EbpfCommand {
    pub open spec fn view(&self) -> CommandView {
        match self {
            EbpfCommand::AddContainer { container_id, pid, policy_level } => CommandView::AddContainer(
                container_id@,
                *pid,
                *policy_level,
            ),
            EbpfCommand::DeleteContainer { container_id } => CommandView::DeleteContainer(
                container_id@,
            ),
            EbpfCommand::AddProcess { container_id, pid } => CommandView::AddProcess(
                container_id@,
                *pid,
            ),
        }
    }
}

/// The process table without the entries of container `key`.
pub open spec fn without_container(m: Map<i32, u32>, key: u32) -> Map<i32, u32> {
    Map::new(|p: i32| m.contains_key(p) && m[p] != key, |p: i32| m[p])
}

/// The state after a command, and the reply to it.
pub open spec fn apply(m: MapView, c: CommandView) -> (MapView, Result<(), HashError>) {
    match c {
        CommandView::AddContainer(id, pid, level) => match spec_hash(id) {
            Ok(key) => (
                MapView {
                    containers: m.containers.insert(key, level),
                    processes: m.processes.insert(pid, key),
                },
                Ok(()),
            ),
            Err(e) => (m, Err(e)),
        },
        CommandView::DeleteContainer(id) => match spec_hash(id) {
            Ok(key) => (
                MapView {
                    containers: m.containers.remove(key),
                    processes: without_container(m.processes, key),
                },
                Ok(()),
            ),
            Err(e) => (m, Err(e)),
        },
        CommandView::AddProcess(id, pid) => match spec_hash(id) {
            Ok(key) => (
                MapView { containers: m.containers, processes: m.processes.insert(pid, key) },
                Ok(()),
            ),
            Err(e) => (m, Err(e)),
        },
    }
}

/// The policy that applies to `pid`: that of its container, `NotFound` when
/// the pid or its container is not registered.
pub open spec fn pid_policy(m: MapView, pid: i32) -> ContainerPolicyLevel {
    if m.processes.contains_key(pid) && m.containers.contains_key(m.processes[pid]) {
        m.containers[m.processes[pid]]
    } else {
        ContainerPolicyLevel::NotFound
    }
}

/// Container and process tables shared with the enforcement programs,
/// owned by the single executor that applies lifecycle commands to them.
pub struct MapState {
    containers: Vec<(u32, ContainerPolicyLevel)>,
    processes: Vec<(i32, u32)>,
}

impl MapState {
    pub closed spec fn wf(&self) -> bool {
        unique_keys(self.containers@) && unique_keys(self.processes@)
    }

    pub closed spec fn view(&self) -> MapView {
        MapView { containers: to_map(self.containers@), processes: to_map(self.processes@) }
    }

    /// Tables holding only the engine's own pseudo-container, with the
    /// engine's pid registered under it.
    pub fn new(own_pid: i32) -> (r: Self)
        ensures
            r.wf(),
            r@.containers == map![LOCKC_CONTAINER_KEY => ContainerPolicyLevel::Lockc],
            r@.processes == map![own_pid => LOCKC_CONTAINER_KEY],
    {
        let mut containers: Vec<(u32, ContainerPolicyLevel)> = Vec::new();
        containers.push((LOCKC_CONTAINER_KEY, ContainerPolicyLevel::Lockc));
        let mut processes: Vec<(i32, u32)> = Vec::new();
        processes.push((own_pid, LOCKC_CONTAINER_KEY));
        let r = MapState { containers, processes };
        proof {
            lemma_to_map_push(Seq::<(u32, ContainerPolicyLevel)>::empty(), LOCKC_CONTAINER_KEY, ContainerPolicyLevel::Lockc);
            lemma_to_map_push(Seq::<(i32, u32)>::empty(), own_pid, LOCKC_CONTAINER_KEY);
            assert(r.containers@ =~= Seq::<(u32, ContainerPolicyLevel)>::empty().push((LOCKC_CONTAINER_KEY, ContainerPolicyLevel::Lockc)));
            assert(r.processes@ =~= Seq::<(i32, u32)>::empty().push((own_pid, LOCKC_CONTAINER_KEY)));
            assert(r@.containers =~= map![LOCKC_CONTAINER_KEY => ContainerPolicyLevel::Lockc]);
            assert(r@.processes =~= map![own_pid => LOCKC_CONTAINER_KEY]);
        }
        r
    }

    fn find_container(&self, key: u32) -> (r: Option<usize>)
        requires
            self.wf(),
        ensures
            match r {
                Some(i) => i < self.containers@.len() && self.containers@[i as int].0 == key,
                None => !self@.containers.contains_key(key),
            },
    {
        let mut i: usize = 0;
        while i < self.containers.len()
            invariant
                0 <= i <= self.containers@.len(),
                forall|j: int| 0 <= j < i ==> self.containers@[j].0 != key,
            decreases self.containers@.len() - i,
        {
            if self.containers[i].0 == key {
                return Some(i);
            }
            i = i + 1;
        }
        proof {
            lemma_to_map_dom(self.containers@, key);
        }
        None
    }

    fn find_process(&self, pid: i32) -> (r: Option<usize>)
        requires
            self.wf(),
        ensures
            match r {
                Some(i) => i < self.processes@.len() && self.processes@[i as int].0 == pid,
                None => !self@.processes.contains_key(pid),
            },
    {
        let mut i: usize = 0;
        while i < self.processes.len()
            invariant
                0 <= i <= self.processes@.len(),
                forall|j: int| 0 <= j < i ==> self.processes@[j].0 != pid,
            decreases self.processes@.len() - i,
        {
            if self.processes[i].0 == pid {
                return Some(i);
            }
            i = i + 1;
        }
        proof {
            lemma_to_map_dom(self.processes@, pid);
        }
        None
    }

    /// The record of the container with key `key`, if registered.
    pub fn container_policy(&self, key: u32) -> (r: Option<Container>)
        requires
            self.wf(),
        ensures
            r == (if self@.containers.contains_key(key) {
                Some(Container { policy_level: self@.containers[key] })
            } else {
                None
            }),
    {
        match self.find_container(key) {
            Some(i) => {
                proof {
                    lemma_to_map_index(self.containers@, i as int);
                }
                Some(Container { policy_level: self.containers[i].1 })
            },
            None => None,
        }
    }

    /// The record of the process `pid`, naming its container, if any.
    pub fn process_container(&self, pid: i32) -> (r: Option<Process>)
        requires
            self.wf(),
        ensures
            r == (if self@.processes.contains_key(pid) {
                Some(Process { container_id: self@.processes[pid] })
            } else {
                None
            }),
    {
        match self.find_process(pid) {
            Some(i) => {
                proof {
                    lemma_to_map_index(self.processes@, i as int);
                }
                Some(Process { container_id: self.processes[i].1 })
            },
            None => None,
        }
    }

    /// The policy that applies to `pid`.
    pub fn policy_of_pid(&self, pid: i32) -> (r: ContainerPolicyLevel)
        requires
            self.wf(),
        ensures
            r == pid_policy(self@, pid),
    {
        match self.process_container(pid) {
            Some(p) => match self.container_policy(p.container_id) {
                Some(c) => c.policy_level,
                None => ContainerPolicyLevel::NotFound,
            },
            None => ContainerPolicyLevel::NotFound,
        }
    }

    fn upsert_container(&mut self, key: u32, level: ContainerPolicyLevel)
        requires
            old(self).wf(),
        ensures
            final(self).wf(),
            final(self)@.containers == old(self)@.containers.insert(key, level),
            final(self)@.processes == old(self)@.processes,
    {
        match self.find_container(key) {
            Some(i) => {
                proof {
                    lemma_to_map_update(self.containers@, i as int, level);
                }
                self.containers.set(i, (key, level));
                proof {
                    assert(unique_keys(self.containers@));
                }
            },
            None => {
                proof {
                    lemma_to_map_push(self.containers@, key, level);
                    assert forall|j: int| 0 <= j < self.containers@.len() implies self.containers@[j].0 != key by {
                        lemma_to_map_index(self.containers@, j);
                    }
                }
                self.containers.push((key, level));
            },
        }
    }

    fn upsert_process(&mut self, pid: i32, key: u32)
        requires
            old(self).wf(),
        ensures
            final(self).wf(),
            final(self)@.processes == old(self)@.processes.insert(pid, key),
            final(self)@.containers == old(self)@.containers,
    {
        match self.find_process(pid) {
            Some(i) => {
                proof {
                    lemma_to_map_update(self.processes@, i as int, key);
                }
                self.processes.set(i, (pid, key));
                proof {
                    assert(unique_keys(self.processes@));
                }
            },
            None => {
                proof {
                    lemma_to_map_push(self.processes@, pid, key);
                    assert forall|j: int| 0 <= j < self.processes@.len() implies self.processes@[j].0 != pid by {
                        lemma_to_map_index(self.processes@, j);
                    }
                }
                self.processes.push((pid, key));
            },
        }
    }

    fn remove_container(&mut self, key: u32)
        requires
            old(self).wf(),
        ensures
            final(self).wf(),
            final(self)@.containers == old(self)@.containers.remove(key),
            final(self)@.processes == old(self)@.processes,
    {
        match self.find_container(key) {
            Some(i) => {
                proof {
                    lemma_to_map_remove(self.containers@, i as int);
                }
                self.containers.remove(i);
            },
            None => {
                proof {
                    assert(self@.containers.remove(key) =~= self@.containers);
                }
            },
        }
    }

    /// Removes every process entry that references container `key`.
    fn remove_processes_of(&mut self, key: u32)
        requires
            old(self).wf(),
        ensures
            final(self).wf(),
            final(self)@.processes == without_container(old(self)@.processes, key),
            final(self)@.containers == old(self)@.containers,
    {
        let ghost old_procs = self.processes@;
        let mut kept: Vec<(i32, u32)> = Vec::new();
        let mut i: usize = 0;
        while i < self.processes.len()
            invariant
                self.processes@ == old_procs,
                unique_keys(old_procs),
                0 <= i <= old_procs.len(),
                unique_keys(kept@),
                to_map(kept@) == without_container(to_map(old_procs.take(i as int)), key),
            decreases old_procs.len() - i,
        {
            let entry = self.processes[i];
            proof {
                let pre = old_procs.take(i as int);
                assert(old_procs.take(i as int + 1) =~= pre.push(entry));
                lemma_to_map_push(pre, entry.0, entry.1);
                assert(unique_keys(pre));
                lemma_to_map_dom(pre, entry.0);
                assert(!to_map(pre).contains_key(entry.0));
            }
            if entry.1 != key {
                proof {
                    lemma_to_map_push(kept@, entry.0, entry.1);
                    assert forall|j: int| 0 <= j < kept@.len() implies kept@[j].0 != entry.0 by {
                        lemma_to_map_index(kept@, j);
                    }
                }
                kept.push(entry);
                proof {
                    let pre = old_procs.take(i as int);
                    assert(to_map(kept@) =~= without_container(to_map(pre).insert(entry.0, entry.1), key));
                }
            } else {
                proof {
                    let pre = old_procs.take(i as int);
                    assert(to_map(kept@) =~= without_container(to_map(pre).insert(entry.0, entry.1), key));
                }
            }
            i = i + 1;
        }
        proof {
            assert(old_procs.take(old_procs.len() as int) =~= old_procs);
        }
        self.processes = kept;
    }

    /// Applies one lifecycle command and returns its reply. Every command
    /// gets a reply: an error only when the id has no key, and then the
    /// tables are left as they were.
    pub fn execute(&mut self, cmd: &EbpfCommand) -> (r: Result<(), HashError>)
        requires
            old(self).wf(),
        ensures
            final(self).wf(),
            (final(self)@, r) == apply(old(self)@, cmd.view()),
    {
        match cmd {
            EbpfCommand::AddContainer { container_id, pid, policy_level } => {
                let key = hash(container_id.as_str())?;
                self.upsert_container(key, *policy_level);
                self.upsert_process(*pid, key);
                Ok(())
            },
            EbpfCommand::DeleteContainer { container_id } => {
                let key = hash(container_id.as_str())?;
                self.remove_container(key);
                self.remove_processes_of(key);
                Ok(())
            },
            EbpfCommand::AddProcess { container_id, pid } => {
                let key = hash(container_id.as_str())?;
                self.upsert_process(*pid, key);
                Ok(())
            },
        }
    }
}

/// The pids of the entries that reference container `key`, in order.
pub open spec fn pids_with_key(s: Seq<(i32, u32)>, key: u32) -> Seq<i32>
    decreases s.len(),
{
    if s.len() == 0 {
        Seq::empty()
    } else if s.last().1 == key {
        pids_with_key(s.drop_last(), key).push(s.last().0)
    } else {
        pids_with_key(s.drop_last(), key)
    }
}

/// Scans process-table entries for those of container `key`: these are the
/// entries that deleting the container removes.
pub fn pids_of_container(entries: &Vec<(i32, u32)>, key: u32) -> (r: Vec<i32>)
    ensures
        r@ == pids_with_key(entries@, key),
{
    let mut r: Vec<i32> = Vec::new();
    let mut i: usize = 0;
    while i < entries.len()
        invariant
            0 <= i <= entries@.len(),
            r@ == pids_with_key(entries@.take(i as int), key),
        decreases entries@.len() - i,
    {
        proof {
            assert(entries@.take(i as int + 1).drop_last() =~= entries@.take(i as int));
        }
        if entries[i].1 == key {
            r.push(entries[i].0);
        }
        i = i + 1;
    }
    proof {
        assert(entries@.take(entries@.len() as int) =~= entries@);
    }
    r
}

/// The state and the replies after applying `cmds` in order.
pub open spec fn run(m: MapView, cmds: Seq<CommandView>) -> (MapView, Seq<Result<(), HashError>>)
    decreases cmds.len(),
{
    if cmds.len() == 0 {
        (m, Seq::empty())
    } else {
        let (m1, replies) = run(m, cmds.drop_last());
        let (m2, reply) = apply(m1, cmds.last());
        (m2, replies.push(reply))
    }
}

/// Registering a container and then looking up its pid gives its level;
/// after the container is deleted the same lookup gives `NotFound`.
pub proof fn lemma_add_then_delete(
    m: MapView,
    id: Seq<char>,
    pid: i32,
    level: ContainerPolicyLevel,
)
    requires
        spec_hash(id) is Ok,
    ensures
        apply(m, CommandView::AddContainer(id, pid, level)).1 is Ok,
        pid_policy(apply(m, CommandView::AddContainer(id, pid, level)).0, pid) == level,
        apply(apply(m, CommandView::AddContainer(id, pid, level)).0, CommandView::DeleteContainer(id)).1 is Ok,
        pid_policy(
            apply(apply(m, CommandView::AddContainer(id, pid, level)).0, CommandView::DeleteContainer(id)).0,
            pid,
        ) == ContainerPolicyLevel::NotFound,
{
}

/// Attributing a process to an id with no registered container changes only
/// the process table, and registers no container.
pub proof fn lemma_add_process_only_attributes(m: MapView, id: Seq<char>, pid: i32)
    requires
        spec_hash(id) is Ok,
        !m.containers.contains_key(spec_hash(id)->Ok_0),
    ensures
        apply(m, CommandView::AddProcess(id, pid)).1 is Ok,
        apply(m, CommandView::AddProcess(id, pid)).0.containers == m.containers,
        apply(m, CommandView::AddProcess(id, pid)).0.processes == m.processes.insert(
            pid,
            spec_hash(id)->Ok_0,
        ),
        !apply(m, CommandView::AddProcess(id, pid)).0.containers.contains_key(spec_hash(id)->Ok_0),
{
}

/// Every command gets exactly one reply, whatever the commands and their
/// order: the i-th reply is the reply to the i-th command in the state that
/// the commands before it left.
pub proof fn lemma_one_reply_per_command(m: MapView, cmds: Seq<CommandView>)
    ensures
        run(m, cmds).1.len() == cmds.len(),
        forall|i: int|
            0 <= i < cmds.len() ==> #[trigger] run(m, cmds).1[i] == apply(
                run(m, cmds.take(i)).0,
                cmds[i],
            ).1,
    decreases cmds.len(),
{
    if cmds.len() > 0 {
        let n = cmds.len() - 1;
        lemma_one_reply_per_command(m, cmds.drop_last());
        assert forall|i: int| 0 <= i < cmds.len() implies #[trigger] run(m, cmds).1[i] == apply(
            run(m, cmds.take(i)).0,
            cmds[i],
        ).1 by {
            if i < n {
                assert(cmds.drop_last().take(i) =~= cmds.take(i));
                assert(run(m, cmds.drop_last()).1[i] == apply(
                    run(m, cmds.drop_last().take(i)).0,
                    cmds.drop_last()[i],
                ).1);
            } else {
                assert(cmds.take(i) =~= cmds.drop_last());
            }
        }
    }
}

} // verus!
