//! The process monitor: a table of spawned commands and their state. It follows
//! the children that the caller spawned for it and never restarts them by itself.
use vstd::prelude::*;
use dashmap::DashMap;
use crate::senka_error::{SenkaError, SenkaErrorCode};
use crate::process_manager::{
    missing_process_error, missing_process_message, next_index, running_process_error,
    running_process_message,
};

verus! {

/// The state of a monitored process.
#[derive(Clone, Copy, Debug, PartialEq, Eq, Structural)]
pub enum ProcessStatus {
    /// Spawning failed, or the process was never spawned.
    NotCreated,
    Running,
    /// Ended with this exit code.
    Exited(i32),
}

/// One monitored process. `process` tells whether the caller holds a live child
/// for it.
#[derive(Debug)]
pub struct ProcessInfo {
    pub process: bool,
    pub status: ProcessStatus,
    pub command: String,
    pub creator: String,
    /// Creation time, in milliseconds since the Unix epoch.
    pub created_time: i64,
}

/// The entry for a command that was (`spawned`) or was not spawned.
pub open spec fn monitored_info(spawned: bool, command: String, creator: String, created_time: i64) -> ProcessInfo {
    ProcessInfo {
        process: spawned,
        status: if spawned {
            ProcessStatus::Running
        } else {
            ProcessStatus::NotCreated
        },
        command,
        creator,
        created_time,
    }
}

/// What the caller saw of a monitored child.
#[derive(Clone, Copy, Debug, PartialEq, Eq, Structural)]
pub enum ChildObservation {
    /// The child has ended; its exit code, `None` when it has none.
    Exited(Option<i32>),
    /// The child still runs.
    Running,
    /// The state of the child could not be read.
    Unknown,
}

/// The entry after the monitor took in an observation of its child: an ended
/// child is `Exited` with its code (`-1` without one, or when its state cannot be
/// read) and is dropped; a running one changes nothing. Entries without a child
/// are left as they are.
pub open spec fn child_observed(info: ProcessInfo, obs: ChildObservation) -> ProcessInfo {
    if info.process {
        match obs {
            ChildObservation::Exited(code) => ProcessInfo {
                status: ProcessStatus::Exited(
                    match code {
                        Some(c) => c,
                        None => -1i32,
                    },
                ),
                process: false,
                ..info
            },
            ChildObservation::Running => info,
            ChildObservation::Unknown => ProcessInfo {
                status: ProcessStatus::Exited(-1i32),
                process: false,
                ..info
            },
        }
    } else {
        info
    }
}

/// The entry once the caller reported whether spawning its command again succeeded.
pub open spec fn respawned(info: ProcessInfo, spawned: bool) -> ProcessInfo {
    if spawned {
        ProcessInfo { process: true, status: ProcessStatus::Running, ..info }
    } else {
        ProcessInfo { process: false, status: ProcessStatus::NotCreated, ..info }
    }
}

impl ProcessInfo {
    /// The entry for a command: running when the caller spawned a child for it,
    /// not created otherwise.
    pub fn new(spawned: bool, command: String, creator: String, created_time: i64) -> (res: Self)
        ensures
            res == monitored_info(spawned, command, creator, created_time),
    {
        let status = if spawned {
            ProcessStatus::Running
        } else {
            ProcessStatus::NotCreated
        };
        ProcessInfo { process: spawned, status, command, creator, created_time }
    }
}

/// What the process table of a monitor holds: the entries by id.
pub uninterp spec fn monitor_table(m: DashMap<u32, ProcessInfo>) -> Map<u32, ProcessInfo>;

/// `DashMap::new`: the table starts out empty.
#[verifier::external_body]
fn table_new() -> (res: DashMap<u32, ProcessInfo>)
    ensures
        monitor_table(res) =~= Map::empty(),
{
    DashMap::new()
}

/// `DashMap::insert`: afterwards `id` maps to `info`; the other entries stay.
#[verifier::external_body]
fn table_insert(m: &mut DashMap<u32, ProcessInfo>, id: u32, info: ProcessInfo)
    ensures
        monitor_table(*final(m)) == monitor_table(*old(m)).insert(id, info),
{
    m.insert(id, info);
}

/// `DashMap::remove`: takes the entry for `id` out of the table and hands over
/// its value, if there was one; the other entries stay.
#[verifier::external_body]
fn table_take(m: &mut DashMap<u32, ProcessInfo>, id: u32) -> (res: Option<ProcessInfo>)
    ensures
        monitor_table(*final(m)) == monitor_table(*old(m)).remove(id),
        res == (if monitor_table(*old(m)).contains_key(id) {
            Some(monitor_table(*old(m))[id])
        } else {
            None
        }),
{
    m.remove(&id).map(|pair| pair.1)
}

/// `DashMap::iter`, keeping each entry's key: every id of the table, once each,
/// in the order in which the shards are walked (which no clause fixes).
#[verifier::external_body]
fn table_ids(m: &DashMap<u32, ProcessInfo>) -> (res: Vec<u32>)
    ensures
        res@.no_duplicates(),
        forall|id: u32| res@.contains(id) <==> monitor_table(*m).contains_key(id),
{
    m.iter().map(|entry| *entry.key()).collect()
}

/// What the caller has to do to restart a monitored command: kill the child it
/// holds (when `had_process`), spawn `command` and report the outcome.
#[derive(Debug)]
pub struct RestartRequest {
    pub command: String,
    pub had_process: bool,
}

/// The table of monitored processes, with the counter that hands out their ids.
pub struct ProcessMonitor {
    pub process_infos: DashMap<u32, ProcessInfo>,
    check_interval: u32,
    process_index: u32,
}

impl ProcessMonitor {
    /// The entries by id.
    pub closed spec fn table(&self) -> Map<u32, ProcessInfo> {
        monitor_table(self.process_infos)
    }

    /// The id that the next started process gets.
    pub closed spec fn next_id(&self) -> u32 {
        self.process_index
    }

    /// The seconds between two rounds of the monitor.
    pub closed spec fn interval(&self) -> u32 {
        self.check_interval
    }

    /// Every id in the table is below the counter, so the next started process
    /// gets an id that no entry has.
    pub open spec fn ids_below_next(&self) -> bool {
        forall|id: u32| #[trigger] self.table().contains_key(id) ==> id < self.next_id()
    }

    /// An empty monitor that polls every second and whose first id is 0.
    pub fn new() -> (res: Self)
        ensures
            res.table() == Map::<u32, ProcessInfo>::empty(),
            res.next_id() == 0,
            res.interval() == 1,
            res.ids_below_next(),
    {
        ProcessMonitor { process_infos: table_new(), check_interval: 1, process_index: 0 }
    }

    /// The seconds between two rounds of the monitor.
    pub fn check_interval(&self) -> (res: u32)
        ensures
            res == self.interval(),
    {
        self.check_interval
    }

    /// Enters a command that the caller just tried to spawn and returns its id:
    /// running when a child was spawned, not created otherwise.
    pub fn start(&mut self, command: String, creator: String, spawned: bool, created_time: i64) -> (res:
        Result<u32, SenkaError>)
        ensures
            res matches Ok(id) && id == old(self).next_id(),
            final(self).table() == old(self).table().insert(
                old(self).next_id(),
                monitored_info(spawned, command, creator, created_time),
            ),
            final(self).next_id() == next_index(old(self).next_id()),
            final(self).interval() == old(self).interval(),
            old(self).ids_below_next() ==> !old(self).table().contains_key(old(self).next_id()),
            old(self).ids_below_next() && old(self).next_id() < u32::MAX ==> final(self).ids_below_next(),
    {
        let id = self.process_index;
        self.process_index = if self.process_index == u32::MAX {
            0
        } else {
            self.process_index + 1
        };
        let process_info = ProcessInfo::new(spawned, command, creator, created_time);
        table_insert(&mut self.process_infos, id, process_info);
        Ok(id)
    }

    /// Drops the child of the entry with this id; returns `true` when there was
    /// one, which the caller then kills. The entry keeps its status.
    pub fn kill(&mut self, id: u32) -> (res: bool)
        ensures
            res == (old(self).table().contains_key(id) && old(self).table()[id].process),
            res ==> final(self).table() == old(self).table().insert(
                id,
                ProcessInfo { process: false, ..old(self).table()[id] },
            ),
            !res ==> final(self).table() == old(self).table(),
            final(self).next_id() == old(self).next_id(),
            final(self).interval() == old(self).interval(),
            old(self).ids_below_next() ==> final(self).ids_below_next(),
    {
        match table_take(&mut self.process_infos, id) {
            Some(mut entry) => {
                let had = entry.process;
                entry.process = false;
                table_insert(&mut self.process_infos, id, entry);
                proof {
                    if !had {
                        assert(self.table() =~= old(self).table());
                    }
                }
                had
            },
            None => {
                proof {
                    assert(self.table() =~= old(self).table());
                }
                false
            },
        }
    }

    /// Starts a restart of the entry with this id: its child is dropped and the
    /// caller gets the command to spawn again. An id that is not in the table is
    /// an `Arguement` error.
    pub fn begin_restart(&mut self, id: u32) -> (res: Result<RestartRequest, SenkaError>)
        ensures
            old(self).table().contains_key(id) ==> {
                &&& final(self).table() == old(self).table().insert(
                    id,
                    ProcessInfo { process: false, ..old(self).table()[id] },
                )
                &&& res matches Ok(request) && request.command@ == old(self).table()[id].command@
                    && request.had_process == old(self).table()[id].process
            },
            !old(self).table().contains_key(id) ==> {
                &&& final(self).table() == old(self).table()
                &&& res matches Err(e) && e.senka_error_code == SenkaErrorCode::Arguement
                    && e.error_message@ == missing_process_message(id)
            },
            final(self).next_id() == old(self).next_id(),
            final(self).interval() == old(self).interval(),
            old(self).ids_below_next() ==> final(self).ids_below_next(),
    {
        match table_take(&mut self.process_infos, id) {
            Some(mut entry) => {
                let had_process = entry.process;
                entry.process = false;
                let command = entry.command.clone();
                table_insert(&mut self.process_infos, id, entry);
                Ok(RestartRequest { command, had_process })
            },
            None => {
                proof {
                    assert(self.table() =~= old(self).table());
                }
                Err(missing_process_error(id))
            },
        }
    }

    /// Records whether the spawn of a restart succeeded.
    pub fn finish_restart(&mut self, id: u32, spawned: bool)
        ensures
            old(self).table().contains_key(id) ==> final(self).table() == old(self).table().insert(
                id,
                respawned(old(self).table()[id], spawned),
            ),
            !old(self).table().contains_key(id) ==> final(self).table() == old(self).table(),
            final(self).next_id() == old(self).next_id(),
            final(self).interval() == old(self).interval(),
            old(self).ids_below_next() ==> final(self).ids_below_next(),
    {
        match table_take(&mut self.process_infos, id) {
            Some(mut entry) => {
                if spawned {
                    entry.process = true;
                    entry.status = ProcessStatus::Running;
                } else {
                    entry.process = false;
                    entry.status = ProcessStatus::NotCreated;
                }
                table_insert(&mut self.process_infos, id, entry);
            },
            None => {
                proof {
                    assert(self.table() =~= old(self).table());
                }
            },
        }
    }

    /// Takes the entry out of the table. Only an entry that is not running can be
    /// removed: removing a running one is an `Inner` error and changes nothing.
    pub fn remove(&mut self, id: u32) -> (res: Result<(), SenkaError>)
        ensures
            old(self).table().contains_key(id) && old(self).table()[id].status == ProcessStatus::Running
                ==> {
                &&& final(self).table() == old(self).table()
                &&& res matches Err(e) && e.senka_error_code == SenkaErrorCode::Inner
                    && e.error_message@ == running_process_message(id)
            },
            !(old(self).table().contains_key(id) && old(self).table()[id].status
                == ProcessStatus::Running) ==> final(self).table() == old(self).table().remove(id)
                && res is Ok,
            final(self).next_id() == old(self).next_id(),
            final(self).interval() == old(self).interval(),
            old(self).ids_below_next() ==> final(self).ids_below_next(),
    {
        match table_take(&mut self.process_infos, id) {
            Some(entry) => {
                if entry.status == ProcessStatus::Running {
                    table_insert(&mut self.process_infos, id, entry);
                    proof {
                        assert(self.table() =~= old(self).table());
                    }
                    return Err(running_process_error(id));
                }
                Ok(())
            },
            None => Ok(()),
        }
    }

    /// The ids in the table, each once.
    pub fn ids(&self) -> (res: Vec<u32>)
        ensures
            res@.no_duplicates(),
            forall|id: u32| res@.contains(id) <==> self.table().contains_key(id),
    {
        table_ids(&self.process_infos)
    }

    /// Whether the caller holds a child for the entry with this id.
    pub fn has_process(&mut self, id: u32) -> (res: bool)
        ensures
            final(self).table() == old(self).table(),
            final(self).next_id() == old(self).next_id(),
            final(self).interval() == old(self).interval(),
            old(self).ids_below_next() ==> final(self).ids_below_next(),
            res == (old(self).table().contains_key(id) && old(self).table()[id].process),
    {
        match table_take(&mut self.process_infos, id) {
            Some(entry) => {
                let has = entry.process;
                table_insert(&mut self.process_infos, id, entry);
                proof {
                    assert(self.table() =~= old(self).table());
                }
                has
            },
            None => {
                proof {
                    assert(self.table() =~= old(self).table());
                }
                false
            },
        }
    }

    /// One monitor round for the entry with this id (see [`child_observed`]).
    pub fn monitor_entry(&mut self, id: u32, obs: ChildObservation)
        ensures
            old(self).table().contains_key(id) ==> final(self).table() == old(self).table().insert(
                id,
                child_observed(old(self).table()[id], obs),
            ),
            !old(self).table().contains_key(id) ==> final(self).table() == old(self).table(),
            final(self).next_id() == old(self).next_id(),
            final(self).interval() == old(self).interval(),
            old(self).ids_below_next() ==> final(self).ids_below_next(),
    {
        match table_take(&mut self.process_infos, id) {
            Some(mut entry) => {
                if entry.process {
                    match obs {
                        ChildObservation::Exited(code) => {
                            entry.status = ProcessStatus::Exited(
                                match code {
                                    Some(c) => c,
                                    None => -1,
                                },
                            );
                            entry.process = false;
                        },
                        ChildObservation::Running => {},
                        ChildObservation::Unknown => {
                            entry.status = ProcessStatus::Exited(-1);
                            entry.process = false;
                        },
                    }
                }
                table_insert(&mut self.process_infos, id, entry);
            },
            None => {
                proof {
                    assert(self.table() =~= old(self).table());
                }
            },
        }
    }
}

/// The monitor never brings a process back by itself: an entry whose child
/// ended keeps no child, whatever is observed later.
pub proof fn lemma_monitor_never_respawns(info: ProcessInfo, obs: ChildObservation)
    requires
        !info.process,
    ensures
        child_observed(info, obs) == info,
{
}

/// When a followed child ends, its entry records the exit code the child gave
/// (`-1` when it gave none), is no longer running and holds no child, and keeps
/// its command, creator and creation time; so it can then be removed.
pub proof fn lemma_child_exit_recorded(info: ProcessInfo, code: Option<i32>)
    requires
        info.process,
    ensures
        child_observed(info, ChildObservation::Exited(code)).status == ProcessStatus::Exited(
            code.unwrap_or(-1i32),
        ),
        child_observed(info, ChildObservation::Exited(code)).status != ProcessStatus::Running,
        !child_observed(info, ChildObservation::Exited(code)).process,
        child_observed(info, ChildObservation::Exited(code)).command == info.command,
        child_observed(info, ChildObservation::Exited(code)).creator == info.creator,
        child_observed(info, ChildObservation::Exited(code)).created_time == info.created_time,
{
}

/// A child that still runs changes nothing in its entry; a child whose state
/// cannot be read counts as ended with `-1` and is dropped; an entry that holds
/// no child is left as it is, whatever is observed.
pub proof fn lemma_other_observations(info: ProcessInfo, obs: ChildObservation)
    ensures
        child_observed(info, ChildObservation::Running) == info,
        info.process ==> child_observed(info, ChildObservation::Unknown) == (ProcessInfo {
            status: ProcessStatus::Exited(-1i32),
            process: false,
            ..info
        }),
        !info.process ==> child_observed(info, obs) == info,
{
}

} // verus!
