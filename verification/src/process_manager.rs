//! The process manager: a table of managed processes with their state, and the
//! decisions that its monitor takes on every round. The processes themselves
//! (child handles, pipes, timers) belong to the caller, who performs the kills and
//! spawns that these functions order and reports what it saw.
use vstd::prelude::*;
use dashmap::DashMap;
use crate::senka_error::{SenkaError, SenkaErrorCode};
use crate::text::{decimal, push_decimal};

verus! {

/// Makes the concurrent map of `dashmap` known to the verifier; what a table of
/// processes holds is described by the names [`manager_table`] and
/// `monitor_table`.
#[verifier::external_type_specification]
#[verifier::external_body]
#[verifier::reject_recursive_types(K)]
#[verifier::reject_recursive_types(V)]
#[verifier::reject_recursive_types(S)]
pub struct ExDashMap<K, V, S>(DashMap<K, V, S>);

/// The state of a managed process; the monitor decides by it what to do.
#[derive(Clone, Copy, Debug, PartialEq, Eq, Structural)]
pub enum ProcessStatus {
    /// Not created yet, or creation failed: the monitor will create it.
    NotCreated,
    /// Created and running: only its state is updated.
    Running,
    /// Ended with this exit code: restarted when automatic restart is on.
    Exited(i32),
    /// Stopped by hand: never restarted by the monitor.
    Stopped,
}

/// What kind of process handle an entry holds.
#[derive(Clone, Copy, Debug, PartialEq, Eq, Structural)]
pub enum ProcessHandle {
    /// No process.
    NoProcess,
    /// A child spawned by the manager, whose handle and pipes the caller keeps.
    Managed,
    /// A process started elsewhere and adopted by its pid; only its state is followed.
    Dued(u32),
}

/// One managed process.
#[derive(Debug)]
pub struct ProcessInfo {
    pub status: ProcessStatus,
    pub command: String,
    pub args: Vec<String>,
    pub auto_restart: bool,
    pub creator: String,
    /// Creation time, in milliseconds since the Unix epoch.
    pub created_time: i64,
    pub process: ProcessHandle,
}

/// A new entry: not started, no handle.
pub open spec fn fresh_info(
    command: String,
    args: Vec<String>,
    auto_restart: bool,
    creator: String,
    created_time: i64,
) -> ProcessInfo {
    ProcessInfo {
        status: ProcessStatus::NotCreated,
        command,
        args,
        auto_restart,
        creator,
        created_time,
        process: ProcessHandle::NoProcess,
    }
}

/// What the caller saw of an entry's process on a monitor round.
#[derive(Clone, Copy, Debug, PartialEq, Eq, Structural)]
pub enum ProcessObservation {
    /// A managed child has ended; its exit code, `None` when it has none.
    ChildExited(Option<i32>),
    /// A managed child is still running.
    ChildRunning,
    /// The state of a managed child could not be read.
    ChildUnknown,
    /// An adopted process is in the system's process list.
    DuedAlive,
    /// An adopted process is not in the system's process list.
    DuedGone,
    /// The entry has no process to look at.
    Nothing,
}

/// The entry after the monitor took in an observation. An observation only
/// counts for the kind of handle it is about: a managed child that ended is
/// `Exited` with its code (`-1` without one or when its state cannot be read),
/// a running one is `Running`; an adopted process that is present is `Running`,
/// one that is gone is `Exited(-1)` and its handle is dropped.
pub open spec fn observed(info: ProcessInfo, obs: ProcessObservation) -> ProcessInfo {
    match info.process {
        ProcessHandle::Managed => match obs {
            ProcessObservation::ChildExited(code) => ProcessInfo {
                status: ProcessStatus::Exited(
                    match code {
                        Some(c) => c,
                        None => -1i32,
                    },
                ),
                ..info
            },
            ProcessObservation::ChildRunning => ProcessInfo { status: ProcessStatus::Running, ..info },
            ProcessObservation::ChildUnknown => ProcessInfo { status: ProcessStatus::Exited(-1i32), ..info },
            _ => info,
        },
        ProcessHandle::Dued(_) => match obs {
            ProcessObservation::DuedAlive => ProcessInfo { status: ProcessStatus::Running, ..info },
            ProcessObservation::DuedGone => ProcessInfo {
                status: ProcessStatus::Exited(-1i32),
                process: ProcessHandle::NoProcess,
                ..info
            },
            _ => info,
        },
        ProcessHandle::NoProcess => info,
    }
}

/// Whether the monitor (re)creates the process of this entry: when it was never
/// created, or when it ended and automatic restart is on.
pub open spec fn wants_restart(info: ProcessInfo) -> bool {
    match info.status {
        ProcessStatus::NotCreated => true,
        ProcessStatus::Exited(_) => info.auto_restart,
        _ => false,
    }
}

/// The entry once a restart has been ordered: its old handle is handed to the
/// caller to be killed.
pub open spec fn restart_prepared(info: ProcessInfo) -> ProcessInfo {
    ProcessInfo { process: ProcessHandle::NoProcess, ..info }
}

/// The entry once the caller reported whether spawning its command succeeded.
pub open spec fn after_spawn(info: ProcessInfo, spawned: bool) -> ProcessInfo {
    if spawned {
        ProcessInfo { process: ProcessHandle::Managed, status: ProcessStatus::Running, ..info }
    } else {
        ProcessInfo { process: ProcessHandle::NoProcess, status: ProcessStatus::NotCreated, ..info }
    }
}

/// The entry once it was killed by hand: stopped, handle dropped.
pub open spec fn killed(info: ProcessInfo) -> ProcessInfo {
    ProcessInfo { status: ProcessStatus::Stopped, process: ProcessHandle::NoProcess, ..info }
}

/// What the caller has to do to restart a process: kill the old process (if
/// any) and spawn `command` with `args`, then report the outcome.
#[derive(Debug)]
pub struct RestartOrder {
    pub old_process: ProcessHandle,
    pub command: String,
    pub args: Vec<String>,
}

/// The order issued for restarting an entry.
pub open spec fn restart_order_matches(order: RestartOrder, info: ProcessInfo) -> bool {
    &&& order.old_process == info.process
    &&& order.command@ == info.command@
    &&& order.args@ == info.args@
}

pub(crate) fn clone_args(args: &Vec<String>) -> (res: Vec<String>)
    ensures
        res@ == args@,
{
    let res = args.clone();
    assert(res@ =~= args@);
    res
}

impl ProcessInfo {
    /// A new entry that is not started yet; the monitor creates its process on
    /// its next round.
    pub fn new(
        command: String,
        args: Vec<String>,
        auto_restart: bool,
        creator: String,
        created_time: i64,
    ) -> (res: Self)
        ensures
            res == fresh_info(command, args, auto_restart, creator, created_time),
    {
        ProcessInfo {
            status: ProcessStatus::NotCreated,
            command,
            args,
            auto_restart,
            creator,
            created_time,
            process: ProcessHandle::NoProcess,
        }
    }

    /// An entry for a process that already runs elsewhere, adopted by its pid; its
    /// input and output cannot be reached. `alive` is whether the caller found the
    /// pid in the system's process list: a live process is `Running` and is left
    /// alone by the monitor, one that is not there is not created yet.
    pub fn from_dued(
        pid: u32,
        alive: bool,
        command: String,
        args: Vec<String>,
        auto_restart: bool,
        creator: String,
        created_time: i64,
    ) -> (res: Self)
        ensures
            res == (ProcessInfo {
                process: ProcessHandle::Dued(pid),
                status: if alive {
                    ProcessStatus::Running
                } else {
                    ProcessStatus::NotCreated
                },
                ..fresh_info(command, args, auto_restart, creator, created_time)
            }),
    {
        let mut process_info = ProcessInfo::new(command, args, auto_restart, creator, created_time);
        process_info.process = ProcessHandle::Dued(pid);
        if alive {
            process_info.status = ProcessStatus::Running;
        }
        process_info
    }

    /// A copy of the entry.
    pub fn duplicate(&self) -> (res: Self)
        ensures
            res.status == self.status,
            res.command@ == self.command@,
            res.args@ == self.args@,
            res.auto_restart == self.auto_restart,
            res.creator@ == self.creator@,
            res.created_time == self.created_time,
            res.process == self.process,
    {
        ProcessInfo {
            status: self.status,
            command: self.command.clone(),
            args: clone_args(&self.args),
            auto_restart: self.auto_restart,
            creator: self.creator.clone(),
            created_time: self.created_time,
            process: self.process,
        }
    }
}

/// What the process table of a manager holds: the entries by id.
pub uninterp spec fn manager_table(m: DashMap<u32, ProcessInfo>) -> Map<u32, ProcessInfo>;

/// `DashMap::new`: the table starts out empty.
#[verifier::external_body]
fn table_new() -> (res: DashMap<u32, ProcessInfo>)
    ensures
        manager_table(res) =~= Map::empty(),
{
    DashMap::new()
}

/// `DashMap::insert`: afterwards `id` maps to `info`, whether or not it was
/// present; the other entries stay.
#[verifier::external_body]
fn table_insert(m: &mut DashMap<u32, ProcessInfo>, id: u32, info: ProcessInfo)
    ensures
        manager_table(*final(m)) == manager_table(*old(m)).insert(id, info),
{
    m.insert(id, info);
}

/// `DashMap::remove`: takes the entry for `id` out of the table and hands over
/// its value, if there was one; the other entries stay.
#[verifier::external_body]
fn table_take(m: &mut DashMap<u32, ProcessInfo>, id: u32) -> (res: Option<ProcessInfo>)
    ensures
        manager_table(*final(m)) == manager_table(*old(m)).remove(id),
        res == (if manager_table(*old(m)).contains_key(id) {
            Some(manager_table(*old(m))[id])
        } else {
            None
        }),
{
    m.remove(&id).map(|pair| pair.1)
}

/// `DashMap::iter`, keeping each entry's key: every id of the table, once each,
/// in the order in which the shards are walked (which no clause fixes).
#[verifier::external_body]
fn table_ids(m: &DashMap<u32, ProcessInfo>) -> (res: Vec<u32>)
    ensures
        res@.no_duplicates(),
        forall|id: u32| res@.contains(id) <==> manager_table(*m).contains_key(id),
{
    m.iter().map(|entry| *entry.key()).collect()
}

/// The next value of the id counter, which wraps at the top of `u32` as an
/// atomic add does.
pub open spec fn next_index(index: u32) -> u32 {
    if index == u32::MAX {
        0
    } else {
        (index + 1) as u32
    }
}

/// The message of the error for a restart of an id that is not in the table.
pub open spec fn missing_process_message(id: u32) -> Seq<char> {
    "Process with id["@ + decimal(id as nat) + "] not exists"@
}

/// The message of the error for removing a process that still runs.
pub open spec fn running_process_message(id: u32) -> Seq<char> {
    "process "@ + decimal(id as nat) + " is still running, cannot remove"@
}

pub(crate) fn missing_process_error(id: u32) -> (res: SenkaError)
    ensures
        res.senka_error_code == SenkaErrorCode::Arguement,
        res.error_message@ == missing_process_message(id),
{
    let mut message = String::from_str("Process with id[");
    push_decimal(&mut message, id);
    message.append("] not exists");
    SenkaError::new(SenkaErrorCode::Arguement, message)
}

pub(crate) fn running_process_error(id: u32) -> (res: SenkaError)
    ensures
        res.senka_error_code == SenkaErrorCode::Inner,
        res.error_message@ == running_process_message(id),
{
    let mut message = String::from_str("process ");
    push_decimal(&mut message, id);
    message.append(" is still running, cannot remove");
    SenkaError::new(SenkaErrorCode::Inner, message)
}

/// Takes in what the caller saw of the entry's process (see [`observed`]).
pub fn observe_entry(entry: &mut ProcessInfo, obs: ProcessObservation)
    ensures
        *final(entry) == observed(*old(entry), obs),
{
    match entry.process {
        ProcessHandle::Managed => match obs {
            ProcessObservation::ChildExited(code) => {
                entry.status = ProcessStatus::Exited(
                    match code {
                        Some(c) => c,
                        None => -1,
                    },
                );
            },
            ProcessObservation::ChildRunning => {
                entry.status = ProcessStatus::Running;
            },
            ProcessObservation::ChildUnknown => {
                entry.status = ProcessStatus::Exited(-1);
            },
            _ => {},
        },
        ProcessHandle::Dued(_) => match obs {
            ProcessObservation::DuedAlive => {
                entry.status = ProcessStatus::Running;
            },
            ProcessObservation::DuedGone => {
                entry.status = ProcessStatus::Exited(-1);
                entry.process = ProcessHandle::NoProcess;
            },
            _ => {},
        },
        ProcessHandle::NoProcess => {},
    }
}

/// Whether the monitor has to (re)create the entry's process.
pub fn needs_restart(entry: &ProcessInfo) -> (res: bool)
    ensures
        res == wants_restart(*entry),
{
    match entry.status {
        ProcessStatus::NotCreated => true,
        ProcessStatus::Exited(_) => entry.auto_restart,
        _ => false,
    }
}

/// Prepares a restart of the entry: its handle is taken out and handed to the
/// caller with the command to spawn.
pub fn restart_entry(entry: &mut ProcessInfo) -> (res: RestartOrder)
    ensures
        *final(entry) == restart_prepared(*old(entry)),
        restart_order_matches(res, *old(entry)),
{
    let old_process = entry.process;
    entry.process = ProcessHandle::NoProcess;
    RestartOrder { old_process, command: entry.command.clone(), args: clone_args(&entry.args) }
}

/// Records whether spawning the entry's command succeeded: a spawned child runs
/// under the manager; a failed spawn leaves the entry not created, so that the
/// monitor tries again.
pub fn finish_restart_entry(entry: &mut ProcessInfo, spawned: bool)
    ensures
        *final(entry) == after_spawn(*old(entry), spawned),
{
    if spawned {
        entry.process = ProcessHandle::Managed;
        entry.status = ProcessStatus::Running;
    } else {
        entry.process = ProcessHandle::NoProcess;
        entry.status = ProcessStatus::NotCreated;
    }
}

/// The table of managed processes, with the counter that hands out their ids.
pub struct ProcessManager {
    pub process_infos: DashMap<u32, ProcessInfo>,
    check_interval: u32,
    process_index: u32,
}

impl ProcessManager {
    /// The entries by id.
    pub closed spec fn table(&self) -> Map<u32, ProcessInfo> {
        manager_table(self.process_infos)
    }

    /// The id that the next started process gets.
    pub closed spec fn next_id(&self) -> u32 {
        self.process_index
    }

    /// The seconds between two rounds of the monitor.
    pub closed spec fn interval(&self) -> u32 {
        self.check_interval
    }

    /// Every id in the table is below the counter, so the next started process
    /// gets an id that no entry has.
    pub open spec fn ids_below_next(&self) -> bool {
        forall|id: u32| #[trigger] self.table().contains_key(id) ==> id < self.next_id()
    }

    /// An empty manager whose monitor polls every second and whose first id is 0.
    pub fn new() -> (res: Self)
        ensures
            res.table() == Map::<u32, ProcessInfo>::empty(),
            res.next_id() == 0,
            res.interval() == 1,
            res.ids_below_next(),
    {
        ProcessManager { process_infos: table_new(), check_interval: 1, process_index: 0 }
    }

    /// The seconds between two rounds of the monitor.
    pub fn check_interval(&self) -> (res: u32)
        ensures
            res == self.interval(),
    {
        self.check_interval
    }

    /// Registers a new process and returns its id. The process is not started
    /// here: it enters the table not created, and the monitor creates it on its
    /// next round.
    pub fn start(
        &mut self,
        command: String,
        args: Vec<String>,
        auto_restart: bool,
        creator: String,
        created_time: i64,
    ) -> (res: Result<u32, SenkaError>)
        ensures
            res matches Ok(id) && id == old(self).next_id(),
            final(self).table() == old(self).table().insert(
                old(self).next_id(),
                fresh_info(command, args, auto_restart, creator, created_time),
            ),
            final(self).next_id() == next_index(old(self).next_id()),
            final(self).interval() == old(self).interval(),
            old(self).ids_below_next() ==> !old(self).table().contains_key(old(self).next_id()),
            old(self).ids_below_next() && old(self).next_id() < u32::MAX ==> final(self).ids_below_next(),
    {
        let id = self.process_index;
        self.process_index = if self.process_index == u32::MAX {
            0
        } else {
            self.process_index + 1
        };
        let process_info = ProcessInfo::new(command, args, auto_restart, creator, created_time);
        table_insert(&mut self.process_infos, id, process_info);
        Ok(id)
    }

    /// Stops a process by hand: its entry becomes `Stopped`, which keeps the
    /// monitor from restarting it, and its handle is dropped. Returns the handle
    /// that the entry held, so that the caller kills a managed child; an id that
    /// is not in the table changes nothing.
    pub fn kill(&mut self, id: u32) -> (res: ProcessHandle)
        ensures
            old(self).table().contains_key(id) ==> final(self).table() == old(self).table().insert(
                id,
                killed(old(self).table()[id]),
            ) && res == old(self).table()[id].process,
            !old(self).table().contains_key(id) ==> final(self).table() == old(self).table()
                && res == ProcessHandle::NoProcess,
            final(self).next_id() == old(self).next_id(),
            final(self).interval() == old(self).interval(),
            old(self).ids_below_next() ==> final(self).ids_below_next(),
    {
        match table_take(&mut self.process_infos, id) {
            Some(mut entry) => {
                let old_process = entry.process;
                entry.status = ProcessStatus::Stopped;
                entry.process = ProcessHandle::NoProcess;
                table_insert(&mut self.process_infos, id, entry);
                proof {
                    assert(self.table() =~= old(self).table().insert(id, killed(old(self).table()[id])));
                }
                old_process
            },
            None => {
                proof {
                    assert(self.table() =~= old(self).table());
                }
                ProcessHandle::NoProcess
            },
        }
    }

    /// Orders the restart of the process with this id: the caller kills the old
    /// process, spawns the command and reports back with [`Self::finish_restart`].
    /// An id that is not in the table is an `Arguement` error.
    pub fn restart_by_id(&mut self, id: u32) -> (res: Result<RestartOrder, SenkaError>)
        ensures
            old(self).table().contains_key(id) ==> {
                &&& final(self).table() == old(self).table().insert(
                    id,
                    restart_prepared(old(self).table()[id]),
                )
                &&& res matches Ok(order) && restart_order_matches(order, old(self).table()[id])
            },
            !old(self).table().contains_key(id) ==> {
                &&& final(self).table() == old(self).table()
                &&& res matches Err(e) && e.senka_error_code == SenkaErrorCode::Arguement
                    && e.error_message@ == missing_process_message(id)
            },
            final(self).next_id() == old(self).next_id(),
            final(self).interval() == old(self).interval(),
            old(self).ids_below_next() ==> final(self).ids_below_next(),
    {
        match table_take(&mut self.process_infos, id) {
            Some(mut entry) => {
                let order = restart_entry(&mut entry);
                table_insert(&mut self.process_infos, id, entry);
                Ok(order)
            },
            None => {
                proof {
                    assert(self.table() =~= old(self).table());
                }
                Err(missing_process_error(id))
            },
        }
    }

    /// Records the outcome of the spawn that a restart order asked for.
    pub fn finish_restart(&mut self, id: u32, spawned: bool)
        ensures
            old(self).table().contains_key(id) ==> final(self).table() == old(self).table().insert(
                id,
                after_spawn(old(self).table()[id], spawned),
            ),
            !old(self).table().contains_key(id) ==> final(self).table() == old(self).table(),
            final(self).next_id() == old(self).next_id(),
            final(self).interval() == old(self).interval(),
            old(self).ids_below_next() ==> final(self).ids_below_next(),
    {
        match table_take(&mut self.process_infos, id) {
            Some(mut entry) => {
                finish_restart_entry(&mut entry, spawned);
                table_insert(&mut self.process_infos, id, entry);
            },
            None => {
                proof {
                    assert(self.table() =~= old(self).table());
                }
            },
        }
    }

    /// Takes the entry out of the table. Only an entry that is not running can be
    /// removed: removing a running one is an `Inner` error and changes nothing.
    pub fn remove(&mut self, id: u32) -> (res: Result<(), SenkaError>)
        ensures
            old(self).table().contains_key(id) && old(self).table()[id].status == ProcessStatus::Running
                ==> {
                &&& final(self).table() == old(self).table()
                &&& res matches Err(e) && e.senka_error_code == SenkaErrorCode::Inner
                    && e.error_message@ == running_process_message(id)
            },
            !(old(self).table().contains_key(id) && old(self).table()[id].status
                == ProcessStatus::Running) ==> final(self).table() == old(self).table().remove(id)
                && res is Ok,
            final(self).next_id() == old(self).next_id(),
            final(self).interval() == old(self).interval(),
            old(self).ids_below_next() ==> final(self).ids_below_next(),
    {
        match table_take(&mut self.process_infos, id) {
            Some(entry) => {
                if entry.status == ProcessStatus::Running {
                    table_insert(&mut self.process_infos, id, entry);
                    proof {
                        assert(self.table() =~= old(self).table());
                    }
                    return Err(running_process_error(id));
                }
                Ok(())
            },
            None => Ok(()),
        }
    }

    /// The ids in the table, each once.
    pub fn ids(&self) -> (res: Vec<u32>)
        ensures
            res@.no_duplicates(),
            forall|id: u32| res@.contains(id) <==> self.table().contains_key(id),
    {
        table_ids(&self.process_infos)
    }

    /// A copy of the entry with this id, if there is one.
    pub fn info(&mut self, id: u32) -> (res: Option<ProcessInfo>)
        ensures
            final(self).table() == old(self).table(),
            final(self).next_id() == old(self).next_id(),
            final(self).interval() == old(self).interval(),
            old(self).ids_below_next() ==> final(self).ids_below_next(),
            match res {
                Some(info) => old(self).table().contains_key(id) && {
                    let e = old(self).table()[id];
                    &&& info.status == e.status
                    &&& info.command@ == e.command@
                    &&& info.args@ == e.args@
                    &&& info.auto_restart == e.auto_restart
                    &&& info.creator@ == e.creator@
                    &&& info.created_time == e.created_time
                    &&& info.process == e.process
                },
                None => !old(self).table().contains_key(id),
            },
    {
        match table_take(&mut self.process_infos, id) {
            Some(entry) => {
                let copy = entry.duplicate();
                table_insert(&mut self.process_infos, id, entry);
                proof {
                    assert(self.table() =~= old(self).table());
                }
                Some(copy)
            },
            None => {
                proof {
                    assert(self.table() =~= old(self).table());
                }
                None
            },
        }
    }

    /// Whether some entry follows a process adopted by its pid.
    pub fn has_adopted_process(&mut self) -> (res: bool)
        ensures
            final(self).table() == old(self).table(),
            final(self).next_id() == old(self).next_id(),
            final(self).interval() == old(self).interval(),
            old(self).ids_below_next() ==> final(self).ids_below_next(),
            res == exists|id: u32| #[trigger] old(self).table().contains_key(id)
                && old(self).table()[id].process is Dued,
    {
        let ids = self.ids();
        let n = ids.len();
        let mut i: usize = 0;
        while i < n
            invariant
                n == ids@.len(),
                i <= n,
                self.table() == old(self).table(),
                self.next_id() == old(self).next_id(),
                self.interval() == old(self).interval(),
                ids@.no_duplicates(),
                forall|id: u32| ids@.contains(id) <==> old(self).table().contains_key(id),
                forall|k: int| 0 <= k < i ==> !(old(self).table()[ids@[k]].process is Dued),
            decreases n - i,
        {
            let id = ids[i];
            assert(ids@.contains(id));
            match self.info(id) {
                Some(entry) => {
                    if let ProcessHandle::Dued(_) = entry.process {
                        return true;
                    }
                },
                None => {},
            }
            i = i + 1;
        }
        assert forall|id: u32| #[trigger] old(self).table().contains_key(id) implies !(old(
            self,
        ).table()[id].process is Dued) by {
            assert(ids@.contains(id));
            let k = choose|k: int| 0 <= k < ids@.len() && ids@[k] == id;
        }
        false
    }

    /// One monitor round for the entry with this id: takes in what the caller saw
    /// of its process, then orders a restart when the entry was never created or
    /// ended with automatic restart on. An id that is not in the table changes
    /// nothing.
    pub fn monitor_entry(&mut self, id: u32, obs: ProcessObservation) -> (res: Option<RestartOrder>)
        ensures
            old(self).table().contains_key(id) ==> {
                let seen = observed(old(self).table()[id], obs);
                if wants_restart(seen) {
                    &&& final(self).table() == old(self).table().insert(id, restart_prepared(seen))
                    &&& res matches Some(order) && restart_order_matches(order, seen)
                } else {
                    &&& final(self).table() == old(self).table().insert(id, seen)
                    &&& res is None
                }
            },
            !old(self).table().contains_key(id) ==> final(self).table() == old(self).table()
                && res is None,
            final(self).next_id() == old(self).next_id(),
            final(self).interval() == old(self).interval(),
            old(self).ids_below_next() ==> final(self).ids_below_next(),
    {
        match table_take(&mut self.process_infos, id) {
            Some(mut entry) => {
                observe_entry(&mut entry, obs);
                if needs_restart(&entry) {
                    let order = restart_entry(&mut entry);
                    table_insert(&mut self.process_infos, id, entry);
                    Some(order)
                } else {
                    table_insert(&mut self.process_infos, id, entry);
                    None
                }
            },
            None => {
                proof {
                    assert(self.table() =~= old(self).table());
                }
                None
            },
        }
    }
}

/// A process that was just started is created by the monitor on its next round,
/// whatever the caller reports for it.
pub proof fn lemma_started_process_is_created(
    command: String,
    args: Vec<String>,
    auto_restart: bool,
    creator: String,
    created_time: i64,
    obs: ProcessObservation,
)
    ensures
        wants_restart(observed(fresh_info(command, args, auto_restart, creator, created_time), obs)),
{
}

/// A process stopped by hand stays stopped: no observation changes its entry and
/// the monitor never restarts it.
pub proof fn lemma_killed_process_stays_stopped(info: ProcessInfo, obs: ProcessObservation)
    ensures
        observed(killed(info), obs) == killed(info),
        !wants_restart(killed(info)),
{
}

/// A running process is left alone by the monitor.
pub proof fn lemma_running_process_not_restarted(info: ProcessInfo)
    requires
        info.status == ProcessStatus::Running,
    ensures
        !wants_restart(info),
{
}

/// A process that ended is restarted exactly when automatic restart is on.
pub proof fn lemma_exited_process_restarted_iff_auto(info: ProcessInfo, code: i32)
    requires
        info.status == ProcessStatus::Exited(code),
    ensures
        wants_restart(info) == info.auto_restart,
{
}

/// When spawning fails the entry is left not created, so the monitor tries again
/// on its next round; when it succeeds the process runs under the manager and is
/// left alone until it ends.
pub proof fn lemma_spawn_outcome(info: ProcessInfo)
    ensures
        wants_restart(after_spawn(info, false)),
        !wants_restart(after_spawn(info, true)),
        after_spawn(info, true).status == ProcessStatus::Running,
        after_spawn(info, true).process == ProcessHandle::Managed,
{
}

/// The counter after `n` starts; every other operation leaves it as it is.
pub open spec fn counter_after(next: u32, n: nat) -> u32
    decreases n,
{
    if n == 0 {
        next
    } else {
        next_index(counter_after(next, (n - 1) as nat))
    }
}

/// Before the counter wraps, the `n` ids that a run of starts hands out are the
/// consecutive numbers from the counter up.
pub proof fn lemma_counter_after(next: u32, n: nat)
    requires
        next + n <= u32::MAX + 1,
    ensures
        forall|i: nat| i < n ==> #[trigger] counter_after(next, i) == next + i,
    decreases n,
{
    if n > 1 {
        lemma_counter_after(next, (n - 1) as nat);
        assert(counter_after(next, (n - 2) as nat) == next + (n - 2));
    }
}

/// A run of starts on a manager or a monitor, with any other calls between them
/// (none of which moves the counter), hands out distinct ids as
/// long as fewer than 2^32 ids have been handed out since the counter was at
/// `next`; when the table's ids were all below `next`, none of them is an id the
/// table had.
pub proof fn lemma_started_ids_distinct(table: Map<u32, ProcessInfo>, next: u32, n: nat)
    requires
        next + n <= u32::MAX + 1,
    ensures
        forall|i: nat, j: nat|
            i < j < n ==> #[trigger] counter_after(next, i) != #[trigger] counter_after(next, j),
        (forall|id: u32| #[trigger] table.contains_key(id) ==> id < next) ==> forall|i: nat|
            i < n ==> !table.contains_key(#[trigger] counter_after(next, i)),
{
    lemma_counter_after(next, n);
}

/// When the manager's own child ends, the entry records exactly the exit code
/// the child gave (`-1` when it gave none) and keeps everything else; so an entry
/// with automatic restart on is always ordered to restart after its child ended,
/// whatever the code, and one with it off never is.
pub proof fn lemma_child_exit_recorded(info: ProcessInfo, code: Option<i32>)
    requires
        info.process == ProcessHandle::Managed,
    ensures
        observed(info, ProcessObservation::ChildExited(code)).status == ProcessStatus::Exited(
            code.unwrap_or(-1i32),
        ),
        observed(info, ProcessObservation::ChildExited(code)).process == ProcessHandle::Managed,
        observed(info, ProcessObservation::ChildExited(code)).command == info.command,
        observed(info, ProcessObservation::ChildExited(code)).args == info.args,
        observed(info, ProcessObservation::ChildExited(code)).auto_restart == info.auto_restart,
        observed(info, ProcessObservation::ChildExited(code)).creator == info.creator,
        observed(info, ProcessObservation::ChildExited(code)).created_time == info.created_time,
        wants_restart(observed(info, ProcessObservation::ChildExited(code))) == info.auto_restart,
{
}

/// A process that the monitor spawned and whose child then ended with any code
/// is restarted on that round exactly when automatic restart is on, and the
/// restart order hands over the ended child to be reaped.
pub proof fn lemma_spawned_then_exited(info: ProcessInfo, c: i32)
    ensures
        observed(after_spawn(info, true), ProcessObservation::ChildExited(Some(c))).status
            == ProcessStatus::Exited(c),
        wants_restart(observed(after_spawn(info, true), ProcessObservation::ChildExited(Some(c))))
            == info.auto_restart,
        restart_prepared(observed(after_spawn(info, true), ProcessObservation::ChildExited(Some(c)))).status
            == ProcessStatus::Exited(c),
        observed(after_spawn(info, true), ProcessObservation::ChildExited(Some(c))).process
            == ProcessHandle::Managed,
{
}

/// What each observation does to an entry: a managed child that runs makes it
/// `Running` and one whose state cannot be read makes it `Exited(-1)`; an adopted
/// process that is present makes it `Running`, one that is gone makes it
/// `Exited(-1)` and drops the pid; an observation about the other kind of handle,
/// or about an entry with no process, changes nothing.
pub proof fn lemma_observation_effects(info: ProcessInfo, obs: ProcessObservation, pid: u32)
    ensures
        info.process == ProcessHandle::Managed ==> observed(info, ProcessObservation::ChildRunning)
            == (ProcessInfo { status: ProcessStatus::Running, ..info }),
        info.process == ProcessHandle::Managed ==> observed(info, ProcessObservation::ChildUnknown)
            == (ProcessInfo { status: ProcessStatus::Exited(-1i32), ..info }),
        info.process == ProcessHandle::Managed && (obs is DuedAlive || obs is DuedGone || obs is Nothing)
            ==> observed(info, obs) == info,
        info.process == ProcessHandle::Dued(pid) ==> observed(info, ProcessObservation::DuedAlive)
            == (ProcessInfo { status: ProcessStatus::Running, ..info }),
        info.process == ProcessHandle::Dued(pid) ==> observed(info, ProcessObservation::DuedGone)
            == (ProcessInfo {
                status: ProcessStatus::Exited(-1i32),
                process: ProcessHandle::NoProcess,
                ..info
            }),
        info.process == ProcessHandle::Dued(pid) && !(obs is DuedAlive || obs is DuedGone)
            ==> observed(info, obs) == info,
        info.process == ProcessHandle::NoProcess ==> observed(info, obs) == info,
{
}

} // verus!
