//! Tasks: saved commands with their arguments, the record that stores them
//! (arguments as a JSON list), and starting, stopping and restarting them through
//! the process manager.
use vstd::prelude::*;
use crate::process_manager::{
    clone_args, killed, next_index, restart_order_matches, restart_prepared, ProcessHandle,
    ProcessInfo, ProcessManager, ProcessStatus, RestartOrder,
};
use crate::senka_error::SenkaError;

verus! {

/// The texts of a list of strings.
pub open spec fn strings_view(list: Seq<String>) -> Seq<Seq<char>> {
    list.map_values(|s: String| s@)
}

/// What serde_json reads from a JSON text as a list of strings, if it reads one.
pub uninterp spec fn json_string_list(text: Seq<char>) -> Option<Seq<Seq<char>>>;

/// The JSON text that serde_json writes for a list of strings.
pub uninterp spec fn json_text_of_strings(list: Seq<Seq<char>>) -> Seq<char>;

/// `serde_json::from_str::<Vec<String>>`: the list of strings that a JSON text
/// holds, or `None` where the text is not a JSON array of strings.
#[verifier::external_body]
fn parse_string_list(text: &str) -> (res: Option<Vec<String>>)
    ensures
        res is Some <==> json_string_list(text@) is Some,
        res matches Some(list) ==> strings_view(list@) == json_string_list(text@).unwrap(),
{
    serde_json::from_str::<Vec<String>>(text).ok()
}

/// `serde_json::to_string` on a list of strings. The contract claims that it
/// never fails (a list of strings holds no map and no failing `Serialize`) and
/// that reading the text back gives the list again.
#[verifier::external_body]
fn string_list_to_json(list: &Vec<String>) -> (res: Option<String>)
    ensures
        res is Some,
        res matches Some(text) ==> text@ == json_text_of_strings(strings_view(list@)),
        res matches Some(text) ==> json_string_list(text@) == Some(strings_view(list@)),
{
    serde_json::to_string(list).ok()
}

/// The stored record of a task; its arguments are kept as a JSON list.
#[derive(Debug)]
pub struct Model {
    pub id: u32,
    pub task_name: String,
    pub command: String,
    pub args: String,
    pub icon_url: String,
    pub keep_alive: bool,
    pub index: u32,
}

/// A task, with the id of the process that runs it, if any.
#[derive(Debug)]
pub struct Task {
    pub id: u32,
    pub task_name: String,
    pub command: String,
    pub args: Vec<String>,
    pub icon_url: String,
    pub keep_alive: bool,
    pub index: u32,
    pub associated_process: Option<u32>,
}

/// `model` is the record that stores `task`: the same fields, the arguments
/// written as JSON, and that JSON reads back as the same arguments.
pub open spec fn stored_as(task: Task, model: Model) -> bool {
    &&& model.id == task.id
    &&& model.task_name@ == task.task_name@
    &&& model.command@ == task.command@
    &&& model.args@ == json_text_of_strings(strings_view(task.args@))
    &&& json_string_list(model.args@) == Some(strings_view(task.args@))
    &&& model.icon_url@ == task.icon_url@
    &&& model.keep_alive == task.keep_alive
    &&& model.index == task.index
}

/// `task` is the task read from `model`: the same fields, the arguments read
/// from their JSON (none where it is not a list of strings), and no process.
pub open spec fn read_back_as(model: Model, task: Task) -> bool {
    &&& task.id == model.id
    &&& task.task_name@ == model.task_name@
    &&& task.command@ == model.command@
    &&& strings_view(task.args@) == (match json_string_list(model.args@) {
        Some(list) => list,
        None => Seq::<Seq<char>>::empty(),
    })
    &&& task.icon_url@ == model.icon_url@
    &&& task.keep_alive == model.keep_alive
    &&& task.index == model.index
    &&& task.associated_process is None
}

/// The JSON text stored for a list of arguments.
fn args_to_json(args: &Vec<String>) -> (res: String)
    ensures
        res@ == json_text_of_strings(strings_view(args@)),
        json_string_list(res@) == Some(strings_view(args@)),
{
    match string_list_to_json(args) {
        Some(text) => text,
        None => String::new(),
    }
}

impl Model {
    /// The record for a task with these fields; the arguments are written as JSON.
    pub fn new(
        id: u32,
        task_name: String,
        command: String,
        args: Vec<String>,
        icon_url: String,
        keep_alive: bool,
        index: u32,
    ) -> (res: Self)
        ensures
            res.id == id,
            res.task_name@ == task_name@,
            res.command@ == command@,
            res.args@ == json_text_of_strings(strings_view(args@)),
            res.icon_url@ == icon_url@,
            res.keep_alive == keep_alive,
            res.index == index,
    {
        let args_json = args_to_json(&args);
        Model { id, task_name, command, args: args_json, icon_url, keep_alive, index }
    }
}

impl Task {
    /// The task that a stored record describes. Arguments that are not a JSON
    /// list of strings are read as no arguments; the task has no process yet.
    pub fn from_database_model(model: &Model) -> (res: Self)
        ensures
            read_back_as(*model, res),
    {
        let args: Vec<String> = match parse_string_list(model.args.as_str()) {
            Some(list) => list,
            None => {
                let empty: Vec<String> = Vec::new();
                assert(strings_view(empty@) =~= Seq::<Seq<char>>::empty());
                empty
            },
        };
        Task {
            id: model.id,
            task_name: model.task_name.clone(),
            command: model.command.clone(),
            args,
            icon_url: model.icon_url.clone(),
            keep_alive: model.keep_alive,
            index: model.index,
            associated_process: None,
        }
    }

    /// The record under which the task is stored.
    pub fn to_database_model(&self) -> (res: Model)
        ensures
            stored_as(*self, res),
    {
        Model {
            id: self.id,
            task_name: self.task_name.clone(),
            command: self.command.clone(),
            args: args_to_json(&self.args),
            icon_url: self.icon_url.clone(),
            keep_alive: self.keep_alive,
            index: self.index,
        }
    }
}

/// Storing a task and reading the record back gives the same task, except that
/// the task read back has no process.
pub proof fn lemma_task_round_trip(task: Task, model: Model, back: Task)
    requires
        stored_as(task, model),
        read_back_as(model, back),
    ensures
        back.id == task.id,
        back.task_name@ == task.task_name@,
        back.command@ == task.command@,
        strings_view(back.args@) == strings_view(task.args@),
        back.icon_url@ == task.icon_url@,
        back.keep_alive == task.keep_alive,
        back.index == task.index,
        back.associated_process is None,
{
}

/// The process entry that starting a task registers: the task's command and
/// arguments, no automatic restart, an empty creator, not created yet.
pub open spec fn registered_for_task(info: ProcessInfo, task: Task, created_time: i64) -> bool {
    &&& info.status == ProcessStatus::NotCreated
    &&& info.process == ProcessHandle::NoProcess
    &&& info.command@ == task.command@
    &&& info.args@ == task.args@
    &&& !info.auto_restart
    &&& info.creator@.len() == 0
    &&& info.created_time == created_time
}

/// Starts a task: registers its command with the process manager (the monitor
/// creates the process on its next round) and records the process id in the task.
pub fn start_task(manager: &mut ProcessManager, task: &mut Task, created_time: i64) -> (res: Result<(), SenkaError>)
    ensures
        res is Ok,
        final(task).associated_process == Some(old(manager).next_id()),
        final(task).id == old(task).id,
        final(task).task_name == old(task).task_name,
        final(task).command == old(task).command,
        final(task).args == old(task).args,
        final(task).icon_url == old(task).icon_url,
        final(task).keep_alive == old(task).keep_alive,
        final(task).index == old(task).index,
        final(manager).table() == old(manager).table().insert(
            old(manager).next_id(),
            final(manager).table()[old(manager).next_id()],
        ),
        registered_for_task(final(manager).table()[old(manager).next_id()], *old(task), created_time),
        final(manager).next_id() == next_index(old(manager).next_id()),
        old(manager).ids_below_next() ==> !old(manager).table().contains_key(old(manager).next_id()),
        old(manager).ids_below_next() && old(manager).next_id() < u32::MAX
            ==> final(manager).ids_below_next(),
{
    let result = manager.start(task.command.clone(), clone_args(&task.args), false, String::new(), created_time);
    match result {
        Ok(process_info_id) => {
            task.associated_process = Some(process_info_id);
            Ok(())
        },
        Err(e) => Err(e),
    }
}

/// Stops the process of a task, if it has one (see [`ProcessManager::kill`]).
/// Returns the handle that the process held, for the caller to kill.
pub fn stop_task(manager: &mut ProcessManager, task: &Task) -> (res: ProcessHandle)
    ensures
        match task.associated_process {
            Some(id) => if old(manager).table().contains_key(id) {
                &&& final(manager).table() == old(manager).table().insert(id, killed(old(manager).table()[id]))
                &&& res == old(manager).table()[id].process
            } else {
                &&& final(manager).table() == old(manager).table()
                &&& res == ProcessHandle::NoProcess
            },
            None => final(manager).table() == old(manager).table() && res == ProcessHandle::NoProcess,
        },
        final(manager).next_id() == old(manager).next_id(),
        old(manager).ids_below_next() ==> final(manager).ids_below_next(),
{
    match task.associated_process {
        Some(associated_process) => manager.kill(associated_process),
        None => ProcessHandle::NoProcess,
    }
}

/// Restarts a task. A task with a process has that process restarted: the
/// order is returned when the process is still in the table, and a process that
/// is gone is passed over. A task without a process is started instead.
pub fn restart_task(manager: &mut ProcessManager, task: &mut Task, created_time: i64) -> (res: Result<
    Option<RestartOrder>,
    SenkaError,
>)
    ensures
        res is Ok,
        match old(task).associated_process {
            Some(id) => {
                &&& *final(task) == *old(task)
                &&& final(manager).next_id() == old(manager).next_id()
                &&& if old(manager).table().contains_key(id) {
                    &&& final(manager).table() == old(manager).table().insert(
                        id,
                        restart_prepared(old(manager).table()[id]),
                    )
                    &&& res matches Ok(Some(order)) && restart_order_matches(order, old(manager).table()[id])
                } else {
                    &&& final(manager).table() == old(manager).table()
                    &&& res matches Ok(None)
                }
            },
            None => {
                &&& res matches Ok(None)
                &&& final(task).associated_process == Some(old(manager).next_id())
                &&& final(manager).table() == old(manager).table().insert(
                    old(manager).next_id(),
                    final(manager).table()[old(manager).next_id()],
                )
                &&& registered_for_task(final(manager).table()[old(manager).next_id()], *old(task), created_time)
                &&& final(manager).next_id() == next_index(old(manager).next_id())
            },
        },
        old(manager).ids_below_next() && old(manager).next_id() < u32::MAX
            ==> final(manager).ids_below_next(),
{
    match task.associated_process {
        Some(associated_process) => {
            match manager.restart_by_id(associated_process) {
                Ok(order) => Ok(Some(order)),
                Err(_) => Ok(None),
            }
        },
        None => {
            match start_task(manager, task, created_time) {
                Ok(()) => Ok(None),
                Err(e) => Err(e),
            }
        },
    }
}

} // verus!
