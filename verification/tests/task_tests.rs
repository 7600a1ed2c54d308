use senka_panel::fast_command::{new_fast_command_model, FastCommand, FastCommandLaunch};
use senka_panel::process_manager::{ProcessHandle, ProcessManager, ProcessObservation, ProcessStatus};
use senka_panel::task::{restart_task, start_task, stop_task, Model, Task};

fn strings(list: &[&str]) -> Vec<String> {
    list.iter().map(|s| s.to_string()).collect()
}

#[test]
fn task_record_stores_arguments_as_json() {
    let model = Model::new(1, "build".to_string(), "cargo".to_string(), strings(&["build", "say \"hi\""]), "icon".to_string(), true, 3);
    assert_eq!(model.args, "[\"build\",\"say \\\"hi\\\"\"]");
    let task = Task::from_database_model(&model);
    assert_eq!(task.args, strings(&["build", "say \"hi\""]));
    assert_eq!(task.id, 1);
    assert_eq!(task.task_name, "build");
    assert!(task.keep_alive);
    assert_eq!(task.index, 3);
    assert!(task.associated_process.is_none());
    let back = task.to_database_model();
    assert_eq!(back.args, model.args);
    assert_eq!(back.icon_url, "icon");
}

#[test]
fn unreadable_arguments_are_empty() {
    let model = Model { id: 2, task_name: "t".to_string(), command: "c".to_string(), args: "not json".to_string(), icon_url: String::new(), keep_alive: false, index: 0 };
    assert!(Task::from_database_model(&model).args.is_empty());
    let model = Model { args: "[1, 2]".to_string(), ..model };
    assert!(Task::from_database_model(&model).args.is_empty());
}

#[test]
fn tasks_run_through_the_manager() {
    let mut manager = ProcessManager::new();
    let mut task = Task { id: 1, task_name: "t".to_string(), command: "ls".to_string(), args: strings(&["-l"]), icon_url: String::new(), keep_alive: false, index: 0, associated_process: None };
    start_task(&mut manager, &mut task, 9).unwrap();
    assert_eq!(task.associated_process, Some(0));
    let info = manager.info(0).unwrap();
    assert_eq!(info.command, "ls");
    assert_eq!(info.args, strings(&["-l"]));
    assert!(!info.auto_restart);
    assert_eq!(info.creator, "");
    manager.monitor_entry(0, ProcessObservation::Nothing).unwrap();
    manager.finish_restart(0, true);
    let order = restart_task(&mut manager, &mut task, 9).unwrap().unwrap();
    assert_eq!(order.old_process, ProcessHandle::Managed);
    manager.finish_restart(0, true);
    assert_eq!(stop_task(&mut manager, &task), ProcessHandle::Managed);
    assert_eq!(manager.info(0).unwrap().status, ProcessStatus::Stopped);
    let mut idle = Task { associated_process: None, ..task };
    assert!(restart_task(&mut manager, &mut idle, 1).unwrap().is_none());
    assert_eq!(idle.associated_process, Some(1));
    let mut gone = Task { associated_process: Some(50), ..idle };
    assert!(restart_task(&mut manager, &mut gone, 1).unwrap().is_none());
    assert_eq!(stop_task(&mut manager, &gone), ProcessHandle::NoProcess);
}

#[test]
fn fast_command_records() {
    let model = new_fast_command_model(0xa1a2a3a4b1b2c1c2d1d2d3d4d5d6d7d8, "list".to_string(), "ls -la".to_string(), "icon.png".to_string(), false, 4);
    assert_eq!(model.uuid, "a1a2a3a4-b1b2-c1c2-d1d2-d3d4d5d6d7d8");
    let zero = new_fast_command_model(0, String::new(), String::new(), String::new(), true, 0);
    assert_eq!(zero.uuid, "00000000-0000-0000-0000-000000000000");
    let command = FastCommand::from_database_model(&model);
    assert_eq!(command.command_value, "ls -la");
    assert_eq!(command.index, 4);
    let back = command.to_database_model();
    assert_eq!(back.uuid, model.uuid);
    match command.launch_plan() {
        FastCommandLaunch::Raw { command } => assert_eq!(command, "ls -la"),
        FastCommandLaunch::Monitored { .. } => panic!("a command that is not kept alive runs once"),
    }
    let kept = FastCommand { keep_alive: true, ..command };
    match kept.launch_plan() {
        FastCommandLaunch::Monitored { command, creator } => {
            assert_eq!(command, "ls -la");
            assert_eq!(creator, "");
        }
        FastCommandLaunch::Raw { .. } => panic!("a kept-alive command is monitored"),
    }
}
