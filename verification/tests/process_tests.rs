use senka_panel::process_manager::{ProcessHandle, ProcessInfo, ProcessManager, ProcessObservation, ProcessStatus};
use senka_panel::process_monitor::{ChildObservation, ProcessMonitor, ProcessStatus as MonitorStatus};
use senka_panel::senka_error::SenkaErrorCode;

fn args(list: &[&str]) -> Vec<String> {
    list.iter().map(|s| s.to_string()).collect()
}

#[test]
fn started_process_waits_for_the_monitor() {
    let mut manager = ProcessManager::new();
    assert_eq!(manager.check_interval(), 1);
    let id = manager.start("cmd".to_string(), args(&["/c", "echo hello world"]), true, "test".to_string(), 5).unwrap();
    assert_eq!(id, 0);
    let info = manager.info(id).unwrap();
    assert_eq!(info.status, ProcessStatus::NotCreated);
    assert_eq!(info.process, ProcessHandle::NoProcess);
    assert_eq!(info.command, "cmd");
    assert_eq!(info.args, args(&["/c", "echo hello world"]));
    assert_eq!(info.creator, "test");
    assert_eq!(info.created_time, 5);
    let order = manager.monitor_entry(id, ProcessObservation::Nothing).unwrap();
    assert_eq!(order.command, "cmd");
    assert_eq!(order.args, args(&["/c", "echo hello world"]));
    assert_eq!(order.old_process, ProcessHandle::NoProcess);
    manager.finish_restart(id, true);
    let info = manager.info(id).unwrap();
    assert_eq!(info.status, ProcessStatus::Running);
    assert_eq!(info.process, ProcessHandle::Managed);
    assert!(manager.monitor_entry(id, ProcessObservation::ChildRunning).is_none());
}

#[test]
fn ids_are_handed_out_in_order() {
    let mut manager = ProcessManager::new();
    assert_eq!(manager.start("a".to_string(), vec![], false, String::new(), 0).unwrap(), 0);
    assert_eq!(manager.start("b".to_string(), vec![], false, String::new(), 0).unwrap(), 1);
    assert_eq!(manager.start("c".to_string(), vec![], false, String::new(), 0).unwrap(), 2);
    let mut ids = manager.ids();
    ids.sort();
    assert_eq!(ids, vec![0, 1, 2]);
}

#[test]
fn exited_process_restarts_only_with_auto_restart() {
    let mut manager = ProcessManager::new();
    let auto = manager.start("auto".to_string(), vec![], true, String::new(), 0).unwrap();
    let manual = manager.start("manual".to_string(), vec![], false, String::new(), 0).unwrap();
    for id in [auto, manual] {
        manager.monitor_entry(id, ProcessObservation::Nothing).unwrap();
        manager.finish_restart(id, true);
    }
    let order = manager.monitor_entry(auto, ProcessObservation::ChildExited(Some(3))).unwrap();
    assert_eq!(order.old_process, ProcessHandle::Managed);
    assert_eq!(manager.info(auto).unwrap().status, ProcessStatus::Exited(3));
    assert!(manager.monitor_entry(manual, ProcessObservation::ChildExited(None)).is_none());
    assert_eq!(manager.info(manual).unwrap().status, ProcessStatus::Exited(-1));
}

#[test]
fn failed_spawn_is_retried() {
    let mut manager = ProcessManager::new();
    let id = manager.start("missing-binary".to_string(), vec![], false, String::new(), 0).unwrap();
    manager.monitor_entry(id, ProcessObservation::Nothing).unwrap();
    manager.finish_restart(id, false);
    assert_eq!(manager.info(id).unwrap().status, ProcessStatus::NotCreated);
    assert!(manager.monitor_entry(id, ProcessObservation::Nothing).is_some());
}

#[test]
fn killed_process_stays_stopped() {
    let mut manager = ProcessManager::new();
    let id = manager.start("srv".to_string(), vec![], true, String::new(), 0).unwrap();
    manager.monitor_entry(id, ProcessObservation::Nothing).unwrap();
    manager.finish_restart(id, true);
    assert_eq!(manager.kill(id), ProcessHandle::Managed);
    let info = manager.info(id).unwrap();
    assert_eq!(info.status, ProcessStatus::Stopped);
    assert_eq!(info.process, ProcessHandle::NoProcess);
    assert!(manager.monitor_entry(id, ProcessObservation::ChildExited(Some(0))).is_none());
    assert_eq!(manager.info(id).unwrap().status, ProcessStatus::Stopped);
    assert_eq!(manager.kill(42), ProcessHandle::NoProcess);
}

#[test]
fn remove_refuses_running_process() {
    let mut manager = ProcessManager::new();
    manager.start("a".to_string(), vec![], false, String::new(), 0).unwrap();
    let id = manager.start("b".to_string(), vec![], false, String::new(), 0).unwrap();
    manager.monitor_entry(id, ProcessObservation::Nothing).unwrap();
    manager.finish_restart(id, true);
    let err = manager.remove(id).unwrap_err();
    assert_eq!(err.senka_error_code, SenkaErrorCode::Inner);
    assert_eq!(err.error_message, "process 1 is still running, cannot remove");
    assert!(manager.info(id).is_some());
    manager.kill(id);
    assert!(manager.remove(id).is_ok());
    assert!(manager.info(id).is_none());
    assert!(manager.remove(77).is_ok());
}

#[test]
fn restart_of_unknown_id_is_an_error() {
    let mut manager = ProcessManager::new();
    let err = manager.restart_by_id(99).unwrap_err();
    assert_eq!(err.senka_error_code, SenkaErrorCode::Arguement);
    assert_eq!(err.error_message, "Process with id[99] not exists");
    let id = manager.start("x".to_string(), args(&["-v"]), false, String::new(), 0).unwrap();
    let order = manager.restart_by_id(id).unwrap();
    assert_eq!(order.command, "x");
    assert_eq!(order.args, args(&["-v"]));
}

#[test]
fn adopted_process_is_followed_by_pid() {
    let mut manager = ProcessManager::new();
    assert!(!manager.has_adopted_process());
    let gone = ProcessInfo::from_dued(4243, false, "daemon".to_string(), vec![], true, "ops".to_string(), 1);
    assert_eq!(gone.process, ProcessHandle::Dued(4243));
    assert_eq!(gone.status, ProcessStatus::NotCreated);
    let info = ProcessInfo::from_dued(4242, true, "daemon".to_string(), vec![], true, "ops".to_string(), 1);
    assert_eq!(info.process, ProcessHandle::Dued(4242));
    assert_eq!(info.status, ProcessStatus::Running);
    assert_eq!(info.command, "daemon");
    assert_eq!(info.creator, "ops");
    assert!(info.auto_restart);
    let mut entry = info;
    senka_panel::process_manager::observe_entry(&mut entry, ProcessObservation::DuedAlive);
    assert_eq!(entry.status, ProcessStatus::Running);
    senka_panel::process_manager::observe_entry(&mut entry, ProcessObservation::DuedGone);
    assert_eq!(entry.status, ProcessStatus::Exited(-1));
    assert_eq!(entry.process, ProcessHandle::NoProcess);
}

#[test]
fn monitor_follows_children() {
    let mut monitor = ProcessMonitor::new();
    let a = monitor.start("a".to_string(), "me".to_string(), true, 0).unwrap();
    let b = monitor.start("b".to_string(), "me".to_string(), false, 0).unwrap();
    assert_eq!((a, b), (0, 1));
    assert!(monitor.has_process(a));
    assert!(!monitor.has_process(b));
    monitor.monitor_entry(a, ChildObservation::Running);
    assert!(monitor.has_process(a));
    monitor.monitor_entry(a, ChildObservation::Exited(Some(2)));
    assert!(!monitor.has_process(a));
    let err = monitor.remove(7);
    assert!(err.is_ok());
    let request = monitor.begin_restart(a).unwrap();
    assert_eq!(request.command, "a");
    assert!(!request.had_process);
    monitor.finish_restart(a, true);
    assert!(monitor.has_process(a));
    let err = monitor.remove(a).unwrap_err();
    assert_eq!(err.error_message, "process 0 is still running, cannot remove");
    assert!(monitor.kill(a));
    assert!(!monitor.kill(a));
    let err = monitor.begin_restart(5).unwrap_err();
    assert_eq!(err.error_message, "Process with id[5] not exists");
    let fresh = senka_panel::process_monitor::ProcessInfo::new(false, "c".to_string(), String::new(), 0);
    assert_eq!(fresh.status, MonitorStatus::NotCreated);
}

#[test]
fn live_adopted_process_is_not_restarted() {
    let mut manager = ProcessManager::new();
    let info = ProcessInfo::from_dued(77, true, "daemon".to_string(), vec![], true, "ops".to_string(), 1);
    manager.process_infos.insert(5, info);
    assert!(manager.has_adopted_process());
    assert!(manager.monitor_entry(5, ProcessObservation::DuedAlive).is_none());
    assert_eq!(manager.info(5).unwrap().status, ProcessStatus::Running);
    let gone = ProcessInfo::from_dued(78, false, "daemon".to_string(), vec![], true, "ops".to_string(), 1);
    manager.process_infos.insert(6, gone);
    let order = manager.monitor_entry(6, ProcessObservation::Nothing).unwrap();
    assert_eq!(order.old_process, ProcessHandle::Dued(78));
}

#[test]
fn ids_are_not_reused_after_removal() {
    let mut manager = ProcessManager::new();
    let a = manager.start("a".to_string(), vec![], false, String::new(), 0).unwrap();
    manager.remove(a).unwrap();
    let b = manager.start("b".to_string(), vec![], false, String::new(), 0).unwrap();
    assert_ne!(a, b);
    let mut monitor = ProcessMonitor::new();
    let c = monitor.start("c".to_string(), "me".to_string(), false, 0).unwrap();
    monitor.remove(c).unwrap();
    let d = monitor.start("d".to_string(), "me".to_string(), false, 0).unwrap();
    assert_ne!(c, d);
}
