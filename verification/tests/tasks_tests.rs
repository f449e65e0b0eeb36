use wtga::tasks::{cancel_write_kill_list, cancel_write_request, is_cancelled, TaskManager};

#[test]
fn registered_task_starts_uncancelled() {
    let mut m = TaskManager::new();
    m.register_task("task-1".to_string());
    assert!(!is_cancelled(&m, "task-1"));
}

#[test]
fn cancel_request_is_seen() {
    let mut m = TaskManager::new();
    m.register_task("task-1".to_string());
    m.register_task("task-2".to_string());
    assert!(m.cancel_task("task-1"));
    assert!(is_cancelled(&m, "task-1"));
    assert!(!is_cancelled(&m, "task-2"));
}

#[test]
fn cancel_of_unknown_task_is_refused() {
    let mut m = TaskManager::new();
    assert!(!m.cancel_task("nope"));
    assert!(!is_cancelled(&m, "nope"));
}

#[test]
fn unregistered_task_cannot_be_cancelled() {
    let mut m = TaskManager::new();
    m.register_task("t".to_string());
    m.unregister_task("t");
    assert!(!m.cancel_task("t"));
}

#[test]
fn registering_again_resets_the_flag() {
    let mut m = TaskManager::new();
    m.register_task("t".to_string());
    m.cancel_task("t");
    m.register_task("t".to_string());
    assert!(!is_cancelled(&m, "t"));
}

#[test]
fn blank_cancel_request_cancels_every_task() {
    let mut m = TaskManager::new();
    assert!(!cancel_write_request(&mut m, "  "));
    m.register_task("a".to_string());
    m.register_task("b".to_string());
    assert!(cancel_write_request(&mut m, ""));
    assert!(is_cancelled(&m, "a"));
    assert!(is_cancelled(&m, "b"));
    assert!(!cancel_write_request(&mut m, "c"));
    assert_eq!(m.cancel_all_tasks(), 2);
}

#[test]
fn programs_stopped_on_cancel() {
    assert_eq!(cancel_write_kill_list(), vec!["dism.exe", "diskpart.exe", "imagex_x86.exe", "imagex_amd64.exe"]);
}
