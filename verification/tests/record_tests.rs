use cudgel::config::xdg_state_home;
use cudgel::database::{Repository, ScheduledTask};
use cudgel::paths::join_path;

#[test]
fn test_scheduled_task_struct_creation() {
    let now: i64 = 1_700_000_000;
    let task = ScheduledTask {
        id: 1,
        repo_id: 10,
        interval_hours: 24,
        last_run_at: Some(now),
        next_run_at: now + 24 * 3600,
        status: "idle".to_string(),
        version: 1,
        retry_count: 0,
        error_message: None,
        created_at: now,
    };

    assert_eq!(task.id, 1);
    assert_eq!(task.repo_id, 10);
    assert_eq!(task.interval_hours, 24);
    assert_eq!(task.status, "idle");
    assert_eq!(task.version, 1);
    assert_eq!(task.retry_count, 0);
    assert!(task.last_run_at.is_some());
    assert!(task.error_message.is_none());
}

#[test]
fn test_repository_struct_creation() {
    let now: i64 = 1_700_000_000;
    let repo = Repository {
        id: 1,
        path: "/test/path".to_string(),
        name: "test_repo".to_string(),
        indexed_at: now,
        last_updated: now,
        metadata: "{}".to_string(),
    };

    assert_eq!(repo.id, 1);
    assert_eq!(repo.path, "/test/path");
    assert_eq!(repo.name, "test_repo");
    assert_eq!(repo.indexed_at, now);
    assert_eq!(repo.last_updated, now);
}

#[test]
fn test_orchestrator_pid_file_location() {
    let state_home = xdg_state_home(None, Some("/home/dev".to_string()));
    let expected_pid_dir = join_path(&state_home, "cudgel");
    let expected_pid_file = join_path(&expected_pid_dir, "orchestrator.pid");

    assert!(expected_pid_file.contains("cudgel"));
    assert!(expected_pid_file.ends_with("orchestrator.pid"));
    assert_eq!(expected_pid_file, "/home/dev/.local/state/cudgel/orchestrator.pid");
}
