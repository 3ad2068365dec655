use cudgel::orchestrator::{restart_step, RestartAction, RestartEvent};
use cudgel::config::xdg_state_home;
use cudgel::error::Error;
use cudgel::orchestrator::{
    check_can_start, log_file_path, pid_file_path, read_pid, restart_daemon, stop_step,
    stop_target, task_step, ClaimedTask, DaemonAction, StopStep, TaskAction, TaskEvent, TaskRun,
};

#[test]
fn test_pid_file_path_construction() {
    let pid_file = pid_file_path(&xdg_state_home(None, Some("/home/u".to_string())));
    assert!(pid_file.contains("cudgel"));
    assert!(pid_file.ends_with("orchestrator.pid"));
    assert!(pid_file.starts_with('/'));
}

#[test]
fn test_log_file_path_construction() {
    let log_file = log_file_path(&xdg_state_home(None, Some("/home/u".to_string())));
    assert!(log_file.contains("cudgel"));
    assert!(log_file.ends_with("orchestrator.log"));
    assert!(log_file.starts_with('/'));
    assert_eq!(log_file, "/home/u/.local/state/cudgel/orchestrator.log");
}

#[test]
fn pid_files_hold_a_pid() {
    assert_eq!(read_pid("1234\n").unwrap(), 1234);
    assert!(matches!(read_pid("abc"), Err(Error::InvalidPidFile(_))));
    assert!(matches!(read_pid(""), Err(Error::InvalidPidFile(_))));
    assert!(matches!(read_pid("99999999999"), Err(Error::InvalidPidFile(_))));
}

#[test]
fn daemon_start_stop_and_restart() {
    assert!(check_can_start(None).is_ok());
    assert!(matches!(check_can_start(Some(42)), Err(Error::OrchestratorAlreadyRunning(42))));
    assert!(matches!(stop_target(None), Err(Error::OrchestratorNotRunning)));
    assert_eq!(stop_target(Some(7)).unwrap(), 7);
    assert_eq!(restart_daemon(Some(7)), vec![DaemonAction::Stop, DaemonAction::Start]);
    assert_eq!(restart_daemon(None), vec![DaemonAction::Start]);
    assert_eq!(stop_step(0, false), StopStep::Stopped);
    assert_eq!(stop_step(0, true), StopStep::Wait);
    assert_eq!(stop_step(48, true), StopStep::Wait);
    assert_eq!(stop_step(49, true), StopStep::Wait);
    assert_eq!(stop_step(49, false), StopStep::Stopped);
    assert_eq!(stop_step(50, true), StopStep::ForceKill);
    assert_eq!(stop_step(50, false), StopStep::ForceKill);
}

#[test]
fn a_due_task_runs_to_a_success() {
    let t = ClaimedTask { id: 5, repo_id: 9, interval_hours: 24 };
    let (s, a) = task_step(TaskRun::Claiming, TaskEvent::Claimed(t));
    assert_eq!(a, TaskAction::LookUpRepository(9));
    let (s, a) = task_step(s, TaskEvent::RepositoryFound("/r".to_string()));
    assert_eq!(a, TaskAction::CreateIndexer);
    let (s, a) = task_step(s, TaskEvent::IndexerReady);
    assert_eq!(a, TaskAction::IndexRepository("/r".to_string()));
    let (s, a) = task_step(s, TaskEvent::Indexed);
    assert_eq!(a, TaskAction::Complete { task_id: 5, interval_hours: 24 });
    assert_eq!(s, TaskRun::Finished);
}

#[test]
fn task_failures_are_recorded_with_their_reason() {
    let t = ClaimedTask { id: 5, repo_id: 9, interval_hours: 24 };
    let (_, a) = task_step(TaskRun::LookingUp(t), TaskEvent::RepositoryMissing);
    assert_eq!(a, TaskAction::Fail { task_id: 5, message: "Repository not found".to_string() });
    let (_, a) = task_step(TaskRun::LookingUp(t), TaskEvent::RepositoryLookupFailed("boom".to_string()));
    assert_eq!(a, TaskAction::Fail { task_id: 5, message: "Database error: boom".to_string() });
    let (_, a) = task_step(TaskRun::Preparing(t, "/r".to_string()), TaskEvent::IndexerFailed("no model".to_string()));
    assert_eq!(a, TaskAction::Fail { task_id: 5, message: "Indexer creation failed: no model".to_string() });
    let (_, a) = task_step(TaskRun::Indexing(t), TaskEvent::IndexFailed("disk".to_string()));
    assert_eq!(a, TaskAction::Fail { task_id: 5, message: "Indexing failed: disk".to_string() });
    let (s, a) = task_step(TaskRun::Claiming, TaskEvent::NotClaimed);
    assert_eq!((s, a), (TaskRun::Finished, TaskAction::Skip));
}

#[test]
fn a_restart_stops_first_and_ends_on_errors() {
    assert!(matches!(restart_step(RestartEvent::Checked(Ok(Some(7)))), RestartAction::Stop));
    assert!(matches!(restart_step(RestartEvent::Checked(Ok(None))), RestartAction::Start));
    assert!(matches!(
        restart_step(RestartEvent::Checked(Err(Error::InvalidPidFile("x".to_string())))),
        RestartAction::Finish(Err(Error::InvalidPidFile(_)))
    ));
    assert!(matches!(restart_step(RestartEvent::Stopped(Ok(()))), RestartAction::Start));
    assert!(matches!(
        restart_step(RestartEvent::Stopped(Err(Error::OrchestratorNotRunning))),
        RestartAction::Finish(Err(Error::OrchestratorNotRunning))
    ));
    assert!(matches!(restart_step(RestartEvent::Started(Ok(()))), RestartAction::Finish(Ok(()))));
}

#[test]
fn pid_errors_carry_the_text_of_std_parse() {
    for input in ["", "+", "-5", "12a", "99999999999", " +42 ", "4294967295", "4294967296"] {
        let expected = input.trim().parse::<u32>().map_err(|e| e.to_string());
        match (read_pid(input), expected) {
            (Ok(pid), Ok(v)) => assert_eq!(pid, v),
            (Err(Error::InvalidPidFile(m)), Err(e)) => assert_eq!(m, e, "input {:?}", input),
            (got, want) => panic!("input {:?}: got {:?}, std gives {:?}", input, got, want),
        }
    }
}
