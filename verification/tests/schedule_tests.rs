use cudgel::cli::{describe_interval, parse_schedule, validate_depth, validate_limit};
use cudgel::database::{next_run_after, record_task_failure, retry_at, FailureOutcome};
use cudgel::error::Error;

#[test]
fn schedules_name_intervals() {
    assert_eq!(parse_schedule("hourly").unwrap(), 1);
    assert_eq!(parse_schedule("daily").unwrap(), 24);
    assert_eq!(parse_schedule("weekly").unwrap(), 168);
    assert_eq!(parse_schedule("48").unwrap(), 48);
    assert_eq!(parse_schedule("+8760").unwrap(), 8760);
}

#[test]
fn schedules_out_of_range_or_unreadable_are_refused() {
    match parse_schedule("monthly") {
        Err(Error::Other(m)) => assert_eq!(
            m,
            "Invalid schedule: 'monthly'. Use 'hourly', 'daily', 'weekly', or a number of hours (1-8760)"
        ),
        _ => panic!("expected an error"),
    }
    for s in ["0", "8761", "-5"] {
        match parse_schedule(s) {
            Err(Error::Other(m)) => {
                assert_eq!(m, "Schedule interval must be between 1 and 8760 hours (1 year)")
            }
            _ => panic!("expected an error"),
        }
    }
    assert!(matches!(parse_schedule("99999999999"), Err(Error::Other(_))));
}

#[test]
fn intervals_are_described_with_their_plural() {
    assert_eq!(describe_interval(1), "every 1 hour");
    assert_eq!(describe_interval(24), "every 24 hours");
}

#[test]
fn test_interval_hours_calculation() {
    let interval_hours = 24;
    let now: i64 = 1_700_000_000;
    let next_run = next_run_after(now, interval_hours);
    assert_eq!((next_run - now) / 3600, interval_hours as i64);
}

#[test]
fn failures_back_off_then_give_up() {
    assert_eq!(record_task_failure(0), (1, FailureOutcome::Retry { backoff_minutes: 1 }));
    assert_eq!(record_task_failure(1), (2, FailureOutcome::Retry { backoff_minutes: 2 }));
    assert_eq!(record_task_failure(2), (3, FailureOutcome::Retry { backoff_minutes: 4 }));
    assert_eq!(record_task_failure(3), (4, FailureOutcome::Retry { backoff_minutes: 8 }));
    assert_eq!(record_task_failure(4), (5, FailureOutcome::GiveUp));
    assert_eq!(record_task_failure(9), (10, FailureOutcome::GiveUp));
    assert_eq!(retry_at(1000, 4), 1240);
}

#[test]
fn limits_and_depths_are_bounded() {
    assert_eq!(validate_limit("10"), Ok(10));
    assert_eq!(validate_limit("1000"), Ok(1000));
    assert_eq!(validate_limit("0"), Err("limit must be at least 1".to_string()));
    assert_eq!(validate_limit("1001"), Err("limit cannot exceed 1000".to_string()));
    assert_eq!(validate_limit("ten"), Err("'ten' is not a valid number".to_string()));
    assert_eq!(validate_depth("3"), Ok(3));
    assert_eq!(validate_depth("0"), Err("depth must be at least 1".to_string()));
    assert_eq!(validate_depth("11"), Err("depth cannot exceed 10".to_string()));
    assert_eq!(validate_depth("-1"), Err("'-1' is not a valid number".to_string()));
}

#[test]
fn consecutive_retries_double_their_wait() {
    let mut previous: Option<i64> = None;
    for count in 0..4 {
        match record_task_failure(count).1 {
            FailureOutcome::Retry { backoff_minutes } => {
                if let Some(p) = previous {
                    assert_eq!(backoff_minutes, 2 * p);
                }
                previous = Some(backoff_minutes);
            }
            FailureOutcome::GiveUp => panic!("gave up too early at {}", count),
        }
    }
    assert_eq!(record_task_failure(4).1, FailureOutcome::GiveUp);
}

#[test]
fn schema_statements_can_run_twice() {
    let statements = cudgel::database::init_schema_statements(384);
    assert!(!statements.is_empty());
    for s in statements {
        assert!(
            s.starts_with("CREATE TABLE IF NOT EXISTS ")
                || s.starts_with("CREATE INDEX IF NOT EXISTS ")
                || s.starts_with("CREATE EXTENSION IF NOT EXISTS "),
            "unguarded: {}",
            s
        );
    }
}
