use complex_server::domain::job::JobStatus;
use complex_server::error::AppError;

fn all_errors() -> Vec<AppError> {
    vec![
        AppError::JobNotFound("abc".to_string()),
        AppError::BadRequest("bad".to_string()),
        AppError::WaitTimeout,
        AppError::Database("db".to_string()),
        AppError::Redis("r".to_string()),
        AppError::RedisPool("p".to_string()),
        AppError::Serde("s".to_string()),
        AppError::Internal("i".to_string()),
    ]
}

#[test]
fn error_statuses() {
    let statuses: Vec<u16> = all_errors().iter().map(|e| e.status()).collect();
    assert_eq!(statuses, vec![404, 400, 408, 500, 500, 500, 500, 500]);
    let server: Vec<bool> = all_errors().iter().map(|e| e.is_server_error()).collect();
    assert_eq!(server, vec![false, false, false, true, true, true, true, true]);
}

#[test]
fn error_codes() {
    let codes: Vec<&str> = all_errors().iter().map(|e| e.code()).collect();
    assert_eq!(
        codes,
        vec![
            "job_not_found",
            "bad_request",
            "wait_timeout",
            "database_error",
            "redis_error",
            "redis_error",
            "serialization_error",
            "internal_error"
        ]
    );
}

#[test]
fn error_messages() {
    let messages: Vec<String> = all_errors().iter().map(|e| e.message()).collect();
    assert_eq!(
        messages,
        vec![
            "job abc not found",
            "invalid job payload: bad",
            "wait timed out",
            "database error: db",
            "redis error: r",
            "redis pool error: p",
            "serialization error: s",
            "internal error: i"
        ]
    );
}

#[test]
fn status_texts_round_trip() {
    for s in [JobStatus::Queued, JobStatus::Running, JobStatus::Completed, JobStatus::Failed] {
        assert_eq!(JobStatus::from_str(s.as_str()), Some(s));
    }
    assert_eq!(JobStatus::Queued.as_str(), "queued");
    assert_eq!(JobStatus::Running.as_str(), "running");
    assert_eq!(JobStatus::Completed.as_str(), "completed");
    assert_eq!(JobStatus::Failed.as_str(), "failed");
}

#[test]
fn unknown_status_texts() {
    assert_eq!(JobStatus::from_str(""), None);
    assert_eq!(JobStatus::from_str("Queued"), None);
    assert_eq!(JobStatus::from_str("queued "), None);
    assert_eq!(JobStatus::from_str("done"), None);
}

#[test]
fn terminal_statuses() {
    assert!(!JobStatus::Queued.is_terminal());
    assert!(!JobStatus::Running.is_terminal());
    assert!(JobStatus::Completed.is_terminal());
    assert!(JobStatus::Failed.is_terminal());
}
