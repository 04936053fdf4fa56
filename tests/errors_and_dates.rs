use task_backend::errors::AppError;
use task_backend::models::{serialize_datetime, Timestamp};

#[test]
fn error_statuses_and_messages() {
    let cases = vec![
        (AppError::Database("connection refused".to_string()), 500, "connection refused"),
        (AppError::InvalidTask, 400, "Invalid task description"),
        (AppError::InvalidId, 400, "Invalid task id"),
        (AppError::InvalidUpdate, 400, "Invalid update fields"),
        (AppError::Internal, 500, "Internal server error"),
    ];
    for (err, status, message) in cases {
        assert_eq!(err.status(), status);
        assert_eq!(err.message(), message);
        assert_eq!(err.into_response(), (status, message.to_string()));
    }
}

fn ts(year: u16, month: u8, day: u8, hour: u8, minute: u8, second: u8) -> Timestamp {
    Timestamp { year, month, day, hour, minute, second }
}

#[test]
fn datetime_is_zero_padded() {
    assert_eq!(serialize_datetime(&ts(2024, 3, 5, 7, 8, 9)), "2024-03-05 07:08:09");
    assert_eq!(serialize_datetime(&ts(999, 12, 31, 23, 59, 59)), "0999-12-31 23:59:59");
}

#[test]
fn datetime_leap_day() {
    assert_eq!(serialize_datetime(&ts(2000, 2, 29, 0, 0, 0)), "2000-02-29 00:00:00");
}
