use std::time::Duration;
use uma::scraping::client::{check_status, retry_step, RetryStep, ScraperClientBuilder};
use uma::scraping::error::{NetworkFailure, ScraperError};

fn server_error() -> Result<String, ScraperError> {
    Err(ScraperError::HttpError { status: 500, url: "http://x".to_string() })
}

#[test]
fn builder_defaults() {
    let b = ScraperClientBuilder::new();
    assert_eq!(b.max_concurrency, 5);
    assert_eq!(b.max_retries, 3);
    assert_eq!(b.min_delay, Duration::from_millis(500));
    assert_eq!(b.backoff_base, Duration::from_secs(1));
    let d = ScraperClientBuilder::default();
    assert_eq!(d.max_retries, 3);
}

#[test]
fn builder_setters_change_one_setting() {
    let b = ScraperClientBuilder::new()
        .min_delay(Duration::ZERO)
        .backoff_base(Duration::ZERO)
        .max_retries(7)
        .max_concurrency(2);
    assert_eq!(b.min_delay, Duration::ZERO);
    assert_eq!(b.backoff_base, Duration::ZERO);
    assert_eq!(b.max_retries, 7);
    assert_eq!(b.max_concurrency, 2);
}

#[test]
fn status_classification() {
    assert!(check_status(200, None, "u").is_ok());
    assert!(matches!(
        check_status(404, None, "http://a"),
        Err(ScraperError::HttpError { status: 404, ref url }) if url == "http://a"
    ));
    assert!(matches!(check_status(429, Some("0"), "u"), Err(ScraperError::RateLimited { retry_after_secs: 0 })));
    assert!(matches!(check_status(429, Some("abc"), "u"), Err(ScraperError::RateLimited { retry_after_secs: 60 })));
    assert!(matches!(check_status(429, None, "u"), Err(ScraperError::RateLimited { retry_after_secs: 60 })));
    assert!(matches!(check_status(500, None, "u"), Err(ScraperError::HttpError { status: 500, .. })));
}

#[test]
fn fetch_retries_on_500_and_succeeds() {
    // Two server errors, then success: three requests.
    assert_eq!(retry_step(0, 3, &server_error()), RetryStep::BackoffThenRetry { factor: 1 });
    assert_eq!(retry_step(1, 3, &server_error()), RetryStep::BackoffThenRetry { factor: 2 });
    assert_eq!(retry_step(2, 3, &Ok("ok".to_string())), RetryStep::Finish);
}

#[test]
fn fetch_gives_up_after_max_retries() {
    let mut attempt = 0u32;
    let mut requests = 0;
    loop {
        requests += 1;
        match retry_step(attempt, 3, &server_error()) {
            RetryStep::BackoffThenRetry { .. } => attempt += 1,
            RetryStep::WaitThenRetry { .. } => {}
            RetryStep::Finish => break,
        }
    }
    assert_eq!(requests, 4);
}

#[test]
fn fetch_does_not_retry_on_404() {
    let not_found: Result<String, ScraperError> = Err(ScraperError::HttpError { status: 404, url: String::new() });
    assert_eq!(retry_step(0, 3, &not_found), RetryStep::Finish);
}

#[test]
fn fetch_honors_retry_after_on_429() {
    let limited: Result<String, ScraperError> = Err(ScraperError::RateLimited { retry_after_secs: 0 });
    assert_eq!(retry_step(0, 3, &limited), RetryStep::WaitThenRetry { secs: 0 });
    // The attempt count is unchanged, so the next step still has all retries.
    assert_eq!(retry_step(0, 3, &Ok("ok".to_string())), RetryStep::Finish);
}

#[test]
fn backoff_doubles_with_each_attempt() {
    assert_eq!(retry_step(4, 10, &server_error()), RetryStep::BackoffThenRetry { factor: 16 });
}

#[test]
fn network_failures_retry_only_on_timeouts_and_connects() {
    let timeout: Result<String, ScraperError> =
        Err(ScraperError::NetworkError(NetworkFailure { message: "t".to_string(), is_timeout: true, is_connect: false }));
    let other: Result<String, ScraperError> =
        Err(ScraperError::NetworkError(NetworkFailure { message: "b".to_string(), is_timeout: false, is_connect: false }));
    assert_eq!(retry_step(0, 3, &timeout), RetryStep::BackoffThenRetry { factor: 1 });
    assert_eq!(retry_step(0, 3, &other), RetryStep::Finish);
    assert!(!ScraperError::ParseError("x".to_string()).is_retryable());
    assert!(ScraperError::RateLimited { retry_after_secs: 1 }.is_retryable());
}
