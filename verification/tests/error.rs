use xero_rs_async::error::XeroError;

#[test]
fn every_error_names_the_layer_that_failed() {
    assert_eq!(
        XeroError::Request("connection refused".to_string()).message(),
        "HTTP request error: connection refused"
    );
    assert_eq!(
        XeroError::Serde("expected value at line 1 column 1".to_string()).message(),
        "Serialization/Deserialization error: expected value at line 1 column 1"
    );
    assert_eq!(
        XeroError::Auth("No refresh token available".to_string()).message(),
        "Authentication error: No refresh token available"
    );
    assert_eq!(
        XeroError::RateLimiter("Daily rate limit for tenant x is nearly exhausted.".to_string()).message(),
        "Rate limiter error: Daily rate limit for tenant x is nearly exhausted."
    );
    assert_eq!(
        XeroError::Io("permission denied".to_string()).message(),
        "I/O error: permission denied"
    );
}

#[test]
fn an_api_error_shows_the_status_with_its_common_name() {
    let error = XeroError::Api { status: 404, message: "nothing here".to_string() };
    assert_eq!(error.message(), "Xero API error (404 Not Found): nothing here");
    let error = XeroError::Api { status: 429, message: String::new() };
    assert_eq!(error.message(), "Xero API error (429 Too Many Requests): ");
    for status in [200u16, 400, 401, 500, 503, 599, 999] {
        let error = XeroError::Api { status, message: "m".to_string() };
        assert_eq!(
            error.message(),
            format!(
                "Xero API error ({}): m",
                reqwest::StatusCode::from_u16(status).expect("a status")
            )
        );
    }
}

#[test]
fn a_number_that_is_no_status_has_no_name() {
    let error = XeroError::Api { status: 42, message: "m".to_string() };
    assert_eq!(error.message(), "Xero API error (42 <unknown status code>): m");
    let error = XeroError::Api { status: 599, message: "m".to_string() };
    assert_eq!(error.message(), "Xero API error (599 <unknown status code>): m");
}
