use uptime_monitor::provider::{days_to_ymd, is_get_request, iso8601, ok_response, status_body};

#[test]
fn epoch_day_is_first_of_january_1970() {
    assert_eq!(days_to_ymd(0), (1970, 1, 1));
}

#[test]
fn days_roll_over_months_and_years() {
    assert_eq!(days_to_ymd(59), (1970, 3, 1));
    assert_eq!(days_to_ymd(365), (1971, 1, 1));
    assert_eq!(days_to_ymd(19000), (2022, 1, 8));
}

#[test]
fn leap_day_of_a_century_divisible_by_400() {
    assert_eq!(days_to_ymd(11016), (2000, 2, 29));
    assert_eq!(days_to_ymd(11017), (2000, 3, 1));
}

#[test]
fn far_future_date() {
    assert_eq!(days_to_ymd(2932896), (9999, 12, 31));
}

#[test]
fn iso8601_at_epoch() {
    assert_eq!(iso8601(0), "1970-01-01T00:00:00Z");
}

#[test]
fn iso8601_of_a_known_instant() {
    assert_eq!(iso8601(1_700_000_000), "2023-11-14T22:13:20Z");
}

#[test]
fn iso8601_last_second_of_a_day() {
    assert_eq!(iso8601(86_399), "1970-01-01T23:59:59Z");
}

#[test]
fn only_get_requests_are_served() {
    assert!(is_get_request(b"GET / HTTP/1.1\r\n"));
    assert!(!is_get_request(b"POST / HTTP/1.1\r\n"));
    assert!(!is_get_request(b"GET"));
    assert!(!is_get_request(b"GETX"));
}

#[test]
fn status_document_and_response_framing() {
    let body = status_body("2023-11-14T22:13:20Z", "12.50");
    assert_eq!(body, "{\"ok\":true,\"time\":\"2023-11-14T22:13:20Z\",\"disk_free_gb\":12.50}");
    let resp = ok_response(&body);
    assert_eq!(
        resp,
        format!(
            "HTTP/1.1 200 OK\r\nContent-Type: application/json\r\nCache-Control: no-store\r\nContent-Length: {}\r\nConnection: close\r\n\r\n{}",
            body.len(),
            body
        )
    );
    assert!(resp.contains("Content-Length: 62\r\n"));
}
