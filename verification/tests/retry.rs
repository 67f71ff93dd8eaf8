use alarm_dot_com::error::AlarmError;
use alarm_dot_com::retry::{status_is_success, RequestMethod, RetryPolicy, RetryStep};

const URL: &str = "https://www.alarm.com/web/api/devices/partitions";

#[test]
fn success_statuses() {
    assert!(status_is_success(200));
    assert!(status_is_success(299));
    assert!(!status_is_success(199));
    assert!(!status_is_success(300));
}

#[test]
fn get_gives_up_after_three_retries() {
    let mut p = RetryPolicy::new(RequestMethod::Get);
    for expected in 1..=3 {
        assert!(matches!(p.on_response(URL, 500, "500 Internal Server Error"), RetryStep::Retry));
        assert_eq!(p.retries(), expected);
    }
    let step = p.on_response(URL, 500, "500 Internal Server Error");
    assert!(matches!(step, RetryStep::Fail(AlarmError::ServiceUnavailable(m))
        if m == format!("GET {URL} failed after 3 retries with status 500 Internal Server Error")));
}

#[test]
fn post_gives_up_after_two_retries() {
    let mut p = RetryPolicy::new(RequestMethod::Post);
    assert_eq!(p.method(), RequestMethod::Post);
    assert!(matches!(p.on_response(URL, 502, "502 Bad Gateway"), RetryStep::Retry));
    assert!(matches!(p.on_response(URL, 422, "422 Unprocessable Entity"), RetryStep::Retry));
    let step = p.on_response(URL, 502, "502 Bad Gateway");
    assert!(matches!(step, RetryStep::Fail(AlarmError::ServiceUnavailable(m))
        if m == format!("POST {URL} failed after 2 retries with status 502 Bad Gateway")));
}

#[test]
fn expired_session_is_repaired_once() {
    let mut p = RetryPolicy::new(RequestMethod::Get);
    assert!(matches!(p.on_response(URL, 401, "401 Unauthorized"), RetryStep::Relogin));
    assert!(matches!(p.on_relogin(true), RetryStep::Retry));
    assert_eq!(p.retries(), 1);
    assert!(matches!(
        p.on_response(URL, 403, "403 Forbidden"),
        RetryStep::Fail(AlarmError::SessionExpired)
    ));
}

#[test]
fn failed_relogin_expires_the_session() {
    let mut p = RetryPolicy::new(RequestMethod::Post);
    assert!(matches!(p.on_response(URL, 403, "403 Forbidden"), RetryStep::Relogin));
    assert!(matches!(p.on_relogin(false), RetryStep::Fail(AlarmError::SessionExpired)));
}

#[test]
fn success_is_accepted_after_retries() {
    let mut p = RetryPolicy::new(RequestMethod::Get);
    assert!(matches!(p.on_response(URL, 503, "503 Service Unavailable"), RetryStep::Retry));
    assert!(matches!(p.on_response(URL, 200, "200 OK"), RetryStep::Accept));
    assert_eq!(p.retries(), 1);
}

#[test]
fn conflict_and_refusals() {
    let mut p = RetryPolicy::new(RequestMethod::Get);
    assert!(matches!(
        p.on_response(URL, 409, "409 Conflict"),
        RetryStep::Fail(AlarmError::TwoFactorRequired)
    ));
    let step = p.on_response(URL, 423, "423 Locked");
    assert!(matches!(step, RetryStep::Fail(AlarmError::NotAuthorized(m))
        if m == format!("GET {URL} returned 423 Locked")));
    let mut post = RetryPolicy::new(RequestMethod::Post);
    let step = post.on_response(URL, 406, "406 Not Acceptable");
    assert!(matches!(step, RetryStep::Fail(AlarmError::NotAuthorized(m))
        if m == format!("POST {URL} returned 406 Not Acceptable")));
    assert_eq!(post.retries(), 0);
    assert!(matches!(post.on_response(URL, 500, "500 Internal Server Error"), RetryStep::Retry));
    let step = post.on_response(URL, 423, "423 Locked");
    assert!(matches!(step, RetryStep::Fail(AlarmError::NotAuthorized(m))
        if m == format!("POST {URL} returned 423 Locked")));
    assert_eq!(post.retries(), 1);
    assert!(matches!(
        post.on_response(URL, 409, "409 Conflict"),
        RetryStep::Fail(AlarmError::TwoFactorRequired)
    ));
}

#[test]
fn at_most_limit_plus_one_sends() {
    for (method, limit) in [(RequestMethod::Get, 3), (RequestMethod::Post, 2)] {
        let mut p = RetryPolicy::new(method);
        let mut sends = 1;
        loop {
            match p.on_response(URL, 401, "401 Unauthorized") {
                RetryStep::Relogin => match p.on_relogin(true) {
                    RetryStep::Retry => sends += 1,
                    _ => break,
                },
                RetryStep::Retry => sends += 1,
                _ => break,
            }
        }
        assert_eq!(sends, 2);
        let mut p = RetryPolicy::new(method);
        let mut sends = 1;
        while let RetryStep::Retry = p.on_response(URL, 500, "500") {
            sends += 1;
        }
        assert_eq!(sends, limit + 1);
    }
}
