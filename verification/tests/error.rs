use alarm_dot_com::error::AlarmError;

#[test]
fn error_messages() {
    let s = |x: &str| x.to_string();
    let cases = [
        (AlarmError::AuthenticationFailed(s("bad")), "authentication failed: bad"),
        (
            AlarmError::TwoFactorRequired,
            "two-factor authentication required (set ALARM_MFA_COOKIE to bypass)",
        ),
        (AlarmError::SessionExpired, "session expired"),
        (AlarmError::ServiceUnavailable(s("down")), "service unavailable: down"),
        (AlarmError::NotAuthorized(s("no")), "not authorized: no"),
        (AlarmError::UnexpectedResponse(s("odd")), "unexpected response: odd"),
        (AlarmError::UnknownDevice(s("lock 1 not found")), "unknown device: lock 1 not found"),
        (AlarmError::UnsupportedOperation(s("op")), "unsupported operation: op"),
        (AlarmError::Network(s("reset")), "network error: reset"),
        (AlarmError::HtmlParse(s("tag")), "html parse error: tag"),
        (AlarmError::Json(s("eof")), "json error: eof"),
        (AlarmError::AccountLockedOut, "account locked out"),
    ];
    for (e, m) in cases {
        assert_eq!(e.to_string(), m);
    }
}
