use alarm_dot_com::client::AlarmClient;
use alarm_dot_com::error::AlarmError;
use alarm_dot_com::models::jsonapi::{ApiError, ApiResponse, ErrorDocument, MultiDocument};

const HOME: &str = "https://www.alarm.com/web/system/home";

fn pairs(v: &[(String, String)]) -> Vec<(&str, &str)> {
    v.iter().map(|(a, b)| (a.as_str(), b.as_str())).collect()
}

fn api_error(code: Option<&str>, detail: Option<&str>) -> ApiError {
    ApiError {
        status: None,
        code: code.map(|c| c.to_string()),
        title: None,
        detail: detail.map(|d| d.to_string()),
    }
}

fn error_doc(errors: Vec<ApiError>) -> ErrorDocument {
    ErrorDocument { errors }
}

#[test]
fn new_session_is_logged_out() {
    let c = AlarmClient::new("u", "p");
    assert!(!c.is_logged_in());
    assert_eq!(c.trusted_device_cookie(), None);
    assert!(!c.has_ajax_key());
    assert_eq!(c.trusted_cookie_line(), None);
}

#[test]
fn trusted_cookie_reads_back() {
    let mut c = AlarmClient::new("u", "p");
    c.set_trusted_device_cookie("abc123");
    assert_eq!(c.trusted_device_cookie(), Some("abc123"));
    assert!(!c.is_logged_in());
    assert_eq!(
        c.trusted_cookie_line(),
        Some("twoFactorAuthenticationId=abc123; Path=/".to_string())
    );
}

#[test]
fn cookie_jar_header_updates_tokens() {
    let mut c = AlarmClient::new("u", "p");
    c.refresh_cookies_from_jar("ASP.NET_SessionId=x; afg=KEY1; twoFactorAuthenticationId=TD9");
    assert!(c.has_ajax_key());
    assert_eq!(c.trusted_device_cookie(), Some("TD9"));
    let headers = c.build_headers(true);
    assert_eq!(headers.last().unwrap(), &("Ajaxrequestuniquekey".to_string(), "KEY1".to_string()));
    // An empty trusted-device cookie does not replace the one held.
    c.refresh_cookies_from_jar("twoFactorAuthenticationId=;afg=KEY2");
    assert_eq!(c.trusted_device_cookie(), Some("TD9"));
    let headers = c.build_headers(true);
    assert_eq!(headers.last().unwrap().1, "KEY2");
}

#[test]
fn response_cookies_update_tokens() {
    let mut c = AlarmClient::new("u", "p");
    c.set_trusted_device_cookie("OLD");
    let cookies = vec![
        ("afg".to_string(), "K".to_string()),
        ("twoFactorAuthenticationId".to_string(), "".to_string()),
        ("other".to_string(), "v".to_string()),
    ];
    c.update_afg_from_response(&cookies);
    assert!(c.has_ajax_key());
    assert_eq!(c.trusted_device_cookie(), Some("OLD"));
    c.update_afg_from_response(&vec![("twoFactorAuthenticationId".to_string(), "NEW".to_string())]);
    assert_eq!(c.trusted_device_cookie(), Some("NEW"));
}

#[test]
fn headers_without_key() {
    let c = AlarmClient::new("u", "p");
    let h = c.build_headers(true);
    assert_eq!(
        pairs(&h),
        vec![
            ("User-Agent", alarm_dot_com::auth::USER_AGENT),
            ("Referer", "https://www.alarm.com/web/system/home"),
            ("Connection", "keep-alive"),
            ("Accept", "application/vnd.api+json"),
        ]
    );
}

#[test]
fn key_header_only_when_asked() {
    let mut c = AlarmClient::new("u", "p");
    c.update_afg_from_response(&vec![("afg".to_string(), "K".to_string())]);
    assert_eq!(c.build_headers(false).len(), 4);
    assert_eq!(c.build_headers(true).len(), 5);
}

#[test]
fn begin_login_forgets_key() {
    let mut c = AlarmClient::new("u", "p");
    c.update_afg_from_response(&vec![("afg".to_string(), "K".to_string())]);
    assert!(c.finish_login(200, "200 OK", "").is_ok());
    assert!(c.is_logged_in());
    c.begin_login();
    assert!(!c.is_logged_in());
    assert!(!c.has_ajax_key());
}

#[test]
fn relogin_keeps_key() {
    let mut c = AlarmClient::new("u", "p");
    c.update_afg_from_response(&vec![("afg".to_string(), "K".to_string())]);
    assert!(c.relogin_submitted(HOME, "").is_ok());
    assert!(c.is_logged_in());
    c.begin_relogin();
    assert!(!c.is_logged_in());
    assert!(c.has_ajax_key());
    assert!(c.relogin_submitted(HOME, "afg=NEW").is_ok());
    assert!(c.is_logged_in());
    assert_eq!(c.build_headers(true)[4].1, "NEW");
}

#[test]
fn afg_adopted_from_page_only_when_missing() {
    let mut c = AlarmClient::new("u", "p");
    c.adopt_afg_from_html(r#"<script>$.cookie('afg','FROM-PAGE');</script>"#);
    assert_eq!(c.build_headers(true)[4].1, "FROM-PAGE");
    c.adopt_afg_from_html(r#"<script>$.cookie('afg','OTHER');</script>"#);
    assert_eq!(c.build_headers(true)[4].1, "FROM-PAGE");
}

#[test]
fn login_check_outcomes() {
    let mut c = AlarmClient::new("u", "p");
    assert!(matches!(c.finish_login(409, "409 Conflict", ""), Err(AlarmError::TwoFactorRequired)));
    assert!(!c.is_logged_in());
    let r = c.finish_login(500, "500 Internal Server Error", "oops");
    assert!(matches!(r, Err(AlarmError::AuthenticationFailed(m))
        if m == "session verification failed with status 500 Internal Server Error: oops"));
    assert!(!c.is_logged_in());
    assert!(c.finish_login(204, "204 No Content", "").is_ok());
    assert!(c.is_logged_in());
}

#[test]
fn keep_alive_outcomes() {
    let mut c = AlarmClient::new("u", "p");
    assert!(c.relogin_submitted(HOME, "").is_ok());
    assert!(c.keep_alive_result(200));
    assert!(c.is_logged_in());
    assert!(!c.keep_alive_result(500));
    assert!(c.is_logged_in());
    assert!(!c.keep_alive_result(403));
    assert!(!c.is_logged_in());
}

#[test]
fn urls_are_built() {
    let c = AlarmClient::new("u", "p");
    assert_eq!(
        c.build_url("devices/partitions", None, None),
        "https://www.alarm.com/web/api/devices/partitions"
    );
    assert_eq!(
        c.build_url("devices/locks", Some("12"), Some("lock")),
        "https://www.alarm.com/web/api/devices/locks/12/lock"
    );
    assert_eq!(
        c.build_url("devices/locks", None, Some("lock")),
        "https://www.alarm.com/web/api/devices/locks/lock"
    );
}

#[test]
fn error_documents_are_classified() {
    let c = AlarmClient::new("u", "p");
    let r = c.handle_error_document(&error_doc(vec![
        api_error(Some("409"), None),
        api_error(Some("403"), None),
    ]));
    assert!(matches!(r, Err(AlarmError::SessionExpired)));
    let r = c.handle_error_document(&error_doc(vec![api_error(Some("423"), Some("locked"))]));
    assert!(matches!(r, Err(AlarmError::NotAuthorized(m)) if m == "server returned permission error"));
    let r = c.handle_error_document(&error_doc(vec![api_error(Some("+409"), None)]));
    assert!(matches!(r, Err(AlarmError::TwoFactorRequired)));
    let r = c.handle_error_document(&error_doc(vec![api_error(Some("500"), Some("boom"))]));
    assert!(matches!(r, Err(AlarmError::UnexpectedResponse(m)) if m == "boom"));
    let r = c.handle_error_document(&error_doc(vec![
        api_error(Some("500"), None),
        api_error(Some("x"), Some("later")),
        api_error(None, None),
        api_error(Some("7"), None),
    ]));
    assert!(matches!(r, Err(AlarmError::UnexpectedResponse(m)) if m == "error codes: [500, 7]"));
    let r = c.handle_error_document(&error_doc(vec![]));
    assert!(matches!(r, Err(AlarmError::UnexpectedResponse(m)) if m == "error codes: []"));
}

#[test]
fn responses_are_judged() {
    let c = AlarmClient::new("u", "p");
    let r = c.parse_response(Err("expected value at line 1 column 1".to_string()));
    assert!(matches!(r, Err(AlarmError::Json(m)) if m == "expected value at line 1 column 1"));
    let r = c.parse_response(Ok(ApiResponse::Error(error_doc(vec![api_error(Some("401"), None)]))));
    assert!(matches!(r, Err(AlarmError::SessionExpired)));
    let doc = ApiResponse::Multi(MultiDocument { data: vec![], included: vec![] });
    let r = c.parse_response(Ok(doc));
    assert!(matches!(r, Ok(ApiResponse::Multi(_))));
}

#[test]
fn refused_relogin_stays_logged_out() {
    let mut c = AlarmClient::new("u", "p");
    c.begin_relogin();
    let r = c.relogin_submitted("https://www.alarm.com/login?m=login_fail", "afg=K");
    assert!(matches!(r, Err(AlarmError::AuthenticationFailed(_))));
    assert!(!c.is_logged_in());
    assert!(!c.has_ajax_key());
}

#[test]
fn submitted_credentials_take_tokens() {
    let mut c = AlarmClient::new("u", "p");
    c.set_trusted_device_cookie("TD");
    c.begin_login();
    let needs_home = c
        .credentials_submitted(HOME, "<html>no key</html>", "twoFactorAuthenticationId=TD2")
        .unwrap();
    assert!(needs_home);
    assert_eq!(c.trusted_device_cookie(), Some("TD2"));
    assert!(!c.is_logged_in());
    c.update_afg_from_response(&vec![]);
    c.refresh_cookies_from_jar("");
    c.adopt_afg_from_html(r#"<input name="afg" value="HOMEKEY">"#);
    assert_eq!(c.build_headers(true)[4].1, "HOMEKEY");
    assert!(c.finish_login(200, "200 OK", "").is_ok());
    assert!(c.is_logged_in());
}

#[test]
fn submitted_credentials_key_from_redirect_page() {
    let mut c = AlarmClient::new("u", "p");
    c.begin_login();
    let needs_home = c
        .credentials_submitted(HOME, r#"<script>$.cookie('afg','PAGEKEY')</script>"#, "")
        .unwrap();
    assert!(!needs_home);
    assert_eq!(c.build_headers(true)[4].1, "PAGEKEY");
    let mut c = AlarmClient::new("u", "p");
    c.begin_login();
    let needs_home = c
        .credentials_submitted(HOME, r#"<script>$.cookie('afg','PAGEKEY')</script>"#, "afg=JARKEY")
        .unwrap();
    assert!(!needs_home);
    assert_eq!(c.build_headers(true)[4].1, "JARKEY");
}

#[test]
fn submitted_credentials_refused() {
    let mut c = AlarmClient::new("u", "p");
    let r = c.credentials_submitted("https://www.alarm.com/login?err=locked", "", "afg=K");
    assert!(matches!(r, Err(AlarmError::AccountLockedOut)));
    assert!(!c.has_ajax_key());
}


#[test]
fn failed_login_from_logged_in_leaves_logged_out() {
    let mut c = AlarmClient::new("u", "p");
    assert!(c.relogin_submitted(HOME, "afg=K").is_ok());
    assert!(c.is_logged_in());
    c.begin_login();
    let r = c.credentials_submitted("https://www.alarm.com/login?m=login_fail", "", "afg=K");
    assert!(r.is_err());
    assert!(!c.is_logged_in());
    c.begin_login();
    assert!(c.credentials_submitted(HOME, "", "afg=K").is_ok());
    assert!(c.finish_login(409, "409 Conflict", "").is_err());
    assert!(!c.is_logged_in());
    c.begin_login();
    assert!(c.credentials_submitted(HOME, "", "afg=K").is_ok());
    assert!(!c.is_logged_in());
    assert!(c.finish_login(200, "200 OK", "").is_ok());
    assert!(c.is_logged_in());
}
