use alarm_dot_com::auth::{
    check_login_redirect, extract_afg_from_html, extract_hidden_field, user_agent,
    LoginFormFields, USER_AGENT,
};
use alarm_dot_com::client::AlarmClient;
use alarm_dot_com::error::AlarmError;

const LOGIN_PAGE: &str = r#"<html><body><form>
<input type="hidden" name="__VIEWSTATE" value="VS123" />
<input type="hidden" name="__VIEWSTATEGENERATOR" value="GEN9" />
<input type="hidden" name="__EVENTVALIDATION" value="EV7" />
</form></body></html>"#;

#[test]
fn user_agent_is_a_browser() {
    assert_eq!(user_agent(), USER_AGENT);
    assert!(user_agent().starts_with("Mozilla/5.0 (Windows NT 10.0; Win64; x64)"));
    assert!(user_agent().ends_with("Chrome/123.0.0.0 Safari/537.36"));
}

#[test]
fn hidden_fields_are_read_from_page() {
    assert_eq!(extract_hidden_field(LOGIN_PAGE, "__VIEWSTATE"), Some("VS123".to_string()));
    assert_eq!(extract_hidden_field(LOGIN_PAGE, "__EVENTVALIDATION"), Some("EV7".to_string()));
    assert_eq!(extract_hidden_field(LOGIN_PAGE, "__PREVIOUSPAGE"), None);
}

#[test]
fn login_form_carries_fields_and_credentials() {
    let fields = LoginFormFields::from_login_page(LOGIN_PAGE).unwrap();
    let client = AlarmClient::new("user@example.com", "pw");
    let form = client.login_form(&fields);
    let pairs: Vec<(&str, &str)> = form.iter().map(|(k, v)| (k.as_str(), v.as_str())).collect();
    assert_eq!(
        pairs,
        vec![
            ("__EVENTTARGET", ""),
            ("__EVENTARGUMENT", ""),
            ("__VIEWSTATEENCRYPTED", ""),
            ("__VIEWSTATE", "VS123"),
            ("__VIEWSTATEGENERATOR", "GEN9"),
            ("__PREVIOUSPAGE", ""),
            ("__EVENTVALIDATION", "EV7"),
            ("IsFromNewSite", "1"),
            ("JavaScriptTest", "1"),
            ("ctl00$ContentPlaceHolder1$loginform$txtUserName", "user@example.com"),
            ("txtPassword", "pw"),
        ]
    );
}

#[test]
fn login_page_without_viewstate_is_refused() {
    let r = LoginFormFields::from_login_page("<html><body>nothing</body></html>");
    assert!(matches!(r, Err(AlarmError::HtmlParse(m)) if m == "missing __VIEWSTATE"));
}

#[test]
fn afg_is_read_from_script() {
    let html = r#"<script>$.cookie('afg','TOKEN-1',{path:'/'});</script>"#;
    assert_eq!(extract_afg_from_html(html), Some("TOKEN-1".to_string()));
    let html = r#"<script>$.cookie( "afg" , "T2" );</script>"#;
    assert_eq!(extract_afg_from_html(html), Some("T2".to_string()));
}

#[test]
fn afg_is_read_from_hidden_input() {
    let html = r#"<html><body><input name="afg" value="HIDDEN-9"></body></html>"#;
    assert_eq!(extract_afg_from_html(html), Some("HIDDEN-9".to_string()));
}

#[test]
fn afg_absent() {
    assert_eq!(extract_afg_from_html("<html><body>no token</body></html>"), None);
    assert_eq!(extract_afg_from_html(r#"<input name="afg">"#), None);
}

#[test]
fn login_redirects_are_judged() {
    assert!(matches!(
        check_login_redirect("https://www.alarm.com/login?m=login_fail"),
        Err(AlarmError::AuthenticationFailed(m)) if m == "invalid username or password"
    ));
    assert!(matches!(
        check_login_redirect("https://www.alarm.com/login?err=login_fail"),
        Err(AlarmError::AuthenticationFailed(_))
    ));
    assert!(matches!(
        check_login_redirect("https://www.alarm.com/login?m=LockedOut"),
        Err(AlarmError::AccountLockedOut)
    ));
    assert!(matches!(
        check_login_redirect("https://www.alarm.com/login?err=locked"),
        Err(AlarmError::AccountLockedOut)
    ));
    assert!(check_login_redirect("https://www.alarm.com/web/system/home").is_ok());
}
