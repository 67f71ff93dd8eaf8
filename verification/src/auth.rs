//! The rules of the login flow for Alarm.com systems.
//!
//! Uses the standard www.alarm.com login portal with ASP.NET ViewState tokens,
//! which is compatible with all Alarm.com-powered providers.
//!
//! The login process:
//! 1. GET the login page to extract ViewState hidden fields
//! 2. POST credentials with ViewState tokens
//! 3. Follow redirects to establish the session
//! 4. Extract the `afg` anti-forgery token for subsequent API requests
//!
//! The transport sends and receives; this module reads the pages, builds the
//! form and judges where the login ended.

use vstd::prelude::*;

use crate::error::AlarmError;
use crate::models::device::opt_text;
use crate::text::{contains_text, has_substring, law_substring_found, pair_views, push_pair};

verus! {

pub const URL_BASE: &'static str = "https://www.alarm.com/";

pub const LOGIN_PAGE_URL: &'static str = "https://www.alarm.com/login";

pub const LOGIN_POST_URL: &'static str = "https://www.alarm.com/web/Default.aspx";

/// ASP.NET WebForms hidden field names needed for login.
pub const VIEWSTATE: &'static str = "__VIEWSTATE";

pub const VIEWSTATE_GENERATOR: &'static str = "__VIEWSTATEGENERATOR";

pub const PREVIOUS_PAGE: &'static str = "__PREVIOUSPAGE";

pub const EVENT_VALIDATION: &'static str = "__EVENTVALIDATION";

/// The browser identity that every request carries.
pub const USER_AGENT: &'static str =
    "Mozilla/5.0 (Windows NT 10.0; Win64; x64) AppleWebKit/537.36 (KHTML, like Gecko) Chrome/123.0.0.0 Safari/537.36";

/// The script call by which the portal sets the `afg` cookie:
/// `$.cookie('afg','TOKEN',{...})`, the token in group 1.
pub const AFG_SCRIPT_PATTERN: &'static str = r#"\$\.cookie\(\s*['"]afg['"]\s*,\s*['"]([^'"]+)['"]\s*"#;

/// The hidden input that may carry the `afg` token instead.
pub const AFG_INPUT_SELECTOR: &'static str = r#"input[name="afg"]"#;

pub fn user_agent() -> (r: &'static str)
    ensures
        r@ == USER_AGENT@,
{
    USER_AGENT
}

// ---------------------------------------------------------------------------
// Outside parsers: regex and scraper
// ---------------------------------------------------------------------------

/// Names what `regex::Regex::new` decides: whether it accepts `pattern`.
pub uninterp spec fn regex_accepts(pattern: Seq<char>) -> bool;

/// Names what `Regex::captures` and `Captures::get` find: none when `pattern`
/// does not match `text`; else, for the leftmost-first match, the text of
/// capture group `group`, or none when that group took no part in it.
pub uninterp spec fn regex_capture(pattern: Seq<char>, text: Seq<char>, group: usize) -> Option<Option<Seq<char>>>;

/// Calls `regex::Regex::new(pattern)`, then `captures(text)` and
/// `get(group)`. Claimed: the result is `Err` exactly when the crate refuses
/// the pattern, and otherwise the named capture; nothing else is claimed of it.
#[verifier::external_body]
fn capture_group(pattern: &str, text: &str, group: usize) -> (r: Result<Option<Option<String>>, ()>)
    ensures
        r is Ok == regex_accepts(pattern@),
        r matches Ok(found) ==> match found {
            Some(g) => regex_capture(pattern@, text@, group) == Some(opt_text(g)),
            None => regex_capture(pattern@, text@, group) is None,
        },
{
    match regex::Regex::new(pattern) {
        Ok(re) => match re.captures(text) {
            Some(caps) => match caps.get(group) {
                Some(m) => Ok(Some(Some(m.as_str().to_string()))),
                None => Ok(Some(None)),
            },
            None => Ok(None),
        },
        Err(_) => Err(()),
    }
}

/// Names what `scraper::Selector::parse` decides: whether it accepts `selector`.
pub uninterp spec fn css_selector_accepts(selector: Seq<char>) -> bool;

/// Names what `scraper` finds: in the document `Html::parse_document(html)`,
/// the first element that `selector` selects, its attribute `attr`; none when
/// no element is selected or the first one lacks the attribute.
pub uninterp spec fn html_selected_attr(html: Seq<char>, selector: Seq<char>, attr: Seq<char>) -> Option<Seq<char>>;

/// Calls `scraper::Selector::parse(selector)`, `Html::parse_document(html)`,
/// `select(..).next()` and `value().attr(attr)`. Claimed: the result is `Err`
/// exactly when the crate refuses the selector, and otherwise the named
/// attribute value; nothing else is claimed of it.
#[verifier::external_body]
fn select_attr(html: &str, selector: &str, attr: &str) -> (r: Result<Option<String>, ()>)
    ensures
        r is Ok == css_selector_accepts(selector@),
        r matches Ok(v) ==> opt_text(v) == html_selected_attr(html@, selector@, attr@),
{
    let selector = match scraper::Selector::parse(selector) {
        Ok(s) => s,
        Err(_) => return Err(()),
    };
    let doc = scraper::Html::parse_document(html);
    match doc.select(&selector).next() {
        Some(el) => match el.value().attr(attr) {
            Some(v) => Ok(Some(v.to_string())),
            None => Ok(None),
        },
        None => Ok(None),
    }
}

// ---------------------------------------------------------------------------
// Hidden fields and the anti-forgery token
// ---------------------------------------------------------------------------

/// The selector of the input named `name`: `input[name="{name}"]`.
pub open spec fn input_selector(name: Seq<char>) -> Seq<char> {
    "input[name=\""@ + name + "\"]"@
}

/// The value of the hidden input named `name` in a page.
pub open spec fn hidden_field(html: Seq<char>, name: Seq<char>) -> Option<Seq<char>> {
    if css_selector_accepts(input_selector(name)) {
        html_selected_attr(html, input_selector(name), "value"@)
    } else {
        None
    }
}

/// Extract a hidden form field value from an HTML page.
pub fn extract_hidden_field(html: &str, name: &str) -> (r: Option<String>)
    ensures
        opt_text(r) == hidden_field(html@, name@),
{
    let selector = String::from_str("input[name=\"").concat(name).concat("\"]");
    match select_attr(html, selector.as_str(), "value") {
        Ok(v) => v,
        Err(_) => None,
    }
}

/// The `afg` token of a page: from the script that sets the cookie when it
/// is there, else from the hidden input named `afg`.
pub open spec fn afg_of_page(html: Seq<char>) -> Option<Seq<char>> {
    if !regex_accepts(AFG_SCRIPT_PATTERN@) {
        None
    } else if regex_capture(AFG_SCRIPT_PATTERN@, html, 1) is Some {
        regex_capture(AFG_SCRIPT_PATTERN@, html, 1)->0
    } else if !css_selector_accepts(AFG_INPUT_SELECTOR@) {
        None
    } else {
        html_selected_attr(html, AFG_INPUT_SELECTOR@, "value"@)
    }
}

/// Extract the AFG anti-forgery token from an HTML page body.
///
/// The Alarm.com portal sets the `afg` cookie via client-side JavaScript
/// (e.g. `$.cookie('afg','TOKEN',{...})`), so it never appears as a
/// `Set-Cookie` header.
pub fn extract_afg_from_html(html: &str) -> (r: Option<String>)
    ensures
        opt_text(r) == afg_of_page(html@),
{
    match capture_group(AFG_SCRIPT_PATTERN, html, 1) {
        Err(_) => None,
        Ok(Some(group)) => group,
        Ok(None) => match select_attr(html, AFG_INPUT_SELECTOR, "value") {
            Ok(v) => v,
            Err(_) => None,
        },
    }
}

// ---------------------------------------------------------------------------
// The login form
// ---------------------------------------------------------------------------

/// The hidden fields of the login form, as their values read.
pub struct LoginFormView {
    pub viewstate: Seq<char>,
    pub viewstate_generator: Seq<char>,
    pub previous_page: Seq<char>,
    pub event_validation: Seq<char>,
}

/// Hidden form fields extracted from the ASP.NET login page.
pub struct LoginFormFields {
    viewstate: String,
    viewstate_generator: String,
    previous_page: String,
    event_validation: String,
}

impl View for LoginFormFields {
    type V = LoginFormView;

    closed spec fn view(&self) -> LoginFormView {
        LoginFormView {
            viewstate: self.viewstate@,
            viewstate_generator: self.viewstate_generator@,
            previous_page: self.previous_page@,
            event_validation: self.event_validation@,
        }
    }
}

/// A hidden field's value, empty when the page lacks it.
pub open spec fn or_empty(v: Option<Seq<char>>) -> Seq<char> {
    match v {
        Some(s) => s,
        None => Seq::empty(),
    }
}

fn or_empty_text(v: Option<String>) -> (r: String)
    ensures
        r@ == or_empty(opt_text(v)),
{
    match v {
        Some(s) => s,
        None => String::new(),
    }
}

impl LoginFormFields {
    /// Reads the hidden fields of the login page: `__VIEWSTATE` must be
    /// there, the others count as empty when missing.
    pub fn from_login_page(html: &str) -> (r: Result<LoginFormFields, AlarmError>)
        ensures
            hidden_field(html@, VIEWSTATE@) is None ==> (r matches Err(AlarmError::HtmlParse(m))
                && m@ == "missing __VIEWSTATE"@),
            hidden_field(html@, VIEWSTATE@) matches Some(v) ==> (r matches Ok(f) && f@ == (
            LoginFormView {
                viewstate: v,
                viewstate_generator: or_empty(hidden_field(html@, VIEWSTATE_GENERATOR@)),
                previous_page: or_empty(hidden_field(html@, PREVIOUS_PAGE@)),
                event_validation: or_empty(hidden_field(html@, EVENT_VALIDATION@)),
            })),
    {
        let viewstate = match extract_hidden_field(html, VIEWSTATE) {
            Some(v) => v,
            None => {
                return Err(AlarmError::HtmlParse(String::from_str("missing __VIEWSTATE")));
            },
        };
        let viewstate_generator = or_empty_text(extract_hidden_field(html, VIEWSTATE_GENERATOR));
        let previous_page = or_empty_text(extract_hidden_field(html, PREVIOUS_PAGE));
        let event_validation = or_empty_text(extract_hidden_field(html, EVENT_VALIDATION));
        Ok(LoginFormFields { viewstate, viewstate_generator, previous_page, event_validation })
    }

    /// The form that submits the credentials, field by field in order.
    pub open spec fn form_of(fields: LoginFormView, username: Seq<char>, password: Seq<char>) -> Seq<
        (Seq<char>, Seq<char>),
    > {
        seq![
            ("__EVENTTARGET"@, ""@),
            ("__EVENTARGUMENT"@, ""@),
            ("__VIEWSTATEENCRYPTED"@, ""@),
            (VIEWSTATE@, fields.viewstate),
            (VIEWSTATE_GENERATOR@, fields.viewstate_generator),
            (PREVIOUS_PAGE@, fields.previous_page),
            (EVENT_VALIDATION@, fields.event_validation),
            ("IsFromNewSite"@, "1"@),
            ("JavaScriptTest"@, "1"@),
            ("ctl00$ContentPlaceHolder1$loginform$txtUserName"@, username),
            ("txtPassword"@, password),
        ]
    }

    /// The form that submits `username` and `password` with these fields.
    pub fn credentials_form(&self, username: &str, password: &str) -> (r: Vec<(String, String)>)
        ensures
            pair_views(r@) == Self::form_of(self@, username@, password@),
    {
        let mut r: Vec<(String, String)> = Vec::new();
        push_pair(&mut r, "__EVENTTARGET", "");
        push_pair(&mut r, "__EVENTARGUMENT", "");
        push_pair(&mut r, "__VIEWSTATEENCRYPTED", "");
        push_pair(&mut r, VIEWSTATE, self.viewstate.as_str());
        push_pair(&mut r, VIEWSTATE_GENERATOR, self.viewstate_generator.as_str());
        push_pair(&mut r, PREVIOUS_PAGE, self.previous_page.as_str());
        push_pair(&mut r, EVENT_VALIDATION, self.event_validation.as_str());
        push_pair(&mut r, "IsFromNewSite", "1");
        push_pair(&mut r, "JavaScriptTest", "1");
        push_pair(&mut r, "ctl00$ContentPlaceHolder1$loginform$txtUserName", username);
        push_pair(&mut r, "txtPassword", password);
        assert(pair_views(r@) =~= Self::form_of(self@, username@, password@));
        r
    }
}

/// How a login ended, judged by the URL that its redirects led to.
pub open spec fn redirect_refuses_credentials(final_url: Seq<char>) -> bool {
    has_substring(final_url, "m=login_fail"@) || has_substring(final_url, "err=login_fail"@)
}

/// The URL that the redirects of a locked-out login lead to.
pub open spec fn redirect_reports_lockout(final_url: Seq<char>) -> bool {
    has_substring(final_url, "m=LockedOut"@) || has_substring(final_url, "err=locked"@)
}

/// Judges where the credentials' submission ended: refused credentials,
/// a locked-out account, or success.
pub fn check_login_redirect(final_url: &str) -> (r: Result<(), AlarmError>)
    ensures
        redirect_refuses_credentials(final_url@) ==> (r matches Err(
            AlarmError::AuthenticationFailed(m),
        ) && m@ == "invalid username or password"@),
        !redirect_refuses_credentials(final_url@) && redirect_reports_lockout(final_url@) ==> r
            matches Err(AlarmError::AccountLockedOut),
        !redirect_refuses_credentials(final_url@) && !redirect_reports_lockout(final_url@) ==> r
            is Ok,
{
    if contains_text(final_url, "m=login_fail") || contains_text(final_url, "err=login_fail") {
        return Err(
            AlarmError::AuthenticationFailed(String::from_str("invalid username or password")),
        );
    }
    if contains_text(final_url, "m=LockedOut") || contains_text(final_url, "err=locked") {
        return Err(AlarmError::AccountLockedOut);
    }
    Ok(())
}

/// A login whose redirects lead to a URL that carries `m=login_fail` or
/// `err=login_fail` anywhere was refused for its credentials; one whose URL
/// carries `m=LockedOut` or `err=locked` anywhere reports a locked-out account.
pub proof fn law_redirect_markers(before: Seq<char>, after: Seq<char>)
    ensures
        redirect_refuses_credentials(before + "m=login_fail"@ + after),
        redirect_refuses_credentials(before + "err=login_fail"@ + after),
        redirect_reports_lockout(before + "m=LockedOut"@ + after),
        redirect_reports_lockout(before + "err=locked"@ + after),
{
    law_substring_found(before, "m=login_fail"@, after);
    law_substring_found(before, "err=login_fail"@, after);
    law_substring_found(before, "m=LockedOut"@, after);
    law_substring_found(before, "err=locked"@, after);
}

/// The login form carries the username under the user-name field and the
/// password under `txtPassword`, last of all and in that order, and the page's
/// hidden fields under their own names; what comes before the credentials
/// does not depend on them.
pub proof fn law_form_carries_credentials(
    f: LoginFormView,
    username: Seq<char>,
    password: Seq<char>,
    other_username: Seq<char>,
    other_password: Seq<char>,
)
    ensures
        LoginFormFields::form_of(f, username, password).len() == 11,
        LoginFormFields::form_of(f, username, password)[9] == (
            "ctl00$ContentPlaceHolder1$loginform$txtUserName"@,
            username,
        ),
        LoginFormFields::form_of(f, username, password)[10] == ("txtPassword"@, password),
        LoginFormFields::form_of(f, username, password)[3] == ("__VIEWSTATE"@, f.viewstate),
        LoginFormFields::form_of(f, username, password)[4] == (
            "__VIEWSTATEGENERATOR"@,
            f.viewstate_generator,
        ),
        LoginFormFields::form_of(f, username, password)[5] == ("__PREVIOUSPAGE"@, f.previous_page),
        LoginFormFields::form_of(f, username, password)[6] == (
            "__EVENTVALIDATION"@,
            f.event_validation,
        ),
        LoginFormFields::form_of(f, username, password).take(9) == LoginFormFields::form_of(
            f,
            other_username,
            other_password,
        ).take(9),
{
    assert(LoginFormFields::form_of(f, username, password).take(9) =~= LoginFormFields::form_of(
        f,
        other_username,
        other_password,
    ).take(9));
}

} // verus!
