//! The session of a client of the Alarm.com API and the rules that keep it.
//!
//! The session holds the credentials, the anti-forgery key (`afg`) that API
//! requests must carry, the trusted-device cookie that bypasses two-factor
//! authentication, and whether the login has completed. The transport layer
//! performs the HTTP exchanges and reports what came back; the decisions on
//! what to send and how to read the answers are taken here.

use vstd::prelude::*;

use crate::auth::{
    afg_of_page, check_login_redirect, extract_afg_from_html, redirect_refuses_credentials,
    redirect_reports_lockout, LoginFormFields, USER_AGENT,
};
use crate::error::AlarmError;
use crate::models::device::opt_text;
use crate::models::jsonapi::{ApiError, ApiResponse, ErrorDocument};
use crate::retry::{is_success_status, status_is_success};
use crate::text::{
    debug_u32_list, debug_u32_list_text, has_prefix, pair_views, parse_u32_text, parsed_u32,
    push_pair, split_on, split_text, strip_prefix_text, text_eq, trim_text, trimmed,
};

verus! {

pub const API_URL_BASE: &'static str = "https://www.alarm.com/web/api/";

/// The cookie that carries the anti-forgery key.
pub const AFG_COOKIE: &'static str = "afg";

/// The cookie that marks this client as a trusted device.
pub const TRUSTED_DEVICE_COOKIE: &'static str = "twoFactorAuthenticationId";

/// What a session holds.
pub struct SessionView {
    pub ajax_key: Option<Seq<char>>,
    pub username: Seq<char>,
    pub password: Seq<char>,
    pub trusted_device_cookie: Option<Seq<char>>,
    pub logged_in: bool,
}

/// The session state of a client of the Alarm.com API.
pub struct AlarmClient {
    ajax_key: Option<String>,
    username: String,
    password: String,
    trusted_device_cookie: Option<String>,
    logged_in: bool,
}

impl View for AlarmClient {
    type V = SessionView;

    closed spec fn view(&self) -> SessionView {
        SessionView {
            ajax_key: opt_text(self.ajax_key),
            username: self.username@,
            password: self.password@,
            trusted_device_cookie: opt_text(self.trusted_device_cookie),
            logged_in: self.logged_in,
        }
    }
}

/// The view of an optional string slice.
pub open spec fn opt_str(s: Option<&str>) -> Option<Seq<char>> {
    match s {
        Some(t) => Some(t@),
        None => None,
    }
}

/// The anti-forgery key and the trusted-device cookie of a session.
pub type Tokens = (Option<Seq<char>>, Option<Seq<char>>);

/// One `name=value` entry of a cookie header, already trimmed: an `afg`
/// entry replaces the key, a non-empty trusted-device entry replaces the cookie.
pub open spec fn apply_cookie_entry(t: Tokens, entry: Seq<char>) -> Tokens {
    let afg = "afg="@;
    let trusted = "twoFactorAuthenticationId="@;
    let t1 = if has_prefix(entry, afg) {
        (Some(entry.skip(afg.len() as int)), t.1)
    } else {
        t
    };
    if has_prefix(entry, trusted) && entry.len() > trusted.len() {
        (t1.0, Some(entry.skip(trusted.len() as int)))
    } else {
        t1
    }
}

/// The tokens after reading the entries of a cookie header in order.
pub open spec fn apply_cookie_entries(t: Tokens, parts: Seq<Seq<char>>) -> Tokens
    decreases parts.len(),
{
    if parts.len() == 0 {
        t
    } else {
        apply_cookie_entry(apply_cookie_entries(t, parts.drop_last()), trimmed(parts.last()))
    }
}

/// One cookie that a response set: `afg` replaces the key, a non-empty
/// trusted-device cookie replaces the cookie.
pub open spec fn apply_response_cookie(t: Tokens, name: Seq<char>, value: Seq<char>) -> Tokens {
    let t1 = if name == "afg"@ {
        (Some(value), t.1)
    } else {
        t
    };
    if name == "twoFactorAuthenticationId"@ && value.len() > 0 {
        (t1.0, Some(value))
    } else {
        t1
    }
}

/// The tokens after the cookies of a response, in order.
pub open spec fn apply_response_cookies(t: Tokens, cookies: Seq<(Seq<char>, Seq<char>)>) -> Tokens
    decreases cookies.len(),
{
    if cookies.len() == 0 {
        t
    } else {
        let prev = apply_response_cookies(t, cookies.drop_last());
        apply_response_cookie(prev, cookies.last().0, cookies.last().1)
    }
}

/// The session after reading a cookie header of the jar.
pub open spec fn with_cookie_header(s: SessionView, header: Seq<char>) -> SessionView {
    let t = apply_cookie_entries((s.ajax_key, s.trusted_device_cookie), split_on(header, ';'));
    SessionView { ajax_key: t.0, trusted_device_cookie: t.1, ..s }
}

/// The session after reading the cookies that a response set.
pub open spec fn with_response_cookies(s: SessionView, cookies: Seq<(Seq<char>, Seq<char>)>) -> SessionView {
    let t = apply_response_cookies((s.ajax_key, s.trusted_device_cookie), cookies);
    SessionView { ajax_key: t.0, trusted_device_cookie: t.1, ..s }
}

/// The session after looking for the key in a page: only a session without
/// a key takes the page's.
pub open spec fn with_page_afg(s: SessionView, html: Seq<char>) -> SessionView {
    if s.ajax_key is Some {
        s
    } else {
        SessionView { ajax_key: afg_of_page(html), ..s }
    }
}

/// The session once a trusted device cookie is set to `cookie`.
pub open spec fn with_trusted_cookie(s: SessionView, cookie: Seq<char>) -> SessionView {
    SessionView { trusted_device_cookie: Some(cookie), ..s }
}

/// The session once a full login starts: logged out, without a key.
pub open spec fn login_started(s: SessionView) -> SessionView {
    SessionView { logged_in: false, ajax_key: None, ..s }
}

/// The credentials' submission went through: its redirects named neither
/// refused credentials nor a locked-out account.
pub open spec fn credentials_accepted(final_url: Seq<char>) -> bool {
    !redirect_refuses_credentials(final_url) && !redirect_reports_lockout(final_url)
}

/// The session after the credentials were submitted: unchanged when they
/// were refused, else with the jar's tokens and the page's key.
pub open spec fn after_credentials(s: SessionView, final_url: Seq<char>, body: Seq<char>, jar: Seq<char>) -> SessionView {
    if credentials_accepted(final_url) {
        with_page_afg(with_cookie_header(s, jar), body)
    } else {
        s
    }
}

/// The session after the home page was loaded for the key: its cookies,
/// then the jar's, then, if still without a key, the page's.
pub open spec fn after_home_page(
    s: SessionView,
    cookies: Seq<(Seq<char>, Seq<char>)>,
    jar: Seq<char>,
    body: Seq<char>,
) -> SessionView {
    with_page_afg(with_cookie_header(with_response_cookies(s, cookies), jar), body)
}

/// The test API call that ends a login passes: neither 409 nor a failure.
pub open spec fn session_check_passes(status: u16) -> bool {
    status != 409 && is_success_status(status)
}

/// The session after the test API call: logged in when it passed.
pub open spec fn after_session_check(s: SessionView, status: u16) -> SessionView {
    if session_check_passes(status) {
        SessionView { logged_in: true, ..s }
    } else {
        s
    }
}

/// A whole login from the session `s`, the exchanges answering as given:
/// the session it leaves and whether it succeeded. A refused submission
/// ends it; the home page is loaded only when the key is still missing.
pub open spec fn login_run(
    s: SessionView,
    final_url: Seq<char>,
    body: Seq<char>,
    jar: Seq<char>,
    home_cookies: Seq<(Seq<char>, Seq<char>)>,
    home_jar: Seq<char>,
    home_body: Seq<char>,
    status: u16,
) -> (SessionView, bool) {
    let s1 = login_started(s);
    if !credentials_accepted(final_url) {
        (s1, false)
    } else {
        let s2 = after_credentials(s1, final_url, body, jar);
        let s3 = if s2.ajax_key is None {
            after_home_page(s2, home_cookies, home_jar, home_body)
        } else {
            s2
        };
        (after_session_check(s3, status), session_check_passes(status))
    }
}

/// The headers of an API request, in order.
pub open spec fn request_headers(ajax_key: Option<Seq<char>>, use_ajax_key: bool) -> Seq<
    (Seq<char>, Seq<char>),
> {
    let base = seq![
        ("User-Agent"@, USER_AGENT@),
        ("Referer"@, "https://www.alarm.com/web/system/home"@),
        ("Connection"@, "keep-alive"@),
        ("Accept"@, "application/vnd.api+json"@),
    ];
    if use_ajax_key && ajax_key is Some {
        base.push(("Ajaxrequestuniquekey"@, ajax_key->0))
    } else {
        base
    }
}

/// The URL of an API path, with the ID and the action as further segments.
pub open spec fn api_url(path: Seq<char>, id: Option<Seq<char>>, action: Option<Seq<char>>) -> Seq<char> {
    let base = API_URL_BASE@ + path;
    let with_id = match id {
        Some(i) => base + "/"@ + i,
        None => base,
    };
    match action {
        Some(a) => with_id + "/"@ + a,
        None => with_id,
    }
}

/// The status codes that the errors of an error document carry, in order,
/// skipping codes that are absent or not numbers.
pub open spec fn error_codes(errors: Seq<ApiError>) -> Seq<u32>
    decreases errors.len(),
{
    if errors.len() == 0 {
        Seq::empty()
    } else {
        let prev = error_codes(errors.drop_last());
        match errors.last().code {
            Some(c) => match parsed_u32(c@) {
                Some(n) => prev.push(n),
                None => prev,
            },
            None => prev,
        }
    }
}

/// The report of an error document that names no known status: the detail
/// of its first error, else the codes it carries.
pub open spec fn error_detail(errors: Seq<ApiError>) -> Seq<char> {
    if errors.len() > 0 && errors[0].detail is Some {
        errors[0].detail->0@
    } else {
        "error codes: "@ + debug_u32_list(error_codes(errors))
    }
}

/// The error that an error document reports.
pub open spec fn reports_error(errors: Seq<ApiError>, e: AlarmError) -> bool {
    let codes = error_codes(errors);
    if codes.contains(401) || codes.contains(403) {
        e is SessionExpired
    } else if codes.contains(406) || codes.contains(423) {
        e matches AlarmError::NotAuthorized(m) && m@ == "server returned permission error"@
    } else if codes.contains(409) {
        e is TwoFactorRequired
    } else {
        e matches AlarmError::UnexpectedResponse(m) && m@ == error_detail(errors)
    }
}

fn contains_code(codes: &Vec<u32>, code: u32) -> (r: bool)
    ensures
        r == codes@.contains(code),
{
    let mut i: usize = 0;
    while i < codes.len()
        invariant
            i <= codes@.len(),
            forall|j: int| 0 <= j < i ==> codes@[j] != code,
        decreases codes.len() - i,
    {
        if codes[i] == code {
            assert(codes@[i as int] == code);
            return true;
        }
        i += 1;
    }
    false
}

impl AlarmClient {
    /// A session that holds the given credentials and nothing else yet.
    pub fn new(username: &str, password: &str) -> (c: Self)
        ensures
            c@ == (SessionView {
                ajax_key: None,
                username: username@,
                password: password@,
                trusted_device_cookie: None,
                logged_in: false,
            }),
    {
        AlarmClient {
            ajax_key: None,
            username: String::from_str(username),
            password: String::from_str(password),
            trusted_device_cookie: None,
            logged_in: false,
        }
    }

    /// Whether the client has completed authentication.
    pub fn is_logged_in(&self) -> (r: bool)
        ensures
            r == self@.logged_in,
    {
        self.logged_in
    }

    /// Set a trusted device cookie to bypass 2FA on login.
    ///
    /// This cookie value (`twoFactorAuthenticationId`) is set by Alarm.com
    /// after a successful 2FA completion. Providing it marks this client as
    /// a "trusted device" so 2FA is not required on subsequent logins.
    pub fn set_trusted_device_cookie(&mut self, cookie: &str)
        ensures
            final(self)@ == with_trusted_cookie(old(self)@, cookie@),
    {
        self.trusted_device_cookie = Some(String::from_str(cookie));
    }

    /// Get the current trusted device cookie value, if available.
    pub fn trusted_device_cookie(&self) -> (r: Option<&str>)
        ensures
            opt_str(r) == self@.trusted_device_cookie,
    {
        match &self.trusted_device_cookie {
            Some(c) => Some(c.as_str()),
            None => None,
        }
    }

    /// Whether the session holds an anti-forgery key.
    pub fn has_ajax_key(&self) -> (r: bool)
        ensures
            r == self@.ajax_key is Some,
    {
        self.ajax_key.is_some()
    }

    /// The cookie line that presets the trusted device cookie before a
    /// login: `twoFactorAuthenticationId={cookie}; Path=/`.
    pub fn trusted_cookie_line(&self) -> (r: Option<String>)
        ensures
            opt_text(r) == match self@.trusted_device_cookie {
                Some(c) => Some("twoFactorAuthenticationId="@ + c + "; Path=/"@),
                None => None,
            },
    {
        match &self.trusted_device_cookie {
            Some(c) => Some(
                String::from_str("twoFactorAuthenticationId=").concat(c.as_str()).concat("; Path=/"),
            ),
            None => None,
        }
    }

    /// A full login starts over: not logged in, no anti-forgery key.
    pub fn begin_login(&mut self)
        ensures
            final(self)@ == login_started(old(self)@),
    {
        self.logged_in = false;
        self.ajax_key = None;
    }

    /// An automatic new login starts: not logged in, the key kept.
    pub fn begin_relogin(&mut self)
        ensures
            final(self)@ == (SessionView { logged_in: false, ..old(self)@ }),
    {
        self.logged_in = false;
    }

    /// The form that submits this session's credentials with `fields`.
    pub fn login_form(&self, fields: &LoginFormFields) -> (r: Vec<(String, String)>)
        ensures
            pair_views(r@) == LoginFormFields::form_of(fields@, self@.username, self@.password),
    {
        let r = fields.credentials_form(self.username.as_str(), self.password.as_str());
        r
    }

    /// Reads the cookies that the jar holds for the site, as the header line
    /// `name=value; name=value` that it gives.
    pub fn refresh_cookies_from_jar(&mut self, cookie_header: &str)
        ensures
            final(self)@ == with_cookie_header(old(self)@, cookie_header@),
    {
        proof {
            reveal_strlit("afg=");
            reveal_strlit("twoFactorAuthenticationId=");
        }
        let parts = split_text(cookie_header, ';');
        let ghost views = parts@.map_values(|p: &str| p@);
        let ghost start = (old(self)@.ajax_key, old(self)@.trusted_device_cookie);
        let mut i: usize = 0;
        while i < parts.len()
            invariant
                i <= parts@.len(),
                views == parts@.map_values(|p: &str| p@),
                views == split_on(cookie_header@, ';'),
                (self@.ajax_key, self@.trusted_device_cookie) == apply_cookie_entries(
                    start,
                    views.take(i as int),
                ),
                self@.username == old(self)@.username,
                self@.password == old(self)@.password,
                self@.logged_in == old(self)@.logged_in,
            decreases parts.len() - i,
        {
            proof {
                reveal_strlit("afg=");
                reveal_strlit("twoFactorAuthenticationId=");
                assert(views.take(i + 1).drop_last() =~= views.take(i as int));
                assert(views.take(i + 1).last() == parts@[i as int]@);
            }
            let part = trim_text(parts[i]);
            if let Some(value) = strip_prefix_text(part, "afg=") {
                self.ajax_key = Some(String::from_str(value));
            }
            if let Some(value) = strip_prefix_text(part, "twoFactorAuthenticationId=") {
                if value.unicode_len() > 0 {
                    self.trusted_device_cookie = Some(String::from_str(value));
                }
            }
            i += 1;
        }
        assert(views.take(parts@.len() as int) =~= views);
    }

    /// Reads the cookies (name, value) that a response set.
    pub fn update_afg_from_response(&mut self, cookies: &Vec<(String, String)>)
        ensures
            final(self)@ == with_response_cookies(old(self)@, pair_views(cookies@)),
    {
        let ghost views = pair_views(cookies@);
        let ghost start = (old(self)@.ajax_key, old(self)@.trusted_device_cookie);
        let mut i: usize = 0;
        while i < cookies.len()
            invariant
                i <= cookies@.len(),
                views == pair_views(cookies@),
                (self@.ajax_key, self@.trusted_device_cookie) == apply_response_cookies(
                    start,
                    views.take(i as int),
                ),
                self@.username == old(self)@.username,
                self@.password == old(self)@.password,
                self@.logged_in == old(self)@.logged_in,
            decreases cookies.len() - i,
        {
            proof {
                assert(views.take(i + 1).drop_last() =~= views.take(i as int));
                assert(views.take(i + 1).last() == (cookies@[i as int].0@, cookies@[i as int].1@));
            }
            let name = cookies[i].0.as_str();
            let value = cookies[i].1.as_str();
            if text_eq(name, "afg") {
                self.ajax_key = Some(String::from_str(value));
            }
            if text_eq(name, "twoFactorAuthenticationId") && value.unicode_len() > 0 {
                self.trusted_device_cookie = Some(String::from_str(value));
            }
            i += 1;
        }
        assert(views.take(cookies@.len() as int) =~= views);
    }

    /// When the session has no anti-forgery key yet, takes the one that the
    /// page `html` sets, if it sets one.
    pub fn adopt_afg_from_html(&mut self, html: &str)
        ensures
            final(self)@ == with_page_afg(old(self)@, html@),
    {
        if self.ajax_key.is_none() {
            if let Some(afg) = extract_afg_from_html(html) {
                self.ajax_key = Some(afg);
            }
        }
    }

    /// The credentials were submitted and the redirects followed to
    /// `final_url`, whose page is `body`; the cookie jar now reads
    /// `jar_header`. Judges where the login ended and, when it went through,
    /// takes the tokens from the jar and the key from the page. Answers
    /// whether the session still lacks its key, so that the home page must
    /// be loaded for it.
    pub fn credentials_submitted(&mut self, final_url: &str, body: &str, jar_header: &str) -> (r:
        Result<bool, AlarmError>)
        ensures
            redirect_refuses_credentials(final_url@) ==> (r matches Err(
                AlarmError::AuthenticationFailed(m),
            ) && m@ == "invalid username or password"@) && final(self)@ == old(self)@,
            !redirect_refuses_credentials(final_url@) && redirect_reports_lockout(final_url@) ==> (r
                matches Err(AlarmError::AccountLockedOut)) && final(self)@ == old(self)@,
            !redirect_refuses_credentials(final_url@) && !redirect_reports_lockout(final_url@) ==> (
            r matches Ok(needs_home) && final(self)@ == with_page_afg(
                with_cookie_header(old(self)@, jar_header@),
                body@,
            ) && needs_home == (final(self)@.ajax_key is None)),
            r is Ok == credentials_accepted(final_url@),
            final(self)@ == after_credentials(old(self)@, final_url@, body@, jar_header@),
    {
        match check_login_redirect(final_url) {
            Err(e) => Err(e),
            Ok(()) => {
                self.refresh_cookies_from_jar(jar_header);
                self.adopt_afg_from_html(body);
                Ok(self.ajax_key.is_none())
            },
        }
    }

    /// The credentials of an automatic new login were submitted and the
    /// redirects followed to `final_url`; the jar now reads `jar_header`.
    /// When the submission went through, the session takes the jar's tokens
    /// and counts as logged in.
    pub fn relogin_submitted(&mut self, final_url: &str, jar_header: &str) -> (r: Result<(), AlarmError>)
        ensures
            redirect_refuses_credentials(final_url@) ==> (r matches Err(
                AlarmError::AuthenticationFailed(m),
            ) && m@ == "invalid username or password"@) && final(self)@ == old(self)@,
            !redirect_refuses_credentials(final_url@) && redirect_reports_lockout(final_url@) ==> (r
                matches Err(AlarmError::AccountLockedOut)) && final(self)@ == old(self)@,
            !redirect_refuses_credentials(final_url@) && !redirect_reports_lockout(final_url@) ==> r
                is Ok && final(self)@ == (SessionView {
                logged_in: true,
                ..with_cookie_header(old(self)@, jar_header@)
            }),
    {
        match check_login_redirect(final_url) {
            Err(e) => Err(e),
            Ok(()) => {
                self.refresh_cookies_from_jar(jar_header);
                self.logged_in = true;
                Ok(())
            },
        }
    }

    /// Judges the test API call that ends a login: a 409 asks for two-factor
    /// authentication, another failure refuses the session, success
    /// completes the login.
    pub fn finish_login(&mut self, status: u16, status_text: &str, body: &str) -> (r: Result<
        (),
        AlarmError,
    >)
        ensures
            status == 409 ==> (r matches Err(AlarmError::TwoFactorRequired)) && final(self)@
                == old(self)@,
            status != 409 && !is_success_status(status) ==> (r matches Err(
                AlarmError::AuthenticationFailed(m),
            ) && m@ == "session verification failed with status "@ + status_text@ + ": "@ + body@)
                && final(self)@ == old(self)@,
            status != 409 && is_success_status(status) ==> r is Ok && final(self)@ == (SessionView {
                logged_in: true,
                ..old(self)@
            }),
            r is Ok == session_check_passes(status),
            final(self)@ == after_session_check(old(self)@, status),
    {
        if status == 409 {
            return Err(AlarmError::TwoFactorRequired);
        }
        if !status_is_success(status) {
            let m = String::from_str("session verification failed with status ").concat(
                status_text,
            ).concat(": ").concat(body);
            return Err(AlarmError::AuthenticationFailed(m));
        }
        self.logged_in = true;
        Ok(())
    }

    /// Judges the answer to a keep-alive signal: a 403 means the session
    /// has expired, otherwise the signal worked when it succeeded.
    pub fn keep_alive_result(&mut self, status: u16) -> (r: bool)
        ensures
            status == 403 ==> !r && final(self)@ == (SessionView {
                logged_in: false,
                ..old(self)@
            }),
            status != 403 ==> r == is_success_status(status) && final(self)@ == old(self)@,
    {
        if status == 403 {
            self.logged_in = false;
            return false;
        }
        status_is_success(status)
    }

    /// The URL of an API path, with the ID and the action as further segments.
    pub fn build_url(&self, path: &str, id: Option<&str>, action: Option<&str>) -> (r: String)
        ensures
            r@ == api_url(path@, opt_str(id), opt_str(action)),
    {
        let mut url = String::from_str(API_URL_BASE).concat(path);
        if let Some(id) = id {
            url.append("/");
            url.append(id);
        }
        if let Some(action) = action {
            url.append("/");
            url.append(action);
        }
        url
    }

    /// The headers of an API request; the anti-forgery key is added when
    /// asked for and the session holds one.
    pub fn build_headers(&self, use_ajax_key: bool) -> (r: Vec<(String, String)>)
        ensures
            pair_views(r@) == request_headers(self@.ajax_key, use_ajax_key),
    {
        let mut r: Vec<(String, String)> = Vec::new();
        push_pair(&mut r, "User-Agent", USER_AGENT);
        push_pair(&mut r, "Referer", "https://www.alarm.com/web/system/home");
        push_pair(&mut r, "Connection", "keep-alive");
        push_pair(&mut r, "Accept", "application/vnd.api+json");
        if use_ajax_key {
            if let Some(key) = &self.ajax_key {
                push_pair(&mut r, "Ajaxrequestuniquekey", key.as_str());
            }
        }
        assert(pair_views(r@) =~= request_headers(self@.ajax_key, use_ajax_key));
        r
    }

    /// Judges a response body that the JSON:API reader read as `parsed`
    /// (or refused with the reader's report): an error document becomes the
    /// error it reports, any other document is the answer.
    pub fn parse_response(&self, parsed: Result<ApiResponse, String>) -> (r: Result<
        ApiResponse,
        AlarmError,
    >)
        ensures
            parsed matches Err(m) ==> (r matches Err(AlarmError::Json(j)) && j@ == m@),
            parsed matches Ok(ApiResponse::Error(doc)) ==> (r matches Err(e) && reports_error(
                doc.errors@,
                e,
            )),
            parsed matches Ok(resp) ==> (!(resp is Error) ==> (r matches Ok(x) && x == resp)),
    {
        match parsed {
            Err(m) => Err(AlarmError::Json(m)),
            Ok(ApiResponse::Error(doc)) => self.handle_error_document(&doc),
            Ok(resp) => Ok(resp),
        }
    }

    /// The error that an error document reports.
    pub fn handle_error_document(&self, err_doc: &ErrorDocument) -> (r: Result<
        ApiResponse,
        AlarmError,
    >)
        ensures
            r matches Err(e) && reports_error(err_doc.errors@, e),
    {
        let errors = &err_doc.errors;
        let mut codes: Vec<u32> = Vec::new();
        let mut i: usize = 0;
        while i < errors.len()
            invariant
                errors@ == err_doc.errors@,
                i <= errors@.len(),
                codes@ == error_codes(errors@.take(i as int)),
            decreases errors.len() - i,
        {
            assert(errors@.take(i + 1).drop_last() =~= errors@.take(i as int));
            assert(errors@.take(i + 1).last() == errors@[i as int]);
            if let Some(code) = &errors[i].code {
                if let Some(n) = parse_u32_text(code.as_str()) {
                    codes.push(n);
                }
            }
            i += 1;
        }
        assert(errors@.take(errors@.len() as int) =~= errors@);
        if contains_code(&codes, 401) || contains_code(&codes, 403) {
            return Err(AlarmError::SessionExpired);
        }
        if contains_code(&codes, 406) || contains_code(&codes, 423) {
            return Err(
                AlarmError::NotAuthorized(String::from_str("server returned permission error")),
            );
        }
        if contains_code(&codes, 409) {
            return Err(AlarmError::TwoFactorRequired);
        }
        let detail = if errors.len() > 0 && errors[0].detail.is_some() {
            match &errors[0].detail {
                Some(d) => d.clone(),
                None => String::new(),
            }
        } else {
            String::from_str("error codes: ").concat(debug_u32_list_text(&codes).as_str())
        };
        Err(AlarmError::UnexpectedResponse(detail))
    }
}

// ---------------------------------------------------------------------------
// Laws of the session
// ---------------------------------------------------------------------------

/// A token set by a cookie update is never empty.
pub open spec fn token_kept(before: Option<Seq<char>>, after: Option<Seq<char>>) -> bool {
    &&& before is Some ==> after is Some
    &&& after != before ==> after is Some
}

/// Reading a cookie header never drops the anti-forgery key or the trusted
/// device cookie, and never replaces the cookie by an empty one.
pub proof fn law_cookie_header_keeps_tokens(t: Tokens, parts: Seq<Seq<char>>)
    ensures
        token_kept(t.0, apply_cookie_entries(t, parts).0),
        token_kept(t.1, apply_cookie_entries(t, parts).1),
        apply_cookie_entries(t, parts).1 != t.1 ==> apply_cookie_entries(t, parts).1->0.len() > 0,
    decreases parts.len(),
{
    if parts.len() > 0 {
        law_cookie_header_keeps_tokens(t, parts.drop_last());
        let prev = apply_cookie_entries(t, parts.drop_last());
        let entry = trimmed(parts.last());
        let trusted = "twoFactorAuthenticationId="@;
        if has_prefix(entry, trusted) && entry.len() > trusted.len() {
            assert(entry.skip(trusted.len() as int).len() > 0);
        }
    }
}

/// The cookies of a response never drop the anti-forgery key or the trusted
/// device cookie, and never replace the cookie by an empty one.
pub proof fn law_response_cookies_keep_tokens(t: Tokens, cookies: Seq<(Seq<char>, Seq<char>)>)
    ensures
        token_kept(t.0, apply_response_cookies(t, cookies).0),
        token_kept(t.1, apply_response_cookies(t, cookies).1),
        apply_response_cookies(t, cookies).1 != t.1 ==> apply_response_cookies(t, cookies).1->0.len()
            > 0,
    decreases cookies.len(),
{
    if cookies.len() > 0 {
        law_response_cookies_keep_tokens(t, cookies.drop_last());
    }
}

/// The trusted device cookie reads back as it was set (what
/// `trusted_device_cookie` returns after `set_trusted_device_cookie`), and
/// setting it changes nothing else in the session: not the key, the
/// credentials, nor whether the session is logged in.
pub proof fn law_trusted_cookie_reads_back(s: SessionView, cookie: Seq<char>)
    ensures
        with_trusted_cookie(s, cookie).trusted_device_cookie == Some(cookie),
        with_trusted_cookie(s, cookie).ajax_key == s.ajax_key,
        with_trusted_cookie(s, cookie).username == s.username,
        with_trusted_cookie(s, cookie).password == s.password,
        with_trusted_cookie(s, cookie).logged_in == s.logged_in,
{
}

/// A login leaves the client logged in exactly when it succeeds, whatever
/// state it started from: every state on the way is logged out (so a login
/// that stops at any step, the exchanges' own failures included, leaves the
/// client logged out), and the final state is logged in exactly when the
/// credentials were accepted and the test call passed.
pub proof fn law_login_logged_in_iff_success(
    s: SessionView,
    final_url: Seq<char>,
    body: Seq<char>,
    jar: Seq<char>,
    home_cookies: Seq<(Seq<char>, Seq<char>)>,
    home_jar: Seq<char>,
    home_body: Seq<char>,
    status: u16,
)
    ensures
        !login_started(s).logged_in,
        !after_credentials(login_started(s), final_url, body, jar).logged_in,
        !with_response_cookies(
            after_credentials(login_started(s), final_url, body, jar),
            home_cookies,
        ).logged_in,
        !with_cookie_header(
            with_response_cookies(
                after_credentials(login_started(s), final_url, body, jar),
                home_cookies,
            ),
            home_jar,
        ).logged_in,
        !after_home_page(
            after_credentials(login_started(s), final_url, body, jar),
            home_cookies,
            home_jar,
            home_body,
        ).logged_in,
        login_run(s, final_url, body, jar, home_cookies, home_jar, home_body, status).0.logged_in
            == login_run(s, final_url, body, jar, home_cookies, home_jar, home_body, status).1,
        login_run(s, final_url, body, jar, home_cookies, home_jar, home_body, status).1 == (
        credentials_accepted(final_url) && session_check_passes(status)),
{
}

/// Reading cookies and pages changes only the key and the trusted device
/// cookie: never the credentials, nor whether the session is logged in.
pub proof fn law_token_updates_touch_only_tokens(
    s: SessionView,
    header: Seq<char>,
    cookies: Seq<(Seq<char>, Seq<char>)>,
    html: Seq<char>,
)
    ensures
        with_cookie_header(s, header).username == s.username,
        with_cookie_header(s, header).password == s.password,
        with_cookie_header(s, header).logged_in == s.logged_in,
        with_response_cookies(s, cookies).username == s.username,
        with_response_cookies(s, cookies).password == s.password,
        with_response_cookies(s, cookies).logged_in == s.logged_in,
        with_page_afg(s, html).username == s.username,
        with_page_afg(s, html).password == s.password,
        with_page_afg(s, html).logged_in == s.logged_in,
        with_page_afg(s, html).trusted_device_cookie == s.trusted_device_cookie,
{
}

/// A key that the session holds is never replaced by one from a page.
pub proof fn law_page_never_replaces_key(s: SessionView, html: Seq<char>)
    requires
        s.ajax_key is Some,
    ensures
        with_page_afg(s, html) == s,
{
}

/// An error document that carries 401 or 403 always means an expired
/// session, whatever else it carries.
pub proof fn law_expired_session_wins(errors: Seq<ApiError>, e: AlarmError)
    requires
        error_codes(errors).contains(401) || error_codes(errors).contains(403),
    ensures
        reports_error(errors, e) <==> e is SessionExpired,
{
}

/// An API URL is the API's base, then the path, then `/` and the device's ID
/// whenever an ID is given (whether or not an action follows), then `/` and
/// the action whenever one is given.
pub proof fn law_url_parts(path: Seq<char>, id: Seq<char>, action: Seq<char>, some_id: Option<Seq<char>>)
    ensures
        api_url(path, None, None) == "https://www.alarm.com/web/api/"@ + path,
        api_url(path, Some(id), None) == api_url(path, None, None) + "/"@ + id,
        api_url(path, some_id, Some(action)) == api_url(path, some_id, None) + "/"@ + action,
{
}

/// An error document whose codes include 406 or 423, and neither 401 nor 403,
/// reports the refused permission: `NotAuthorized` and nothing else.
pub proof fn law_permission_error_reported(errors: Seq<ApiError>, e: AlarmError)
    requires
        error_codes(errors).contains(406) || error_codes(errors).contains(423),
        !error_codes(errors).contains(401),
        !error_codes(errors).contains(403),
    ensures
        reports_error(errors, e) <==> (e matches AlarmError::NotAuthorized(m)
            && m@ == "server returned permission error"@),
{
}

/// An error document whose codes include 409, and none of 401, 403, 406 and
/// 423, reports that two-factor authentication is required.
pub proof fn law_conflict_error_reported(errors: Seq<ApiError>, e: AlarmError)
    requires
        error_codes(errors).contains(409),
        !error_codes(errors).contains(401),
        !error_codes(errors).contains(403),
        !error_codes(errors).contains(406),
        !error_codes(errors).contains(423),
    ensures
        reports_error(errors, e) <==> e is TwoFactorRequired,
{
}

/// The codes of an error document are those of its errors, in order: an
/// error whose code reads as a number adds it after the codes of the errors
/// before it.
pub proof fn law_error_codes_in_order(errors: Seq<ApiError>, err: ApiError, n: u32)
    requires
        err.code matches Some(c) && parsed_u32(c@) == Some(n),
    ensures
        error_codes(errors.push(err)) == error_codes(errors).push(n),
        error_codes(errors.push(err)).contains(n),
{
    assert(errors.push(err).drop_last() =~= errors);
    assert(error_codes(errors).push(n).last() == n);
}

/// An `afg` cookie set by a response always becomes the key, whatever key the
/// session held and whatever came before it; a cookie of another name leaves
/// the key as it was. Likewise a non-empty trusted-device cookie becomes the
/// trusted device cookie.
pub proof fn law_response_afg_wins(
    s: SessionView,
    cookies: Seq<(Seq<char>, Seq<char>)>,
    name: Seq<char>,
    value: Seq<char>,
)
    ensures
        with_response_cookies(s, cookies.push(("afg"@, value))).ajax_key == Some(value),
        name != "afg"@ ==> with_response_cookies(s, cookies.push((name, value))).ajax_key
            == with_response_cookies(s, cookies).ajax_key,
        value.len() > 0 ==> with_response_cookies(
            s,
            cookies.push(("twoFactorAuthenticationId"@, value)),
        ).trusted_device_cookie == Some(value),
{
    let t = (s.ajax_key, s.trusted_device_cookie);
    assert(cookies.push(("afg"@, value)).drop_last() =~= cookies);
    assert(cookies.push((name, value)).drop_last() =~= cookies);
    assert(cookies.push(("twoFactorAuthenticationId"@, value)).drop_last() =~= cookies);
    reveal_strlit("afg");
    reveal_strlit("twoFactorAuthenticationId");
}

/// An `afg=` entry of the cookie jar always becomes the key, whatever key the
/// session held and whatever entries came before it; an entry that does not
/// start with `afg=` leaves the key as it was.
pub proof fn law_jar_afg_wins(t: Tokens, parts: Seq<Seq<char>>, entry: Seq<char>, value: Seq<char>)
    ensures
        trimmed(entry) == "afg="@ + value ==> apply_cookie_entries(t, parts.push(entry)).0 == Some(
            value,
        ),
        !has_prefix(trimmed(entry), "afg="@) ==> apply_cookie_entries(t, parts.push(entry)).0
            == apply_cookie_entries(t, parts).0,
{
    assert(parts.push(entry).drop_last() =~= parts);
    assert(parts.push(entry).last() == entry);
    if trimmed(entry) == "afg="@ + value {
        reveal_strlit("afg=");
        let te = trimmed(entry);
        assert("afg="@.len() == 4);
        assert(te.take(4) =~= "afg="@);
        assert(has_prefix(te, "afg="@));
        assert(trimmed(entry).skip(4) =~= value);
    }
}

/// The anti-forgery key is sent, as the last header `Ajaxrequestuniquekey`,
/// exactly when it is asked for and held; the headers before it are the same
/// whatever the key.
pub proof fn law_key_header(key: Option<Seq<char>>, use_key: bool, other: Option<Seq<char>>)
    ensures
        request_headers(key, use_key).len() == (if use_key && key is Some {
            5int
        } else {
            4int
        }),
        use_key && key is Some ==> request_headers(key, use_key).last() == (
            "Ajaxrequestuniquekey"@,
            key->0,
        ),
        request_headers(key, use_key).take(4) == request_headers(other, false),
{
    assert(request_headers(key, use_key).take(4) =~= request_headers(other, false));
}

} // verus!
