//! The retry rules of API requests.
//!
//! A request is sent, and each response is answered by a decision: accept the
//! body, send again, log in again and then send again, or give up with an
//! error. The transport runs the loop; this module decides every step.

use vstd::prelude::*;

use crate::error::AlarmError;
use crate::text::{decimal, decimal_text};

verus! {

/// The number of times a GET request is sent again after a failure.
pub const REQUEST_RETRY_LIMIT: u32 = 3;

/// The number of times a POST request is sent again after a failure.
pub const SUBMIT_RETRY_LIMIT: u32 = 2;

/// The HTTP method of an API request.
#[derive(Debug, Clone, Copy, PartialEq, Eq, Structural)]
pub enum RequestMethod {
    Get,
    Post,
}

impl RequestMethod {
    /// How many times a request of this method may be sent again.
    pub open spec fn retry_limit(self) -> nat {
        match self {
            RequestMethod::Get => REQUEST_RETRY_LIMIT as nat,
            RequestMethod::Post => SUBMIT_RETRY_LIMIT as nat,
        }
    }

    /// The method's name as it appears in messages.
    pub open spec fn verb(self) -> Seq<char> {
        match self {
            RequestMethod::Get => "GET"@,
            RequestMethod::Post => "POST"@,
        }
    }
}

/// Whether an HTTP status is one of success (200 to 299).
pub open spec fn is_success_status(status: u16) -> bool {
    200 <= status && status <= 299
}

/// Whether an HTTP status is one of success (200 to 299).
pub fn status_is_success(status: u16) -> (r: bool)
    ensures
        r == is_success_status(status),
{
    200 <= status && status <= 299
}

/// The state of one request's retry loop.
pub struct RetryState {
    pub method: RequestMethod,
    /// How many times the request was sent again so far.
    pub retries: nat,
}

impl RetryState {
    /// The states that the loop can reach: never more retries than the limit.
    pub open spec fn valid(self) -> bool {
        self.retries <= self.method.retry_limit()
    }

    /// How many more times the request may be sent again.
    pub open spec fn budget(self) -> nat {
        (self.method.retry_limit() - self.retries) as nat
    }
}

/// What the loop does next.
#[derive(PartialEq, Eq, Structural)]
pub enum RetryDecision {
    /// The response succeeded: its body is the answer.
    Accept,
    /// Send the request again.
    Retry,
    /// Log in again, then report whether that worked.
    Relogin,
    /// Give up: the session has expired.
    SessionExpired,
    /// Give up: two-factor authentication is required.
    TwoFactorRequired,
    /// Give up: the account may not do this.
    NotAuthorized,
    /// Give up: the retries are spent.
    Unavailable,
}

/// The decision on a response with HTTP status `status`.
pub open spec fn decide_on_response(s: RetryState, status: u16) -> RetryDecision {
    if is_success_status(status) {
        RetryDecision::Accept
    } else if status == 401 || status == 403 {
        if s.retries == 0 {
            RetryDecision::Relogin
        } else {
            RetryDecision::SessionExpired
        }
    } else if status == 409 {
        RetryDecision::TwoFactorRequired
    } else if status == 406 || status == 423 {
        RetryDecision::NotAuthorized
    } else if s.retries >= s.method.retry_limit() {
        RetryDecision::Unavailable
    } else {
        RetryDecision::Retry
    }
}

/// The decision once a login attempt, asked for by `Relogin`, has ended.
pub open spec fn decide_on_relogin(succeeded: bool) -> RetryDecision {
    if succeeded {
        RetryDecision::Retry
    } else {
        RetryDecision::SessionExpired
    }
}

/// The state after a decision: a retry counts, nothing else changes it.
pub open spec fn state_after(s: RetryState, d: RetryDecision) -> RetryState {
    if d == RetryDecision::Retry {
        RetryState { retries: s.retries + 1, ..s }
    } else {
        s
    }
}

/// The message of a refused request: `{method} {url} returned {status}`.
pub open spec fn not_authorized_message(method: RequestMethod, url: Seq<char>, status_text: Seq<char>) -> Seq<char> {
    method.verb() + " "@ + url + " returned "@ + status_text
}

/// The message once retries are spent:
/// `{method} {url} failed after {limit} retries with status {status}`.
pub open spec fn unavailable_message(method: RequestMethod, url: Seq<char>, status_text: Seq<char>) -> Seq<char> {
    method.verb() + " "@ + url + " failed after "@ + decimal(method.retry_limit()) + " retries with status "@
        + status_text
}

/// What the transport is told to do.
#[derive(Debug)]
pub enum RetryStep {
    /// Hand the response body on.
    Accept,
    /// Send the request again.
    Retry,
    /// Log in again, then call `RetryPolicy::on_relogin` with the outcome.
    Relogin,
    /// Stop with this error.
    Fail(AlarmError),
}

/// A step carries out a decision; the messages name the method, the URL and
/// the status as the transport reported it.
pub open spec fn step_carries_out(
    step: RetryStep,
    d: RetryDecision,
    method: RequestMethod,
    url: Seq<char>,
    status_text: Seq<char>,
) -> bool {
    match d {
        RetryDecision::Accept => step is Accept,
        RetryDecision::Retry => step is Retry,
        RetryDecision::Relogin => step is Relogin,
        RetryDecision::SessionExpired => step matches RetryStep::Fail(AlarmError::SessionExpired),
        RetryDecision::TwoFactorRequired => step matches RetryStep::Fail(AlarmError::TwoFactorRequired),
        RetryDecision::NotAuthorized => step matches RetryStep::Fail(AlarmError::NotAuthorized(m))
            && m@ == not_authorized_message(method, url, status_text),
        RetryDecision::Unavailable => step matches RetryStep::Fail(AlarmError::ServiceUnavailable(m))
            && m@ == unavailable_message(method, url, status_text),
    }
}

/// The retry loop of one request.
pub struct RetryPolicy {
    method: RequestMethod,
    retries: u32,
}

impl View for RetryPolicy {
    type V = RetryState;

    closed spec fn view(&self) -> RetryState {
        RetryState { method: self.method, retries: self.retries as nat }
    }
}

impl RetryPolicy {
    #[verifier::type_invariant]
    spec fn within_limit(self) -> bool {
        self@.valid()
    }

    /// A loop that has not sent the request again yet.
    pub fn new(method: RequestMethod) -> (p: RetryPolicy)
        ensures
            p@ == (RetryState { method, retries: 0 }),
    {
        RetryPolicy { method, retries: 0 }
    }

    /// The method of the request.
    pub fn method(&self) -> (m: RequestMethod)
        ensures
            m == self@.method,
    {
        self.method
    }

    /// How many times the request was sent again so far.
    pub fn retries(&self) -> (r: u32)
        ensures
            r == self@.retries,
    {
        self.retries
    }

    fn verb_text(&self) -> (r: &'static str)
        ensures
            r@ == self@.method.verb(),
    {
        match self.method {
            RequestMethod::Get => "GET",
            RequestMethod::Post => "POST",
        }
    }

    fn limit(&self) -> (r: u32)
        ensures
            r == self@.method.retry_limit(),
    {
        match self.method {
            RequestMethod::Get => REQUEST_RETRY_LIMIT,
            RequestMethod::Post => SUBMIT_RETRY_LIMIT,
        }
    }

    /// Decides on a response to the request sent to `url`, whose status is
    /// `status` and reads `status_text` when displayed.
    pub fn on_response(&mut self, url: &str, status: u16, status_text: &str) -> (step: RetryStep)
        ensures
            final(self)@ == state_after(old(self)@, decide_on_response(old(self)@, status)),
            step_carries_out(
                step,
                decide_on_response(old(self)@, status),
                old(self)@.method,
                url@,
                status_text@,
            ),
    {
        proof {
            use_type_invariant(&*self);
            reveal_strlit(" ");
        }
        if status_is_success(status) {
            RetryStep::Accept
        } else if status == 401 || status == 403 {
            if self.retries == 0 {
                RetryStep::Relogin
            } else {
                RetryStep::Fail(AlarmError::SessionExpired)
            }
        } else if status == 409 {
            RetryStep::Fail(AlarmError::TwoFactorRequired)
        } else if status == 406 || status == 423 {
            let m = String::from_str(self.verb_text()).concat(" ").concat(url).concat(
                " returned ",
            ).concat(status_text);
            RetryStep::Fail(AlarmError::NotAuthorized(m))
        } else if self.retries >= self.limit() {
            let limit = decimal_text(self.limit());
            let m = String::from_str(self.verb_text()).concat(" ").concat(url).concat(
                " failed after ",
            ).concat(limit.as_str()).concat(" retries with status ").concat(status_text);
            RetryStep::Fail(AlarmError::ServiceUnavailable(m))
        } else {
            self.retries = self.retries + 1;
            RetryStep::Retry
        }
    }

    /// Decides once the login attempt that `on_response` asked for has ended.
    /// That attempt is asked for only before any retry, so the loop has not
    /// sent the request again yet.
    pub fn on_relogin(&mut self, succeeded: bool) -> (step: RetryStep)
        requires
            old(self)@.retries == 0,
        ensures
            final(self)@ == state_after(old(self)@, decide_on_relogin(succeeded)),
            step_carries_out(
                step,
                decide_on_relogin(succeeded),
                old(self)@.method,
                Seq::empty(),
                Seq::empty(),
            ),
    {
        if succeeded {
            self.retries = self.retries + 1;
            RetryStep::Retry
        } else {
            RetryStep::Fail(AlarmError::SessionExpired)
        }
    }
}

// ---------------------------------------------------------------------------
// Laws of the retry loop
// ---------------------------------------------------------------------------

/// Every decision keeps the loop within its limit.
pub proof fn law_retries_stay_within_limit(s: RetryState, status: u16, succeeded: bool)
    requires
        s.valid(),
    ensures
        state_after(s, decide_on_response(s, status)).valid(),
        decide_on_response(s, status) == RetryDecision::Relogin ==> state_after(
            state_after(s, decide_on_response(s, status)),
            decide_on_relogin(succeeded),
        ).valid(),
{
}

/// Every retry spends one unit of the budget, and a retry is decided only
/// while budget is left (a retry after a new login spends the unit that the
/// first failure left unspent). So a request is sent at most `limit + 1` times.
pub proof fn law_retry_spends_budget(s: RetryState, status: u16, succeeded: bool)
    requires
        s.valid(),
    ensures
        decide_on_response(s, status) == RetryDecision::Retry ==> s.budget() > 0 && state_after(
            s,
            RetryDecision::Retry,
        ).budget() == s.budget() - 1,
        decide_on_response(s, status) == RetryDecision::Relogin && decide_on_relogin(succeeded)
            == RetryDecision::Retry ==> s.budget() > 0 && state_after(s, RetryDecision::Retry).budget()
            == s.budget() - 1,
{
}

/// A new login is asked for at most once per request: only before any retry,
/// and once it has succeeded an expired session ends the request.
pub proof fn law_relogin_at_most_once(s: RetryState, status: u16, later: u16)
    requires
        s.valid(),
        decide_on_response(s, status) == RetryDecision::Relogin,
    ensures
        s.retries == 0,
        decide_on_response(state_after(s, decide_on_relogin(true)), later)
            != RetryDecision::Relogin,
{
}

/// A successful response is accepted whatever happened before.
pub proof fn law_success_is_accepted(s: RetryState, status: u16)
    requires
        is_success_status(status),
    ensures
        decide_on_response(s, status) == RetryDecision::Accept,
        state_after(s, decide_on_response(s, status)) == s,
{
}

/// A refused permission (406 or 423) is not a transient failure: for either
/// method, in any state, it ends the request with `NotAuthorized` and the
/// request is not sent again.
pub proof fn law_permission_refusal_ends_request(s: RetryState, status: u16)
    requires
        status == 406 || status == 423,
    ensures
        decide_on_response(s, status) == RetryDecision::NotAuthorized,
        state_after(s, decide_on_response(s, status)) == s,
        sends(s, seq![status], false) == 1,
        sends(s, seq![status], true) == 1,
{
    reveal_with_fuel(sends, 2);
}

/// A 409 always ends the request with `TwoFactorRequired`.
pub proof fn law_conflict_requires_two_factor(s: RetryState)
    ensures
        decide_on_response(s, 409) == RetryDecision::TwoFactorRequired,
{
}

/// The number of requests that one call sends, when the responses carry the
/// statuses in `statuses` in turn and every login attempt ends as `relogins`
/// says: the loop stops at the first decision that is neither a retry nor a
/// new login (or when the statuses run out).
pub open spec fn sends(s: RetryState, statuses: Seq<u16>, relogins: bool) -> nat
    decreases statuses.len(),
{
    if statuses.len() == 0 {
        0
    } else {
        let d = decide_on_response(s, statuses[0]);
        let next = if d == RetryDecision::Relogin {
            decide_on_relogin(relogins)
        } else {
            d
        };
        if next == RetryDecision::Retry {
            1 + sends(state_after(s, next), statuses.drop_first(), relogins)
        } else {
            1
        }
    }
}

/// Whatever the server answers, one call sends its request at most
/// `limit + 1` times: four times for a GET, three for a POST.
pub proof fn law_sends_at_most_limit_plus_one(s: RetryState, statuses: Seq<u16>, relogins: bool)
    requires
        s.valid(),
    ensures
        sends(s, statuses, relogins) <= s.budget() + 1,
    decreases statuses.len(),
{
    if statuses.len() > 0 {
        let d = decide_on_response(s, statuses[0]);
        let next = if d == RetryDecision::Relogin {
            decide_on_relogin(relogins)
        } else {
            d
        };
        if next == RetryDecision::Retry {
            law_sends_at_most_limit_plus_one(state_after(s, next), statuses.drop_first(), relogins);
        }
    }
}

/// A failure that is worth sending the request again for: neither success,
/// nor an expired session (401, 403), nor a refused permission (406, 423),
/// nor two-factor authentication (409).
pub open spec fn transient_failure(status: u16) -> bool {
    &&& !(200 <= status && status <= 299)
    &&& status != 401
    &&& status != 403
    &&& status != 406
    &&& status != 409
    &&& status != 423
}

/// A request that only ever meets transient failures is sent exactly
/// `limit + 1` times: four times for a new GET, three for a new POST; the
/// last failure ends it as `Unavailable`.
pub proof fn law_transient_failures_spend_every_retry(
    s: RetryState,
    statuses: Seq<u16>,
    relogins: bool,
)
    requires
        s.valid(),
        statuses.len() > s.budget(),
        forall|i: int| 0 <= i < statuses.len() ==> transient_failure(#[trigger] statuses[i]),
    ensures
        sends(s, statuses, relogins) == s.budget() + 1,
        s.retries == 0 && s.method == RequestMethod::Get ==> sends(s, statuses, relogins) == 4,
        s.retries == 0 && s.method == RequestMethod::Post ==> sends(s, statuses, relogins) == 3,
        decide_on_response(s, statuses[0]) == (if s.budget() == 0 {
            RetryDecision::Unavailable
        } else {
            RetryDecision::Retry
        }),
    decreases statuses.len(),
{
    assert(transient_failure(statuses[0]));
    let d = decide_on_response(s, statuses[0]);
    if d == RetryDecision::Retry {
        let rest = statuses.drop_first();
        assert forall|i: int| 0 <= i < rest.len() implies transient_failure(#[trigger] rest[i]) by {
            assert(rest[i] == statuses[i + 1]);
        }
        law_transient_failures_spend_every_retry(state_after(s, d), rest, relogins);
    }
}

/// The statuses of success are exactly those of the 2xx class.
pub proof fn law_success_is_2xx(status: u16)
    ensures
        is_success_status(status) <==> status / 100 == 2,
{
}

/// A GET and a POST are named apart in messages, as "GET" and "POST".
pub proof fn law_method_names(a: RequestMethod, b: RequestMethod)
    ensures
        RequestMethod::Get.verb() == "GET"@,
        RequestMethod::Post.verb() == "POST"@,
        a.verb() == b.verb() ==> a == b,
{
    reveal_strlit("GET");
    reveal_strlit("POST");
    assert("GET"@.len() == 3);
    assert("POST"@.len() == 4);
}

} // verus!
