//! Device-authorization grant flow: the poll-response classification and the
//! provider-controlled poll interval. The network requests themselves are
//! made by the caller; these functions decide what each response means.

use vstd::prelude::*;
use crate::store::{AuthInfo, AuthInfoView, view_opt_string};

verus! {

/// One device-authorization session, as the provider's device-code endpoint
/// answers it. Ephemeral: consumed by repeated polls, discarded on a
/// terminal outcome.
#[derive(Debug)]
pub struct DeviceAuth {
    pub device_code: String,
    pub user_code: String,
    pub verification_uri: String,
    pub interval: i32,
    pub expires_in: i32,
}

/// What one poll of the token endpoint means.
#[derive(Debug)]
pub enum PollResult {
    /// Authorization not granted yet: wait one interval and poll again.
    Pending,
    /// A credential was issued and is ready to be persisted.
    Complete,
    /// Any other error code: terminal, surfaced verbatim.
    Failed(String),
    /// The provider asks for a longer interval; not a terminal state.
    SlowDown,
}

/// The mathematical value of a poll classification.
pub ghost enum PollView {
    Pending,
    Complete,
    Failed(Seq<char>),
    SlowDown,
}

impl View for PollResult {
    type V = PollView;

    open spec fn view(&self) -> PollView {
        match self {
            PollResult::Pending => PollView::Pending,
            PollResult::Complete => PollView::Complete,
            PollResult::Failed(m) => PollView::Failed(m@),
            PollResult::SlowDown => PollView::SlowDown,
        }
    }
}

/// How the token endpoint's answer is classified: an issued credential
/// completes the flow; otherwise the error code decides, and a missing one
/// reads "unknown error".
pub open spec fn spec_poll_class(
    token: Option<Seq<char>>,
    error: Option<Seq<char>>,
) -> PollView {
    if token is Some {
        PollView::Complete
    } else if error == Some("authorization_pending"@) {
        PollView::Pending
    } else if error == Some("slow_down"@) {
        PollView::SlowDown
    } else if error is Some {
        PollView::Failed(error->0)
    } else {
        PollView::Failed("unknown error"@)
    }
}

/// The record persisted when authorization completes: an oauth record whose
/// refresh credential is the issued token, with no access token and no
/// expiry.
pub open spec fn spec_oauth_record(token: Seq<char>) -> AuthInfoView {
    AuthInfoView {
        auth_type: "oauth"@,
        refresh: Some(token),
        access: None,
        expires: None,
        key: None,
        token: None,
    }
}

/// The record to persist when the poll completes: `None` on every
/// non-complete classification, so that pending and slow-down rounds leave
/// the store untouched.
pub open spec fn spec_poll_record(
    token: Option<Seq<char>>,
    error: Option<Seq<char>>,
) -> Option<AuthInfoView> {
    match token {
        Some(t) => Some(spec_oauth_record(t)),
        None => None,
    }
}

/// Classify one answer of the token endpoint and build the record to
/// persist, if any.
pub fn poll_response(access_token: Option<String>, error: Option<String>) -> (r: (
    PollResult,
    Option<AuthInfo>,
))
    ensures
        r.0@ == spec_poll_class(view_opt_string(access_token), view_opt_string(error)),
        r.1 matches Some(rec) ==> (view_opt_string(access_token) matches Some(t)
            && rec@ == spec_oauth_record(t)),
        r.1 is None <==> access_token is None,
{
    match access_token {
        Some(t) => {
            let rec = AuthInfo {
                auth_type: "oauth".to_owned(),
                refresh: Some(t),
                access: None,
                expires: None,
                key: None,
                token: None,
            };
            (PollResult::Complete, Some(rec))
        },
        None => {
            match error {
                Some(e) => {
                    if str_is(&e, "authorization_pending") {
                        (PollResult::Pending, None)
                    } else if str_is(&e, "slow_down") {
                        (PollResult::SlowDown, None)
                    } else {
                        (PollResult::Failed(e), None)
                    }
                },
                None => (PollResult::Failed("unknown error".to_owned()), None),
            }
        },
    }
}

fn str_is(s: &String, lit: &str) -> (r: bool)
    ensures
        r == (s@ == lit@),
{
    let other: String = lit.to_owned();
    *s == other
}

/// End-to-end device flow: however many pending or slow-down rounds come
/// first, none of them writes a record; the completing round persists, under
/// the provider's key, an oauth record whose refresh credential is the
/// issued (non-empty) token, with no access token and no expiry.
pub proof fn lemma_auth_flow_completes(
    store: Map<Seq<char>, AuthInfoView>,
    token: Seq<char>,
    error: Option<Seq<char>>,
)
    requires
        token.len() > 0,
    ensures
        spec_poll_record(None, Some("authorization_pending"@)) is None,
        spec_poll_record(None, Some("slow_down"@)) is None,
        spec_poll_class(Some(token), error) is Complete,
        ({
            let done = store.insert("github-copilot"@, spec_oauth_record(token));
            &&& done.contains_key("github-copilot"@)
            &&& done["github-copilot"@].refresh == Some(token)
            &&& done["github-copilot"@].refresh->0.len() > 0
            &&& done["github-copilot"@].access is None
            &&& done["github-copilot"@].expires is None
        }),
{
}

/// Ceiling for the polling interval, in seconds.
pub const POLL_INTERVAL_CEILING: u64 = 60;

/// The interval after one slow-down signal: doubled, capped at the ceiling.
pub open spec fn spec_next_interval(cur: u64) -> u64 {
    if 2 * (cur as int) <= POLL_INTERVAL_CEILING as int {
        (2 * cur) as u64
    } else {
        POLL_INTERVAL_CEILING
    }
}

/// Widen the polling interval after a `SlowDown` response: at least double,
/// never above the ceiling.
pub fn next_interval(cur: u64) -> (r: u64)
    ensures
        r == spec_next_interval(cur),
{
    if cur <= POLL_INTERVAL_CEILING / 2 {
        cur * 2
    } else {
        POLL_INTERVAL_CEILING
    }
}

/// The interval to use before any slow-down signal: the provider's value,
/// raised to at least one second.
pub fn initial_interval(provider_interval: i32) -> (r: u64)
    ensures
        provider_interval >= 1 ==> r == provider_interval as u64,
        provider_interval < 1 ==> r == 1,
{
    if provider_interval < 1 {
        1
    } else {
        provider_interval as u64
    }
}

/// The interval after `n` consecutive slow-down signals, starting from `start`.
pub open spec fn spec_interval_after(start: u64, n: nat) -> u64
    decreases n,
{
    if n == 0 {
        start
    } else {
        spec_next_interval(spec_interval_after(start, (n - 1) as nat))
    }
}

/// Slow-down monotonicity: from any starting interval at or below the
/// ceiling, every further slow-down leaves the interval no smaller and never
/// above the ceiling, and a single slow-down doubles it whenever the doubled
/// value still fits under the ceiling.
pub proof fn lemma_slowdown_monotonic(start: u64, n: nat)
    requires
        start <= POLL_INTERVAL_CEILING,
    ensures
        spec_interval_after(start, n) <= POLL_INTERVAL_CEILING,
        spec_interval_after(start, n + 1) >= spec_interval_after(start, n),
        2 * (spec_interval_after(start, n) as int) <= POLL_INTERVAL_CEILING as int
            ==> spec_interval_after(start, n + 1) == 2 * spec_interval_after(start, n),
    decreases n,
{
    if n > 0 {
        lemma_slowdown_monotonic(start, (n - 1) as nat);
    }
}

} // verus!
