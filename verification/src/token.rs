//! Token exchange: turning a stored refresh credential into a usable
//! short-lived access token. The network requests (remote validation, the
//! exchange itself) are made by the caller; the decisions — whether a stored
//! record is usable, whether the cached access token is still fresh, what to
//! persist after an exchange — live here.

use vstd::prelude::*;
use crate::store::{AuthInfo, AuthInfoView};

verus! {

/// Why no usable token could be produced. All of these collapse to the same
/// "re-authenticate" answer at the caller, but they are kept apart here.
#[derive(Debug)]
pub enum TokenDenial {
    /// No stored record, a record of another kind, or no refresh credential.
    Unauthenticated,
    /// The refresh credential failed remote validation.
    ValidationFailed,
    /// The exchange request was refused by the downstream service.
    ExchangeFailed,
}

/// What to do first, given the stored record.
pub enum AccessPlan {
    /// Nothing stored that could be exchanged: re-authenticate.
    Refuse(TokenDenial),
    /// Validate this refresh credential remotely, then continue.
    Validate(String),
}

/// What to do once the refresh credential has been validated.
pub enum TokenStep {
    /// Validation failed: report no token.
    Refuse(TokenDenial),
    /// An unexpired cached access token: use it, no network call.
    Cached(String),
    /// Exchange the refresh credential for a new access token.
    Exchange,
}

/// A successful answer from the downstream token endpoint: the issued token
/// and its expiry in seconds.
pub struct ExchangeGrant {
    pub token: String,
    pub expires_at: i64,
}

/// A stored record is exchangeable when it is an oauth record holding a
/// refresh credential.
pub open spec fn spec_usable_refresh(info: Option<AuthInfoView>) -> Option<Seq<char>> {
    match info {
        Some(i) => if i.auth_type == "oauth"@ {
            i.refresh
        } else {
            None
        },
        None => None,
    }
}

/// A cached access token is fresh when both it and its expiry are present
/// and the expiry lies strictly after the current time.
pub open spec fn spec_fresh(i: AuthInfoView, now_ms: i64) -> bool {
    i.access is Some && i.expires is Some && i.expires->0 > now_ms
}

pub open spec fn view_opt_info(info: Option<&AuthInfo>) -> Option<AuthInfoView> {
    match info {
        Some(i) => Some(i@),
        None => None,
    }
}

/// Decide what the stored record allows: validation of its refresh
/// credential, or an immediate refusal.
pub fn plan_access(info: Option<&AuthInfo>) -> (r: AccessPlan)
    ensures
        r matches AccessPlan::Validate(t) ==> spec_usable_refresh(view_opt_info(info)) == Some(
            t@,
        ),
        r matches AccessPlan::Refuse(d) ==> spec_usable_refresh(view_opt_info(info)) is None
            && d is Unauthenticated,
{
    match info {
        Some(i) => {
            if str_eq_oauth(&i.auth_type) {
                match &i.refresh {
                    Some(t) => AccessPlan::Validate(t.clone()),
                    None => AccessPlan::Refuse(TokenDenial::Unauthenticated),
                }
            } else {
                AccessPlan::Refuse(TokenDenial::Unauthenticated)
            }
        },
        None => AccessPlan::Refuse(TokenDenial::Unauthenticated),
    }
}

fn str_eq_oauth(s: &String) -> (r: bool)
    ensures
        r == (s@ == "oauth"@),
{
    let other: String = "oauth".to_owned();
    *s == other
}

/// The step after remote validation of the refresh credential: a failed
/// validation refuses outright — even a fresh cached token is not used —
/// and a successful one uses the cached access token exactly when it is
/// unexpired (strictly later expiry than now), else exchanges.
pub fn after_validation(info: &AuthInfo, refresh_valid: bool, now_ms: i64) -> (r: TokenStep)
    ensures
        !refresh_valid ==> (r matches TokenStep::Refuse(d) && d is ValidationFailed),
        refresh_valid && spec_fresh(info@, now_ms) ==> (r matches TokenStep::Cached(t) && Some(t@)
            == info@.access),
        refresh_valid && !spec_fresh(info@, now_ms) ==> r is Exchange,
{
    if !refresh_valid {
        return TokenStep::Refuse(TokenDenial::ValidationFailed);
    }
    match (&info.access, &info.expires) {
        (Some(access), Some(expires)) => {
            if *expires > now_ms {
                TokenStep::Cached(access.clone())
            } else {
                TokenStep::Exchange
            }
        },
        _ => TokenStep::Exchange,
    }
}

/// The record persisted after a successful exchange: the refresh credential
/// is kept, the issued token becomes the access token, and the provider's
/// expiry in seconds becomes the store's milliseconds.
pub open spec fn spec_exchanged_record(
    refresh: Seq<char>,
    granted: Seq<char>,
    expires_at: i64,
) -> AuthInfoView {
    AuthInfoView {
        auth_type: "oauth"@,
        refresh: Some(refresh),
        access: Some(granted),
        expires: Some((expires_at * 1000) as i64),
        key: None,
        token: None,
    }
}

/// Build the record to persist after a successful exchange.
pub fn exchanged_record(refresh: &str, grant: &ExchangeGrant) -> (r: AuthInfo)
    requires
        -9223372036854775 <= grant.expires_at <= 9223372036854775,
    ensures
        r@ == spec_exchanged_record(refresh@, grant.token@, grant.expires_at),
        r@.consistent(),
{
    AuthInfo {
        auth_type: "oauth".to_owned(),
        refresh: Some(refresh.to_owned()),
        access: Some(grant.token.clone()),
        expires: Some(grant.expires_at * 1000),
        key: None,
        token: None,
    }
}

/// What the downstream token endpoint's answer means: a refusal is the
/// exchange-failed denial (one more way to "no token"); a grant becomes the
/// record to persist, whose access token is then handed back.
pub fn after_exchange(refresh: &str, grant: Option<&ExchangeGrant>) -> (r: Result<
    AuthInfo,
    TokenDenial,
>)
    requires
        grant matches Some(g) ==> -9223372036854775 <= g.expires_at <= 9223372036854775,
    ensures
        grant matches Some(g) ==> (r matches Ok(rec) && rec@ == spec_exchanged_record(
            refresh@,
            g.token@,
            g.expires_at,
        )),
        grant is None ==> (r matches Err(d) && d is ExchangeFailed),
{
    match grant {
        Some(g) => Ok(exchanged_record(refresh, g)),
        None => Err(TokenDenial::ExchangeFailed),
    }
}

/// Whether an HTTP status code reports success.
pub fn status_is_success(status: u16) -> (r: bool)
    ensures
        r == (200 <= status < 300),
{
    200 <= status && status < 300
}

/// The token the whole exchange decision produces, given the stored record,
/// the validation verdict, the current time, and the token an exchange
/// request would be answered with (when it succeeds). This composes
/// [`plan_access`], [`after_validation`] and [`after_exchange`] in the
/// order the caller drives them.
pub open spec fn spec_access_outcome(
    info: Option<AuthInfoView>,
    refresh_valid: bool,
    now_ms: i64,
    granted: Option<Seq<char>>,
) -> Option<Seq<char>> {
    match spec_usable_refresh(info) {
        None => None,
        Some(_) => if !refresh_valid {
            None
        } else if spec_fresh(info->0, now_ms) {
            info->0.access
        } else {
            granted
        },
    }
}

/// Expiry boundary: a cached access token whose expiry equals the current
/// time is already expired — the strict comparison sends the flow to a new
/// exchange, never to the cache.
pub proof fn lemma_expiry_boundary(i: AuthInfoView, now_ms: i64, granted: Option<Seq<char>>)
    requires
        i.expires == Some(now_ms),
    ensures
        !spec_fresh(i, now_ms),
        spec_access_outcome(Some(i), true, now_ms, granted) == if spec_usable_refresh(
            Some(i),
        ) is Some {
            granted
        } else {
            None::<Seq<char>>
        },
{
}

/// Validation-driven fallback: a refresh credential that fails remote
/// validation yields no token, even when an unexpired cached access token is
/// present in the record.
pub proof fn lemma_validation_overrides_cache(
    i: AuthInfoView,
    now_ms: i64,
    granted: Option<Seq<char>>,
)
    requires
        spec_fresh(i, now_ms),
    ensures
        spec_access_outcome(Some(i), false, now_ms, granted) is None,
{
}

} // verus!
