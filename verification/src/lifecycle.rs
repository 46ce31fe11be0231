//! The token lifecycle manager: the per-service state machine derived from
//! the stored credential row, the decision of when a stored access token
//! can be returned as-is and when it must be refreshed first, and the
//! application of a token-endpoint response to the store.
//!
//! The network exchange itself happens outside: callers take the prepared
//! request, post it, and hand the status and decoded body back to
//! `finish_refresh` or `finish_code_exchange`.

use vstd::prelude::*;

use crate::clock::now_timestamp;
use crate::credentials::CredView;
use crate::credentials::UserCredentials;
use crate::credentials::view_opt_string;
use crate::errors::AuthError;
use crate::store::CredStore;
use crate::wire::TokenResponse;
use crate::wire::refresh_body;
use crate::wire::spec_refresh_body;

verus! {

use vstd::string::StringExecFns;

/// How many seconds before its recorded expiry a token is already treated
/// as expired, so that a caller never presents a token that lapses mid-use.
pub const REFRESH_MARGIN_SECS: i64 = 60;

/// The service name the end-user token row is stored under.
pub open spec fn spec_user_service() -> Seq<char> {
    ("spotify")@
}

/// The reserved service name the provider's client credentials are stored
/// under.
pub open spec fn spec_client_service() -> Seq<char> {
    ("spotify_client")@
}

/// The state a service's stored credential row is in at a given time.
#[derive(Clone, Copy, Debug, PartialEq, Eq, Structural)]
pub enum AuthState {
    /// No credential row exists for the service.
    Unauthenticated,
    /// The stored token can be returned as-is: no expiry is tracked, or the
    /// expiry is more than the safety margin away.
    Valid,
    /// The expiry is within the safety margin or past, and a refresh token
    /// is on hand to attempt a refresh with.
    ExpiringOrExpired,
    /// A refresh would be needed but no refresh token is stored; only a new
    /// authorization can help.
    RefreshUnavailable,
}

/// The state of an optional credential row at time `now`. Pure: the state
/// machine is kept implicit in storage but explicit here.
pub open spec fn spec_credential_state(row: Option<CredView>, now: i64) -> AuthState {
    match row {
        None => AuthState::Unauthenticated,
        Some(c) => match c.expires_at {
            None => AuthState::Valid,
            Some(exp) => if now < exp - REFRESH_MARGIN_SECS {
                AuthState::Valid
            } else if c.refresh_token is Some {
                AuthState::ExpiringOrExpired
            } else {
                AuthState::RefreshUnavailable
            },
        },
    }
}

/// An optional borrowed row's value.
pub open spec fn spec_row_view(row: Option<&UserCredentials>) -> Option<CredView> {
    match row {
        Some(c) => Some(c@),
        None => None,
    }
}

/// Classifies an optional credential row at time `now`.
pub fn credential_state(row: Option<&UserCredentials>, now: i64) -> (s: AuthState)
    ensures
        s == spec_credential_state(spec_row_view(row), now),
{
    match row {
        None => AuthState::Unauthenticated,
        Some(c) => match c.expires_at {
            None => AuthState::Valid,
            Some(exp) => {
                if (now as i128) < (exp as i128) - (REFRESH_MARGIN_SECS as i128) {
                    AuthState::Valid
                } else if c.refresh_token.is_some() {
                    AuthState::ExpiringOrExpired
                } else {
                    AuthState::RefreshUnavailable
                }
            },
        },
    }
}

/// What an access-token request decides: hand back the stored token, spend
/// the carried refresh token first, or fail.
pub enum TokenPlan {
    /// The stored token is still valid; no network call is needed.
    UseStored(String),
    /// The token must be refreshed by spending this refresh token.
    Refresh(String),
    /// The request fails without any network call.
    Fail(AuthError),
}

/// The access-token decision that a store in state `m` owes at time `now`.
pub open spec fn spec_token_plan_ok(m: Map<Seq<char>, CredView>, now: i64, r: TokenPlan) -> bool {
    match r {
        TokenPlan::UseStored(tok) => m.contains_key(spec_user_service())
            && spec_credential_state(Some(m[spec_user_service()]), now) is Valid && tok@
            == m[spec_user_service()].access_token,
        TokenPlan::Refresh(rt) => m.contains_key(spec_user_service())
            && spec_credential_state(Some(m[spec_user_service()]), now) is ExpiringOrExpired
            && Some(rt@) == m[spec_user_service()].refresh_token,
        TokenPlan::Fail(e) => (e == AuthError::NotAuthenticated && !m.contains_key(
            spec_user_service(),
        )) || (e == AuthError::ReauthenticationRequired && m.contains_key(spec_user_service())
            && spec_credential_state(Some(m[spec_user_service()]), now) is RefreshUnavailable),
    }
}

/// Decides how an access-token request is served at time `now`: the stored
/// token while it is valid, a refresh when the expiry is inside the safety
/// margin and a refresh token is on hand, and a failure otherwise. Makes no
/// network call itself.
pub fn ensure_access_token(store: &CredStore, now: i64) -> (r: TokenPlan)
    requires
        store.wf(),
    ensures
        spec_token_plan_ok(store@, now, r),
{
    let row = match store.get("spotify") {
        None => { return TokenPlan::Fail(AuthError::NotAuthenticated) },
        Some(row) => row,
    };
    let state = credential_state(Some(&row), now);
    match state {
        AuthState::Unauthenticated => vstd::pervasive::unreached(),
        AuthState::Valid => TokenPlan::UseStored(row.access_token),
        AuthState::ExpiringOrExpired => match row.refresh_token {
            Some(rt) => TokenPlan::Refresh(rt),
            None => vstd::pervasive::unreached(),
        },
        AuthState::RefreshUnavailable => TokenPlan::Fail(AuthError::ReauthenticationRequired),
    }
}

/// The access-token decision at the current time, which is returned with
/// it. The decision is exactly `ensure_access_token`'s at that time.
pub fn ensure_access_token_now(store: &CredStore) -> (r: (i64, TokenPlan))
    requires
        store.wf(),
    ensures
        spec_token_plan_ok(store@, r.0, r.1),
{
    let now = now_timestamp();
    (now, ensure_access_token(store, now))
}

/// A prepared `refresh_token` grant: whom to authenticate as, and the form
/// body to post to the token endpoint.
#[derive(Debug)]
pub struct RefreshRequest {
    /// The client id the grant is made for.
    pub client_id: String,
    /// The client secret, sent as HTTP Basic authentication when present.
    pub client_secret: Option<String>,
    /// The refresh token being spent.
    pub refresh_token: String,
    /// The form-encoded request body.
    pub body: String,
}

/// What preparing the refresh exchange against a store in state `m` owes:
/// a request that spends the stored refresh token on behalf of the stored
/// client credentials, or the exact reason none can be made.
pub open spec fn spec_refresh_prepared(
    m: Map<Seq<char>, CredView>,
    r: Result<RefreshRequest, AuthError>,
) -> bool {
    match r {
        Ok(req) => {
            &&& m.contains_key(spec_user_service())
            &&& m[spec_user_service()].refresh_token == Some(req.refresh_token@)
            &&& m.contains_key(spec_client_service())
            &&& req.client_id@ == m[spec_client_service()].access_token
            &&& view_opt_string(req.client_secret) == m[spec_client_service()].refresh_token
            &&& req.body@ == spec_refresh_body(req.refresh_token@, req.client_id@)
        },
        Err(e) => {
            ||| (e == AuthError::NotAuthenticated && !m.contains_key(spec_user_service()))
            ||| (e == AuthError::ReauthenticationRequired && m.contains_key(spec_user_service())
                && m[spec_user_service()].refresh_token is None)
            ||| (e == AuthError::MissingClientCredentials && m.contains_key(spec_user_service())
                && m[spec_user_service()].refresh_token is Some && !m.contains_key(
                spec_client_service(),
            ))
        },
    }
}

/// Prepares the refresh exchange for the end-user token row: requires a
/// stored row with a refresh token and the reserved client-credentials row,
/// and fails with the exact reason otherwise.
pub fn prepare_refresh(store: &CredStore) -> (r: Result<RefreshRequest, AuthError>)
    requires
        store.wf(),
    ensures
        spec_refresh_prepared(store@, r),
{
    let row = match store.get("spotify") {
        None => { return Err(AuthError::NotAuthenticated) },
        Some(row) => row,
    };
    let refresh = match row.refresh_token {
        None => { return Err(AuthError::ReauthenticationRequired) },
        Some(rt) => rt,
    };
    let client_row = match store.get("spotify_client") {
        None => { return Err(AuthError::MissingClientCredentials) },
        Some(c) => c,
    };
    let body = refresh_body(refresh.as_str(), client_row.access_token.as_str());
    Ok(
        RefreshRequest {
            client_id: client_row.access_token,
            client_secret: client_row.refresh_token,
            refresh_token: refresh,
            body,
        },
    )
}

/// `now + expires_in`, clipped to the representable range.
pub open spec fn spec_expiry(now: i64, expires_in: i64) -> i64 {
    if now + expires_in > i64::MAX {
        i64::MAX
    } else if now + expires_in < i64::MIN {
        i64::MIN
    } else {
        (now + expires_in) as i64
    }
}

/// Computes the absolute expiry of a token issued at `now`.
fn compute_expiry(now: i64, expires_in: i64) -> (r: i64)
    ensures
        r == spec_expiry(now, expires_in),
{
    match now.checked_add(expires_in) {
        Some(v) => v,
        None => if expires_in > 0 {
            i64::MAX
        } else {
            i64::MIN
        },
    }
}

/// The row persisted after a successful refresh: the response's new access
/// token and expiry, and the response's refresh token when one was issued —
/// otherwise the refresh token that was spent is retained, never discarded.
pub open spec fn spec_refreshed_row(prev_refresh: Seq<char>, tr: TokenResponse, now: i64) -> CredView {
    CredView {
        service: spec_user_service(),
        access_token: tr.access_token@,
        refresh_token: match tr.refresh_token {
            Some(rt) => Some(rt@),
            None => Some(prev_refresh),
        },
        expires_at: Some(spec_expiry(now, tr.expires_in)),
    }
}

/// Applies a refresh exchange's outcome at time `now`. On a success status
/// with a readable body the new row is persisted and the new access token
/// returned; on any failure the store is left untouched and the exact
/// failure is surfaced, with no retry.
pub fn finish_refresh(
    store: &mut CredStore,
    prev_refresh: &str,
    status: u16,
    body: Option<TokenResponse>,
    now: i64,
) -> (r: Result<String, AuthError>)
    requires
        old(store).wf(),
    ensures
        final(store).wf(),
        match r {
            Ok(tok) => {
                &&& 200 <= status < 300
                &&& body matches Some(tr) && tok@ == tr.access_token@ && final(store)@ == old(
                    store,
                )@.insert(spec_user_service(), spec_refreshed_row(prev_refresh@, tr, now))
            },
            Err(e) => {
                &&& final(store)@ == old(store)@
                &&& {
                    ||| (!(200 <= status < 300) && e == AuthError::RefreshFailed(status))
                    ||| (200 <= status < 300 && body is None && e == AuthError::MalformedResponse)
                }
            },
        },
{
    if !(200 <= status && status < 300) {
        return Err(AuthError::RefreshFailed(status));
    }
    let tr = match body {
        None => { return Err(AuthError::MalformedResponse) },
        Some(t) => t,
    };
    let expires_at = compute_expiry(now, tr.expires_in);
    let token_copy = String::from_str(tr.access_token.as_str());
    let new_refresh = match tr.refresh_token {
        Some(rt) => Some(rt),
        None => Some(String::from_str(prev_refresh)),
    };
    store.upsert(
        UserCredentials {
            service: String::from_str("spotify"),
            access_token: tr.access_token,
            refresh_token: new_refresh,
            expires_at: Some(expires_at),
        },
    );
    Ok(token_copy)
}

/// The row persisted after a successful code exchange: exactly what the
/// response carried, with the absolute expiry computed from `now`.
pub open spec fn spec_exchanged_row(tr: TokenResponse, now: i64) -> CredView {
    CredView {
        service: spec_user_service(),
        access_token: tr.access_token@,
        refresh_token: view_opt_string(tr.refresh_token),
        expires_at: Some(spec_expiry(now, tr.expires_in)),
    }
}

/// Applies a code exchange's outcome at time `now`. On a success status
/// with a readable body the end-user row is persisted; on any failure the
/// store is left untouched and the exact failure is surfaced.
pub fn finish_code_exchange(
    store: &mut CredStore,
    status: u16,
    body: Option<TokenResponse>,
    now: i64,
) -> (r: Result<String, AuthError>)
    requires
        old(store).wf(),
    ensures
        final(store).wf(),
        match r {
            Ok(msg) => {
                &&& 200 <= status < 300
                &&& msg@ == ("Spotify authenticated")@
                &&& body matches Some(tr) && final(store)@ == old(store)@.insert(
                    spec_user_service(),
                    spec_exchanged_row(tr, now),
                )
            },
            Err(e) => {
                &&& final(store)@ == old(store)@
                &&& {
                    ||| (!(200 <= status < 300) && e == AuthError::ExchangeFailed(status))
                    ||| (200 <= status < 300 && body is None && e == AuthError::MalformedResponse)
                }
            },
        },
{
    if !(200 <= status && status < 300) {
        return Err(AuthError::ExchangeFailed(status));
    }
    let tr = match body {
        None => { return Err(AuthError::MalformedResponse) },
        Some(t) => t,
    };
    let expires_at = compute_expiry(now, tr.expires_in);
    store.upsert(
        UserCredentials {
            service: String::from_str("spotify"),
            access_token: tr.access_token,
            refresh_token: tr.refresh_token,
            expires_at: Some(expires_at),
        },
    );
    Ok(String::from_str("Spotify authenticated"))
}

/// Law: a stored row whose expiry lies inside the safety margin (or past),
/// with a refresh token on hand, is served by exactly a refresh of that
/// token — never by the stored token and never by a failure.
pub proof fn lemma_within_margin_refreshes(
    m: Map<Seq<char>, CredView>,
    now: i64,
    exp: i64,
    plan: TokenPlan,
)
    requires
        m.contains_key(spec_user_service()),
        m[spec_user_service()].expires_at == Some(exp),
        now >= exp - REFRESH_MARGIN_SECS,
        m[spec_user_service()].refresh_token is Some,
        spec_token_plan_ok(m, now, plan),
    ensures
        plan matches TokenPlan::Refresh(rt) && Some(rt@) == m[spec_user_service()].refresh_token,
{
}

/// Law: a stored row whose expiry lies strictly beyond the safety margin is
/// served by the stored token itself, with no refresh and no failure.
pub proof fn lemma_valid_token_served(
    m: Map<Seq<char>, CredView>,
    now: i64,
    exp: i64,
    plan: TokenPlan,
)
    requires
        m.contains_key(spec_user_service()),
        m[spec_user_service()].expires_at == Some(exp),
        now < exp - REFRESH_MARGIN_SECS,
        spec_token_plan_ok(m, now, plan),
    ensures
        plan matches TokenPlan::UseStored(tok) && tok@ == m[spec_user_service()].access_token,
{
}

/// Law: with a stored refresh token and the client credentials both on
/// hand, preparing the refresh exchange cannot fail: it yields a request
/// that spends exactly the stored refresh token for the stored client.
pub proof fn lemma_refresh_owed(
    m: Map<Seq<char>, CredView>,
    r: Result<RefreshRequest, AuthError>,
)
    requires
        m.contains_key(spec_user_service()),
        m[spec_user_service()].refresh_token is Some,
        m.contains_key(spec_client_service()),
        spec_refresh_prepared(m, r),
    ensures
        r matches Ok(req) && m[spec_user_service()].refresh_token == Some(req.refresh_token@)
            && req.client_id@ == m[spec_client_service()].access_token,
{
}

/// Law: a refresh response that omits a refresh token never discards the
/// one that was spent — the persisted row retains it.
pub proof fn lemma_rotation_optional(prev_refresh: Seq<char>, tr: TokenResponse, now: i64)
    requires
        tr.refresh_token is None,
    ensures
        spec_refreshed_row(prev_refresh, tr, now).refresh_token == Some(prev_refresh),
{
}

} // verus!
