//! Starting and completing an authorization: the single-slot ephemeral PKCE
//! context, the commands that issue a fresh authorization URL, and the
//! preparation of the code-for-token exchange.

use vstd::prelude::*;

use crate::credentials::CredView;
use crate::credentials::UserCredentials;
use crate::credentials::view_opt_string;
use crate::errors::AuthError;
use crate::pkce::challenge_of;
use crate::pkce::is_valid_verifier;
use crate::pkce::new_csrf_token;
use crate::pkce::new_pkce_pair;
use crate::store::CredStore;
use crate::wire::build_auth_url;
use crate::wire::exchange_code_body;
use crate::wire::spec_auth_url;
use crate::wire::spec_exchange_body;
use crate::lifecycle::spec_client_service;

verus! {

use vstd::string::StringExecFns;

/// What a caller supplies to start an authorization. An empty client id
/// asks for the stored client-credentials row to be used instead.
pub struct SpotifyAuthRequest {
    /// The provider client id, or empty to use the stored one.
    pub client_id: String,
    /// The client secret; may be empty for a public client.
    pub client_secret: String,
    /// The redirect URI the provider sends the code back to.
    pub redirect_uri: String,
}

/// The single-slot ephemeral authorization context: the PKCE verifier and
/// redirect URI of the most recently initiated authorization. A second
/// authorization begun before the first completes silently overwrites the
/// slot, so only the most recent attempt can complete — a documented
/// limitation, kept. Reading does not clear the slot.
pub struct SpotifyAuthMemory {
    /// The PKCE verifier generated for the most recent authorization.
    pub code_verifier: Option<String>,
    /// The redirect URI of that same authorization attempt.
    pub redirect_uri: Option<String>,
}

impl SpotifyAuthMemory {
    /// The empty slot a process starts with.
    pub fn new() -> (r: SpotifyAuthMemory)
        ensures
            r.code_verifier is None,
            r.redirect_uri is None,
    {
        SpotifyAuthMemory { code_verifier: None, redirect_uri: None }
    }

    /// Overwrites the slot with a new in-flight authorization.
    pub fn set(&mut self, verifier: String, redirect_uri: String)
        ensures
            view_opt_string(final(self).code_verifier) == Some(verifier@),
            view_opt_string(final(self).redirect_uri) == Some(redirect_uri@),
    {
        self.code_verifier = Some(verifier);
        self.redirect_uri = Some(redirect_uri);
    }

    /// Reads the slot without clearing it: the verifier and redirect URI of
    /// the in-flight authorization, if one was begun.
    pub fn get(&self) -> (r: Option<(String, String)>)
        ensures
            match r {
                Some(p) => view_opt_string(self.code_verifier) == Some(p.0@) && view_opt_string(
                    self.redirect_uri,
                ) == Some(p.1@),
                None => self.code_verifier is None || self.redirect_uri is None,
            },
    {
        match (&self.code_verifier, &self.redirect_uri) {
            (Some(v), Some(u)) => Some((String::from_str(v.as_str()), String::from_str(u.as_str()))),
            _ => None,
        }
    }
}

/// The client-credentials row stored while an authorization is in flight:
/// the client id as the row's token, the secret (when non-empty) as its
/// refresh field, no expiry.
pub open spec fn spec_client_row(cid: Seq<char>, secret: Seq<char>) -> CredView {
    CredView {
        service: spec_client_service(),
        access_token: cid,
        refresh_token: Some(secret),
        expires_at: None,
    }
}

/// A freshly issued authorization URL for client id `cid` and redirect URI
/// `ru`: the slot holds a new valid PKCE verifier, the URL carries some
/// CSRF state and that verifier's challenge.
pub open spec fn spec_authorization_issued(
    mem: SpotifyAuthMemory,
    url: Seq<char>,
    cid: Seq<char>,
    ru: Seq<char>,
) -> bool {
    &&& view_opt_string(mem.code_verifier) matches Some(v) && is_valid_verifier(v) && (
    exists|st: Seq<char>| url == spec_auth_url(cid, ru, st, challenge_of(v)))
    &&& view_opt_string(mem.redirect_uri) == Some(ru)
}

/// Starts an authorization. With a non-empty client id the pair is first
/// stored under the reserved client-credentials name; with an empty one
/// the stored pair is used instead and the store is left untouched. Either
/// way a fresh PKCE verifier and CSRF state are generated, the ephemeral
/// slot is overwritten, and the authorization URL is returned.
pub fn spotify_authenticate(
    store: &mut CredStore,
    mem: &mut SpotifyAuthMemory,
    request: SpotifyAuthRequest,
) -> (r: Result<String, AuthError>)
    requires
        old(store).wf(),
    ensures
        final(store).wf(),
        match r {
            Ok(url) => {
                &&& request.client_id@.len() == 0 ==> {
                    &&& final(store)@ == old(store)@
                    &&& old(store)@.contains_key(spec_client_service())
                    &&& spec_authorization_issued(
                        *final(mem),
                        url@,
                        old(store)@[spec_client_service()].access_token,
                        request.redirect_uri@,
                    )
                }
                &&& request.client_id@.len() > 0 ==> {
                    &&& final(store)@ == old(store)@.insert(
                        spec_client_service(),
                        spec_client_row(request.client_id@, request.client_secret@),
                    )
                    &&& spec_authorization_issued(
                        *final(mem),
                        url@,
                        request.client_id@,
                        request.redirect_uri@,
                    )
                }
            },
            Err(e) => {
                &&& e == AuthError::MissingClientCredentials
                &&& request.client_id@.len() == 0
                &&& !old(store)@.contains_key(spec_client_service())
                &&& final(store)@ == old(store)@
                &&& *final(mem) == *old(mem)
            },
        },
{
    if request.client_id.as_str().unicode_len() == 0 {
        let creds = match store.get("spotify_client") {
            None => { return Err(AuthError::MissingClientCredentials) },
            Some(c) => c,
        };
        let (verifier, challenge) = new_pkce_pair();
        let state = new_csrf_token();
        let url = build_auth_url(
            creds.access_token.as_str(),
            request.redirect_uri.as_str(),
            state.as_str(),
            challenge.as_str(),
        );
        mem.set(verifier, request.redirect_uri);
        return Ok(url);
    }
    store.upsert(
        UserCredentials {
            service: String::from_str("spotify_client"),
            access_token: String::from_str(request.client_id.as_str()),
            refresh_token: Some(String::from_str(request.client_secret.as_str())),
            expires_at: None,
        },
    );
    let (verifier, challenge) = new_pkce_pair();
    let state = new_csrf_token();
    let url = build_auth_url(
        request.client_id.as_str(),
        request.redirect_uri.as_str(),
        state.as_str(),
        challenge.as_str(),
    );
    mem.set(verifier, request.redirect_uri);
    Ok(url)
}

/// Starts an authorization using the stored client credentials and an
/// optional redirect URI, defaulting to the local loopback address.
pub fn spotify_begin_auth(
    store: &CredStore,
    mem: &mut SpotifyAuthMemory,
    redirect_uri: Option<String>,
) -> (r: Result<String, AuthError>)
    requires
        store.wf(),
    ensures
        match r {
            Ok(url) => {
                &&& store@.contains_key(spec_client_service())
                &&& spec_authorization_issued(
                    *final(mem),
                    url@,
                    store@[spec_client_service()].access_token,
                    match redirect_uri {
                        Some(u) => u@,
                        None => ("http://127.0.0.1:3000")@,
                    },
                )
            },
            Err(e) => {
                &&& e == AuthError::MissingClientCredentials
                &&& !store@.contains_key(spec_client_service())
                &&& *final(mem) == *old(mem)
            },
        },
{
    let creds = match store.get("spotify_client") {
        None => { return Err(AuthError::MissingClientCredentials) },
        Some(c) => c,
    };
    let redirect = match redirect_uri {
        Some(u) => u,
        None => String::from_str("http://127.0.0.1:3000"),
    };
    let (verifier, challenge) = new_pkce_pair();
    let state = new_csrf_token();
    let url = build_auth_url(
        creds.access_token.as_str(),
        redirect.as_str(),
        state.as_str(),
        challenge.as_str(),
    );
    mem.set(verifier, redirect);
    Ok(url)
}

/// A prepared `authorization_code` grant: whom the exchange is for, and the
/// form body to post to the token endpoint.
#[derive(Debug)]
pub struct ExchangeRequest {
    /// The client id the exchange is made for.
    pub client_id: String,
    /// The form-encoded request body.
    pub body: String,
}

/// Prepares the code-for-token exchange for a returned authorization code.
/// Consumes the ephemeral context by reading it (the slot is not cleared);
/// fails when the client credentials were never stored or when no
/// authorization was begun.
pub fn spotify_complete_auth(store: &CredStore, mem: &SpotifyAuthMemory, code: &str) -> (r: Result<
    ExchangeRequest,
    AuthError,
>)
    requires
        store.wf(),
    ensures
        match r {
            Ok(req) => {
                &&& store@.contains_key(spec_client_service())
                &&& req.client_id@ == store@[spec_client_service()].access_token
                &&& view_opt_string(mem.code_verifier) matches Some(v) && view_opt_string(
                    mem.redirect_uri,
                ) matches Some(u) && req.body@ == spec_exchange_body(code@, u, req.client_id@, v)
            },
            Err(e) => {
                ||| (e == AuthError::MissingClientCredentials && !store@.contains_key(
                    spec_client_service(),
                ))
                ||| (e == AuthError::MissingAuthorizationContext && store@.contains_key(
                    spec_client_service(),
                ) && (mem.code_verifier is None || mem.redirect_uri is None))
            },
        },
{
    let creds = match store.get("spotify_client") {
        None => { return Err(AuthError::MissingClientCredentials) },
        Some(c) => c,
    };
    let (verifier, redirect) = match mem.get() {
        None => { return Err(AuthError::MissingAuthorizationContext) },
        Some(p) => p,
    };
    let body = exchange_code_body(
        code,
        redirect.as_str(),
        creds.access_token.as_str(),
        verifier.as_str(),
    );
    Ok(ExchangeRequest { client_id: creds.access_token, body })
}

} // verus!
