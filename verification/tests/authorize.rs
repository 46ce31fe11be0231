use media_auth::AuthError;
use media_auth::CredStore;
use media_auth::SpotifyAuthMemory;
use media_auth::SpotifyAuthRequest;
use media_auth::TokenResponse;
use media_auth::finish_code_exchange;
use media_auth::spotify_authenticate;
use media_auth::spotify_begin_auth;
use media_auth::spotify_complete_auth;

fn query_param(url: &str, key: &str) -> Option<String> {
    let query = url.splitn(2, '?').nth(1)?;
    for pair in query.split('&') {
        let mut it = pair.splitn(2, '=');
        let k = it.next()?;
        let v = it.next().unwrap_or("");
        if k == key {
            return Some(v.to_string());
        }
    }
    None
}

fn request(client_id: &str) -> SpotifyAuthRequest {
    SpotifyAuthRequest {
        client_id: client_id.to_string(),
        client_secret: "shhh".to_string(),
        redirect_uri: "http://localhost/cb".to_string(),
    }
}

#[test]
fn authenticate_stores_client_credentials_and_builds_url() {
    let mut store = CredStore::new();
    let mut mem = SpotifyAuthMemory::new();
    let url = spotify_authenticate(&mut store, &mut mem, request("abc")).expect("url");
    assert!(url.starts_with("https://accounts.spotify.com/authorize?response_type=code"));
    assert!(url.contains("client_id=abc&redirect_uri=http%3A%2F%2Flocalhost%2Fcb"));
    assert!(url.contains("code_challenge_method=S256"));
    let client = store.get("spotify_client").expect("client row stored");
    assert_eq!(client.access_token, "abc");
    assert_eq!(client.refresh_token.as_deref(), Some("shhh"));
    assert_eq!(client.expires_at, None);
    assert_eq!(mem.redirect_uri.as_deref(), Some("http://localhost/cb"));
    assert!(mem.code_verifier.is_some());
}

#[test]
fn complete_authorization_persists_token_row() {
    let mut store = CredStore::new();
    let mut mem = SpotifyAuthMemory::new();
    spotify_authenticate(&mut store, &mut mem, request("abc")).expect("url");
    let req = spotify_complete_auth(&store, &mem, "validcode").expect("exchange request");
    assert_eq!(req.client_id, "abc");
    assert!(req.body.starts_with("grant_type=authorization_code&code=validcode"));
    assert!(req.body.contains("&redirect_uri=http%3A%2F%2Flocalhost%2Fcb"));
    assert!(req.body.contains("&client_id=abc"));
    let verifier = mem.code_verifier.clone().expect("verifier");
    assert!(req.body.ends_with(&format!("&code_verifier={}", verifier)));
    let body = Some(TokenResponse {
        access_token: "tok1".to_string(),
        token_type: "Bearer".to_string(),
        expires_in: 3_600,
        refresh_token: Some("r1".to_string()),
    });
    let msg = finish_code_exchange(&mut store, 200, body, 1_000).expect("authenticated");
    assert_eq!(msg, "Spotify authenticated");
    let row = store.get("spotify").expect("token row");
    assert_eq!(row.access_token, "tok1");
    assert_eq!(row.refresh_token.as_deref(), Some("r1"));
    assert_eq!(row.expires_at, Some(4_600));
}

#[test]
fn complete_before_begin_fails_missing_authorization_context() {
    let mut store = CredStore::new();
    let mut mem = SpotifyAuthMemory::new();
    spotify_authenticate(&mut store, &mut mem, request("abc")).expect("url");
    let fresh = SpotifyAuthMemory::new();
    let err = spotify_complete_auth(&store, &fresh, "validcode").unwrap_err();
    assert_eq!(err, AuthError::MissingAuthorizationContext);
}

#[test]
fn authenticate_with_empty_client_id_needs_stored_credentials() {
    let mut store = CredStore::new();
    let mut mem = SpotifyAuthMemory::new();
    let err = spotify_authenticate(&mut store, &mut mem, request("")).unwrap_err();
    assert_eq!(err, AuthError::MissingClientCredentials);
}

#[test]
fn authenticate_with_empty_client_id_uses_stored_credentials() {
    let mut store = CredStore::new();
    let mut mem = SpotifyAuthMemory::new();
    spotify_authenticate(&mut store, &mut mem, request("abc")).expect("url");
    let url = spotify_authenticate(&mut store, &mut mem, request("")).expect("url");
    assert!(url.contains("client_id=abc&"));
}

#[test]
fn begin_auth_without_stored_credentials_fails() {
    let store = CredStore::new();
    let mut mem = SpotifyAuthMemory::new();
    let err = spotify_begin_auth(&store, &mut mem, None).unwrap_err();
    assert_eq!(err, AuthError::MissingClientCredentials);
}

#[test]
fn begin_auth_defaults_to_loopback_redirect() {
    let mut store = CredStore::new();
    let mut mem = SpotifyAuthMemory::new();
    spotify_authenticate(&mut store, &mut mem, request("abc")).expect("url");
    let url = spotify_begin_auth(&store, &mut mem, None).expect("url");
    assert!(url.contains("redirect_uri=http%3A%2F%2F127.0.0.1%3A3000"));
    assert_eq!(mem.redirect_uri.as_deref(), Some("http://127.0.0.1:3000"));
}

#[test]
fn repeated_authorization_is_fresh() {
    let mut store = CredStore::new();
    let mut mem = SpotifyAuthMemory::new();
    let url1 = spotify_authenticate(&mut store, &mut mem, request("abc")).expect("url");
    let verifier1 = mem.code_verifier.clone().expect("verifier");
    let url2 = spotify_authenticate(&mut store, &mut mem, request("abc")).expect("url");
    let verifier2 = mem.code_verifier.clone().expect("verifier");
    let state1 = query_param(&url1, "state").expect("state");
    let state2 = query_param(&url2, "state").expect("state");
    let ch1 = query_param(&url1, "code_challenge").expect("challenge");
    let ch2 = query_param(&url2, "code_challenge").expect("challenge");
    assert_ne!(state1, state2);
    assert_ne!(ch1, ch2);
    assert_ne!(verifier1, verifier2);
}

#[test]
fn generated_pkce_values_have_the_documented_shape() {
    let mut store = CredStore::new();
    let mut mem = SpotifyAuthMemory::new();
    let url = spotify_authenticate(&mut store, &mut mem, request("abc")).expect("url");
    let verifier = mem.code_verifier.clone().expect("verifier");
    let challenge = query_param(&url, "code_challenge").expect("challenge");
    let state = query_param(&url, "state").expect("state");
    let b64url = |s: &str| {
        s.chars().all(|c| c.is_ascii_alphanumeric() || c == '-' || c == '_')
    };
    assert_eq!(verifier.len(), 43);
    assert_eq!(challenge.len(), 43);
    assert_eq!(state.len(), 22);
    assert!(b64url(&verifier));
    assert!(b64url(&challenge));
    assert!(b64url(&state));
    assert_ne!(challenge, verifier);
}

#[test]
fn failed_exchange_surfaces_status_and_leaves_store_unchanged() {
    let mut store = CredStore::new();
    let mut mem = SpotifyAuthMemory::new();
    spotify_authenticate(&mut store, &mut mem, request("abc")).expect("url");
    let err = finish_code_exchange(&mut store, 500, None, 1_000).unwrap_err();
    assert_eq!(err, AuthError::ExchangeFailed(500));
    assert!(store.get("spotify").is_none());
    let err = finish_code_exchange(&mut store, 200, None, 1_000).unwrap_err();
    assert_eq!(err, AuthError::MalformedResponse);
}

#[test]
fn auth_memory_reads_do_not_clear_the_slot() {
    let mut mem = SpotifyAuthMemory::new();
    assert!(mem.get().is_none());
    mem.set("ver".to_string(), "http://localhost/cb".to_string());
    let (v, u) = mem.get().expect("slot");
    assert_eq!(v, "ver");
    assert_eq!(u, "http://localhost/cb");
    let again = mem.get();
    assert!(again.is_some());
    mem.set("ver2".to_string(), "http://other/cb".to_string());
    let (v2, u2) = mem.get().expect("slot");
    assert_eq!(v2, "ver2");
    assert_eq!(u2, "http://other/cb");
}
