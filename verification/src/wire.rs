//! The outbound wire shapes: the provider authorization-request URL, the two
//! form-encoded token-endpoint grant bodies, and the normalized shape of a
//! token-endpoint response. These interoperate with an unmodified provider,
//! so each shape is pinned exactly, byte for byte.

use vstd::prelude::*;

use crate::urlenc::append_form_encoded;
use crate::urlenc::chars_of_ascii;
use crate::urlenc::spec_form_encode;

verus! {

use vstd::string::StringSliceAdditionalSpecFns;
use vstd::string::StringExecFns;

/// A token-endpoint response, already read out of its transport encoding.
#[derive(Debug)]
pub struct TokenResponse {
    /// The newly issued bearer token.
    pub access_token: String,
    /// The token's type as reported by the provider.
    pub token_type: String,
    /// Seconds until the new token expires.
    pub expires_in: i64,
    /// A rotated refresh token, when the provider chose to issue one.
    pub refresh_token: Option<String>,
}

/// The form encoding of a character sequence: its UTF-8 bytes encoded, read
/// back as characters (the encoding is all ASCII).
pub open spec fn enc(s: Seq<char>) -> Seq<char> {
    chars_of_ascii(spec_form_encode(vstd::utf8::encode_utf8(s)))
}

/// The scope list requested from the provider.
pub open spec fn spec_scope() -> Seq<char> {
    ("user-read-email user-read-private playlist-read-private user-library-read")@
}

/// The complete authorization endpoint URL for the given client id,
/// redirect URI, CSRF state and PKCE challenge, with the six query
/// parameters the provider's authorization endpoint accepts.
pub open spec fn spec_auth_url(
    cid: Seq<char>,
    ru: Seq<char>,
    st: Seq<char>,
    ch: Seq<char>,
) -> Seq<char> {
    ("https://accounts.spotify.com/authorize?response_type=code&client_id=")@ + enc(cid) + (
    "&redirect_uri=")@ + enc(ru) + ("&scope=")@ + enc(spec_scope()) + ("&state=")@ + enc(st) + (
    "&code_challenge_method=S256&code_challenge=")@ + enc(ch)
}

/// The form body of an `authorization_code` grant.
pub open spec fn spec_exchange_body(
    code: Seq<char>,
    ru: Seq<char>,
    cid: Seq<char>,
    ver: Seq<char>,
) -> Seq<char> {
    ("grant_type=authorization_code&code=")@ + enc(code) + ("&redirect_uri=")@ + enc(ru) + (
    "&client_id=")@ + enc(cid) + ("&code_verifier=")@ + enc(ver)
}

/// The form body of a `refresh_token` grant. A client secret never appears
/// here: when present it travels as HTTP Basic authentication instead.
pub open spec fn spec_refresh_body(rt: Seq<char>, cid: Seq<char>) -> Seq<char> {
    ("grant_type=refresh_token&refresh_token=")@ + enc(rt) + ("&client_id=")@ + enc(cid)
}

/// The token endpoint that both grants are posted to.
pub fn token_endpoint_url() -> (r: &'static str)
    ensures
        r@ == ("https://accounts.spotify.com/api/token")@,
{
    "https://accounts.spotify.com/api/token"
}

/// Builds the provider authorization-request URL. Pure: the caller supplies
/// the freshly generated CSRF state and PKCE challenge.
pub fn build_auth_url(client_id: &str, redirect_uri: &str, state: &str, code_challenge: &str) -> (r:
    String)
    ensures
        r@ == spec_auth_url(
            client_id@,
            redirect_uri@,
            state@,
            code_challenge@,
        ),
{
    let mut url = String::from_str(
        "https://accounts.spotify.com/authorize?response_type=code&client_id=",
    );
    append_form_encoded(&mut url, client_id);
    url.append("&redirect_uri=");
    append_form_encoded(&mut url, redirect_uri);
    url.append("&scope=");
    append_form_encoded(
        &mut url,
        "user-read-email user-read-private playlist-read-private user-library-read",
    );
    url.append("&state=");
    append_form_encoded(&mut url, state);
    url.append("&code_challenge_method=S256&code_challenge=");
    append_form_encoded(&mut url, code_challenge);
    proof {
        assert(url@ =~= spec_auth_url(
            client_id@,
            redirect_uri@,
            state@,
            code_challenge@,
        ));
    }
    url
}

/// Builds the form body of an `authorization_code` grant.
pub fn exchange_code_body(
    code: &str,
    redirect_uri: &str,
    client_id: &str,
    code_verifier: &str,
) -> (r: String)
    ensures
        r@ == spec_exchange_body(
            code@,
            redirect_uri@,
            client_id@,
            code_verifier@,
        ),
{
    let mut body = String::from_str("grant_type=authorization_code&code=");
    append_form_encoded(&mut body, code);
    body.append("&redirect_uri=");
    append_form_encoded(&mut body, redirect_uri);
    body.append("&client_id=");
    append_form_encoded(&mut body, client_id);
    body.append("&code_verifier=");
    append_form_encoded(&mut body, code_verifier);
    proof {
        assert(body@ =~= spec_exchange_body(
            code@,
            redirect_uri@,
            client_id@,
            code_verifier@,
        ));
    }
    body
}

/// Builds the form body of a `refresh_token` grant.
pub fn refresh_body(refresh_token: &str, client_id: &str) -> (r: String)
    ensures
        r@ == spec_refresh_body(refresh_token@, client_id@),
{
    let mut body = String::from_str("grant_type=refresh_token&refresh_token=");
    append_form_encoded(&mut body, refresh_token);
    body.append("&client_id=");
    append_form_encoded(&mut body, client_id);
    proof {
        assert(body@ =~= spec_refresh_body(
            refresh_token@,
            client_id@,
        ));
    }
    body
}

/// The message-post URL of the chat service's API for a channel.
pub fn discord_message_url(channel_id: &str) -> (r: String)
    ensures
        r@ == ("https://discord.com/api/v10/channels/")@ + channel_id@ + ("/messages")@,
{
    let mut url = String::from_str("https://discord.com/api/v10/channels/");
    url.append(channel_id);
    url.append("/messages");
    url
}

} // verus!
