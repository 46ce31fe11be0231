//! Fresh PKCE verifier/challenge pairs and CSRF state tokens. Generation is
//! delegated to the OAuth client crate's cryptographic randomness; what the
//! rest of the core needs to know about the generated values is stated here.

use vstd::prelude::*;

verus! {

/// Characters of the URL-safe base64 alphabet, unpadded.
pub open spec fn is_b64url_char(c: char) -> bool {
    ('A' <= c && c <= 'Z') || ('a' <= c && c <= 'z') || ('0' <= c && c <= '9') || c == '-'
        || c == '_'
}

/// A PKCE code verifier of the shape the PKCE specification requires:
/// 43 to 128 characters, all from the unpadded URL-safe base64 alphabet.
pub open spec fn is_valid_verifier(s: Seq<char>) -> bool {
    43 <= s.len() <= 128 && forall|i: int| 0 <= i < s.len() ==> is_b64url_char(s[i])
}

/// The SHA-256-derived PKCE challenge of a verifier: the unpadded URL-safe
/// base64 encoding of the SHA-256 digest of the verifier's bytes. A function
/// of the verifier alone.
pub uninterp spec fn challenge_of(verifier: Seq<char>) -> Seq<char>;

/// Relies on `oauth2::PkceCodeChallenge::new_random_sha256`: the verifier is
/// the unpadded URL-safe base64 encoding of 32 fresh random bytes, hence 43
/// characters of that alphabet; the challenge is the same encoding of the
/// verifier's SHA-256 digest, hence 43 such characters, and depends on the
/// verifier alone.
#[verifier::external_body]
pub(crate) fn new_pkce_pair() -> (r: (String, String))
    ensures
        is_valid_verifier(r.0@),
        r.0@.len() == 43,
        r.1@ == challenge_of(r.0@),
        r.1@.len() == 43,
        forall|i: int| 0 <= i < r.1@.len() ==> is_b64url_char(r.1@[i]),
{
    let (challenge, verifier) = oauth2::PkceCodeChallenge::new_random_sha256();
    (verifier.secret().clone(), challenge.as_str().to_string())
}

/// Relies on `oauth2::CsrfToken::new_random`: the token is the unpadded
/// URL-safe base64 encoding of 16 fresh random bytes, hence 22 characters
/// of that alphabet.
#[verifier::external_body]
pub(crate) fn new_csrf_token() -> (r: String)
    ensures
        r@.len() == 22,
        forall|i: int| 0 <= i < r@.len() ==> is_b64url_char(r@[i]),
{
    oauth2::CsrfToken::new_random().secret().clone()
}

} // verus!
